//! The refresh schedule: two countdown timers, a short one for refreshes
//! from local data and a long one for refreshes over the network.

use vstd::prelude::*;

verus! {

/// The local period, in seconds, that is used where the configured periods
/// are rejected.
pub const DEFAULT_LOCAL_PERIOD: u64 = 5;

/// The network period, in seconds, that is used where the configured
/// periods are rejected.
pub const DEFAULT_NETWORK_PERIOD: u64 = 300;

/// What is to be done at a scheduling instant.
#[derive(Debug, Clone, Copy, PartialEq, Eq, Structural)]
pub enum Refresh {
    /// Refresh over the network.
    Network,
    /// Refresh from local data.
    Local,
    /// Neither timer has run out.
    Idle,
}

/// The two timers: their periods and the time that is left on each.
#[derive(Debug, Clone, Copy, PartialEq, Eq, Structural)]
pub struct DualCadenceScheduler {
    pub local_period: u64,
    pub network_period: u64,
    pub local_left: u64,
    pub network_left: u64,
}

/// Whether a pair of periods is accepted: local refreshes must come at least
/// as often as network refreshes.
pub open spec fn accepted(local_period: u64, network_period: u64) -> bool {
    local_period <= network_period
}

/// Both timers freshly started with the given periods.
pub open spec fn fresh(local_period: u64, network_period: u64) -> DualCadenceScheduler {
    DualCadenceScheduler {
        local_period,
        network_period,
        local_left: local_period,
        network_left: network_period,
    }
}

/// What is left on a timer after `elapsed`: never less than nothing.
pub open spec fn left_after(left: u64, elapsed: u64) -> u64 {
    if elapsed >= left {
        0
    } else {
        (left - elapsed) as u64
    }
}

impl DualCadenceScheduler {
    /// Whether the periods are in order and neither timer holds more than
    /// its period.
    pub open spec fn wf(&self) -> bool {
        &&& accepted(self.local_period, self.network_period)
        &&& self.local_left <= self.local_period
        &&& self.network_left <= self.network_period
    }

    /// The time until the next timer runs out.
    pub open spec fn wait(&self) -> u64 {
        if self.local_left <= self.network_left {
            self.local_left
        } else {
            self.network_left
        }
    }

    /// What is due after `elapsed`. The network timer comes first: where it
    /// has run out, the network refresh is due, whether or not the local
    /// timer has run out too. The local refresh is due where only the local
    /// timer has run out.
    pub open spec fn due(&self, elapsed: u64) -> Refresh {
        if left_after(self.network_left, elapsed) == 0 {
            Refresh::Network
        } else if left_after(self.local_left, elapsed) == 0 {
            Refresh::Local
        } else {
            Refresh::Idle
        }
    }

    /// The timers after `elapsed`. A network refresh restarts both timers, so
    /// that the next local refresh is a full local period away; a local
    /// refresh restarts the local timer; else both timers run on.
    pub open spec fn after(&self, elapsed: u64) -> DualCadenceScheduler {
        match self.due(elapsed) {
            Refresh::Network => fresh(self.local_period, self.network_period),
            Refresh::Local => DualCadenceScheduler {
                local_left: self.local_period,
                network_left: left_after(self.network_left, elapsed),
                ..*self
            },
            Refresh::Idle => DualCadenceScheduler {
                local_left: left_after(self.local_left, elapsed),
                network_left: left_after(self.network_left, elapsed),
                ..*self
            },
        }
    }

    /// Both timers freshly started, or `None` where the periods are
    /// rejected.
    pub fn new(local_period: u64, network_period: u64) -> (r: Option<DualCadenceScheduler>)
        ensures
            accepted(local_period, network_period) ==> r == Some(fresh(local_period, network_period)),
            !accepted(local_period, network_period) ==> r is None,
            r matches Some(s) ==> s.wf(),
    {
        if local_period > network_period {
            None
        } else {
            Some(
                DualCadenceScheduler {
                    local_period,
                    network_period,
                    local_left: local_period,
                    network_left: network_period,
                },
            )
        }
    }

    /// Both timers freshly started with the given periods, or with the
    /// default periods where the given ones are rejected; the flag says
    /// whether they were rejected.
    pub fn with_fallback(local_period: u64, network_period: u64) -> (r: (DualCadenceScheduler, bool))
        ensures
            r.1 == !accepted(local_period, network_period),
            r.0 == if accepted(local_period, network_period) {
                fresh(local_period, network_period)
            } else {
                fresh(DEFAULT_LOCAL_PERIOD, DEFAULT_NETWORK_PERIOD)
            },
            r.0.wf(),
    {
        match DualCadenceScheduler::new(local_period, network_period) {
            Some(s) => (s, false),
            None => (
                DualCadenceScheduler {
                    local_period: DEFAULT_LOCAL_PERIOD,
                    network_period: DEFAULT_NETWORK_PERIOD,
                    local_left: DEFAULT_LOCAL_PERIOD,
                    network_left: DEFAULT_NETWORK_PERIOD,
                },
                true,
            ),
        }
    }

    /// The time until the next timer runs out.
    pub fn next_wait(&self) -> (r: u64)
        ensures
            r == self.wait(),
    {
        if self.local_left <= self.network_left {
            self.local_left
        } else {
            self.network_left
        }
    }

    /// Lets `elapsed` pass on both timers and says what is due.
    pub fn advance(&mut self, elapsed: u64) -> (r: Refresh)
        ensures
            r == old(self).due(elapsed),
            *final(self) == old(self).after(elapsed),
            old(self).wf() ==> final(self).wf(),
    {
        let network_left: u64 = if elapsed >= self.network_left {
            0
        } else {
            self.network_left - elapsed
        };
        let local_left: u64 = if elapsed >= self.local_left {
            0
        } else {
            self.local_left - elapsed
        };
        if network_left == 0 {
            self.network_left = self.network_period;
            self.local_left = self.local_period;
            Refresh::Network
        } else if local_left == 0 {
            self.network_left = network_left;
            self.local_left = self.local_period;
            Refresh::Local
        } else {
            self.network_left = network_left;
            self.local_left = local_left;
            Refresh::Idle
        }
    }
}

/// Where both timers run out at the same instant, the network refresh alone
/// is due, and afterwards the local timer is freshly started: the next
/// local refresh is a full local period away.
pub proof fn lemma_network_preempts_local(s: DualCadenceScheduler, elapsed: u64)
    requires
        left_after(s.network_left, elapsed) == 0,
        left_after(s.local_left, elapsed) == 0,
    ensures
        s.due(elapsed) == Refresh::Network,
        s.after(elapsed).local_left == s.local_period,
        s.after(elapsed).network_left == s.network_period,
        s.after(elapsed).wait() == if s.local_period <= s.network_period {
            s.local_period
        } else {
            s.network_period
        },
{
}

/// After every network refresh the local timer is freshly started, whether
/// or not it had run out.
pub proof fn lemma_network_refresh_resets_local(s: DualCadenceScheduler, elapsed: u64)
    requires
        s.due(elapsed) == Refresh::Network,
    ensures
        s.after(elapsed).local_left == s.local_period,
{
}

/// The timers stay in order, and waiting for as long as `wait` says always
/// makes a refresh due.
pub proof fn lemma_schedule_progress(s: DualCadenceScheduler, elapsed: u64)
    requires
        s.wf(),
    ensures
        s.after(elapsed).wf(),
        s.after(elapsed).local_period == s.local_period,
        s.after(elapsed).network_period == s.network_period,
        elapsed >= s.wait() ==> s.due(elapsed) != Refresh::Idle,
        elapsed < s.wait() ==> s.due(elapsed) == Refresh::Idle,
{
}

} // verus!
