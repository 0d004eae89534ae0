//! The cached summary of the slower source: when it was last refreshed, how
//! many records it had, and their rendered text.

use vstd::prelude::*;

verus! {

/// A cached summary. The time of the last refresh is unset until the first
/// refresh and never goes back afterwards.
#[derive(Debug)]
pub struct CacheEntry {
    pub last_refresh: Option<u64>,
    pub record_count: usize,
    pub rendered_text: String,
}

/// The later of the time of the last refresh, if there was one, and `now`.
pub open spec fn refresh_time(last: Option<u64>, now: u64) -> u64 {
    match last {
        Some(t) => if t > now {
            t
        } else {
            now
        },
        None => now,
    }
}

impl CacheEntry {
    /// A cache that was never refreshed: no time, no records, no text.
    pub fn new() -> (r: CacheEntry)
        ensures
            r.last_refresh is None,
            r.record_count == 0,
            r.rendered_text@ == Seq::<char>::empty(),
    {
        CacheEntry { last_refresh: None, record_count: 0, rendered_text: String::new() }
    }

    /// Stores the summary of a refresh that ended at `now`, on a clock that
    /// does not go back. Should `now` lie before the last refresh all the
    /// same, the time of the last refresh stays.
    pub fn store(&mut self, now: u64, record_count: usize, rendered_text: String)
        ensures
            final(self).last_refresh == Some(refresh_time(old(self).last_refresh, now)),
            final(self).record_count == record_count,
            final(self).rendered_text == rendered_text,
    {
        let time: u64 = match self.last_refresh {
            Some(t) => if t > now {
                t
            } else {
                now
            },
            None => now,
        };
        self.last_refresh = Some(time);
        self.record_count = record_count;
        self.rendered_text = rendered_text;
    }

    /// Notes a refresh that was attempted at `now` and failed: the time
    /// moves on, the summary stays as it was.
    pub fn touch(&mut self, now: u64)
        ensures
            final(self).last_refresh == Some(refresh_time(old(self).last_refresh, now)),
            final(self).record_count == old(self).record_count,
            final(self).rendered_text == old(self).rendered_text,
    {
        let time: u64 = match self.last_refresh {
            Some(t) => if t > now {
                t
            } else {
                now
            },
            None => now,
        };
        self.last_refresh = Some(time);
    }
}

/// Once set, the time of the last refresh stays set and never goes back,
/// whatever time a later refresh reports.
pub proof fn lemma_refresh_time_is_monotonic(last: Option<u64>, now: u64)
    ensures
        refresh_time(last, now) >= now,
        last matches Some(t) ==> refresh_time(last, now) >= t,
{
}

} // verus!
