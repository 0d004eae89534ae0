//! The monitor's state: its settings and its two package sources, with the
//! merged view of their records and the summary that is handed to the
//! status bar.

use crate::color::ColorScheme;
use crate::format::{detail_text, render_detail, up_to_date, Palette, PaletteView};
use crate::package::{records, Package, PackageView};
use crate::repo::{AURepo, CommandOutcome, IsPackageRepo, OfficialRepo};
use crate::scheduler::{accepted, DEFAULT_LOCAL_PERIOD, DEFAULT_NETWORK_PERIOD};
use vstd::prelude::*;
use vstd::string::StringExecFns;

verus! {

/// The settings as they are given on the command line.
#[derive(Debug)]
pub struct CliOptions {
    /// Seconds between two refreshes from local data.
    pub interval_seconds: u64,
    /// Seconds between two refreshes over the network.
    pub network_interval_seconds: u64,
    /// Show no count when nothing is pending.
    pub no_zero_output: bool,
    /// Leave the user repository out.
    pub no_aur: bool,
    /// Align the detail text in columns, in this font.
    pub tooltip_align_columns: Option<String>,
    /// Colour the detail text by magnitude, with these colours.
    pub color_semver_updates: Option<String>,
}

/// The monitor's settings and sources.
#[derive(Debug)]
pub struct AppContext {
    pub interval_seconds: u64,
    pub network_interval_seconds: u64,
    pub no_aur: bool,
    pub no_zero: bool,
    pub tooltip_align: bool,
    pub tooltip_font: String,
    pub color_semver_updates: bool,
    pub colors: ColorScheme,
    pub official_repo: OfficialRepo,
    pub au_repo: AURepo,
}

/// What is handed to the status bar.
#[derive(Debug)]
pub struct StatusOutput {
    pub text: String,
    pub tooltip: String,
    pub class: String,
    pub alt: String,
}

/// The digit `d` as text.
pub open spec fn digit_text(d: nat) -> Seq<char> {
    if d == 0 {
        "0"@
    } else if d == 1 {
        "1"@
    } else if d == 2 {
        "2"@
    } else if d == 3 {
        "3"@
    } else if d == 4 {
        "4"@
    } else if d == 5 {
        "5"@
    } else if d == 6 {
        "6"@
    } else if d == 7 {
        "7"@
    } else if d == 8 {
        "8"@
    } else {
        "9"@
    }
}

/// The number `n` written in base ten.
pub open spec fn number_text(n: nat) -> Seq<char>
    decreases n,
{
    if n < 10 {
        digit_text(n)
    } else {
        number_text(n / 10) + digit_text(n % 10)
    }
}

/// The class of the status: whether anything is pending.
pub open spec fn status_class(count: nat) -> Seq<char> {
    if count > 0 {
        "has-updates"@
    } else {
        "updated"@
    }
}

/// The count as it is shown: nothing for zero where zero is not to be
/// shown, else the number.
pub open spec fn status_text(count: nat, no_zero: bool) -> Seq<char> {
    if count == 0 && no_zero {
        ""@
    } else {
        number_text(count)
    }
}

/// The settings that the command line gives. The two periods are taken only
/// where they are accepted; else both keep their defaults.
pub open spec fn period_pair(cli: CliOptions) -> (u64, u64) {
    if accepted(cli.interval_seconds, cli.network_interval_seconds) {
        (cli.interval_seconds, cli.network_interval_seconds)
    } else {
        (DEFAULT_LOCAL_PERIOD, DEFAULT_NETWORK_PERIOD)
    }
}

fn digit_string(d: usize) -> (r: &'static str)
    requires
        d < 10,
    ensures
        r@ == digit_text(d as nat),
{
    if d == 0 {
        "0"
    } else if d == 1 {
        "1"
    } else if d == 2 {
        "2"
    } else if d == 3 {
        "3"
    } else if d == 4 {
        "4"
    } else if d == 5 {
        "5"
    } else if d == 6 {
        "6"
    } else if d == 7 {
        "7"
    } else if d == 8 {
        "8"
    } else {
        "9"
    }
}

/// The number `n` written in base ten.
pub fn number_string(n: usize) -> (r: String)
    ensures
        r@ == number_text(n as nat),
    decreases n,
{
    if n < 10 {
        String::from_str(digit_string(n))
    } else {
        let mut out = number_string(n / 10);
        out.append(digit_string(n % 10));
        out
    }
}

impl Default for AppContext {
    /// The settings where nothing is given: a local refresh every 5 seconds,
    /// a network refresh every 300, both sources, plain text in a monospace
    /// font, and no records.
    fn default() -> (r: AppContext)
        ensures
            r.interval_seconds == DEFAULT_LOCAL_PERIOD,
            r.network_interval_seconds == DEFAULT_NETWORK_PERIOD,
            !r.no_aur,
            !r.no_zero,
            !r.tooltip_align,
            r.tooltip_font@ == "monospace"@,
            !r.color_semver_updates,
            r.colors == crate::color::default_scheme(),
            r.official_repo.snapshot() == Seq::<PackageView>::empty(),
            r.au_repo.snapshot() == Seq::<PackageView>::empty(),
    {
        AppContext {
            interval_seconds: DEFAULT_LOCAL_PERIOD,
            network_interval_seconds: DEFAULT_NETWORK_PERIOD,
            no_aur: false,
            no_zero: false,
            tooltip_align: false,
            tooltip_font: String::from_str("monospace"),
            color_semver_updates: false,
            colors: ColorScheme::default(),
            official_repo: OfficialRepo::default(),
            au_repo: AURepo::default(),
        }
    }
}

impl AppContext {
    /// The records of all sources that take part: those of the official
    /// repositories first, then those of the user repository unless it is
    /// left out. Nothing is merged or dropped.
    pub open spec fn merged(&self) -> Seq<PackageView> {
        if self.no_aur {
            self.official_repo.snapshot()
        } else {
            self.official_repo.snapshot() + self.au_repo.snapshot()
        }
    }

    /// The palette of the detail text: the scheme's hex codes where colours
    /// are wanted.
    pub open spec fn palette(&self) -> Option<PaletteView> {
        if self.color_semver_updates {
            Some(self.colors.palette_view())
        } else {
            None
        }
    }

    /// The detail text of the current records.
    pub open spec fn detail(&self) -> Seq<char> {
        detail_text(self.merged(), self.tooltip_align, self.palette(), self.tooltip_font@)
    }

    /// The settings that the command line gives, with no records. Periods
    /// that are not accepted are replaced by the defaults, both of them.
    pub fn from(cli: CliOptions) -> (r: AppContext)
        ensures
            r.no_aur == cli.no_aur,
            r.no_zero == cli.no_zero_output,
            (r.interval_seconds, r.network_interval_seconds) == period_pair(cli),
            accepted(r.interval_seconds, r.network_interval_seconds),
            r.tooltip_align == cli.tooltip_align_columns is Some,
            r.tooltip_font@ == match cli.tooltip_align_columns {
                Some(font) => font@,
                None => "monospace"@,
            },
            r.color_semver_updates == cli.color_semver_updates is Some,
            r.colors == match cli.color_semver_updates {
                Some(list) => crate::color::scheme_of(list@),
                None => crate::color::default_scheme(),
            },
            r.official_repo.snapshot() == Seq::<PackageView>::empty(),
            r.au_repo.snapshot() == Seq::<PackageView>::empty(),
    {
        let mut app_ctx = AppContext::default();
        app_ctx.no_aur = cli.no_aur;
        app_ctx.no_zero = cli.no_zero_output;
        if cli.interval_seconds <= cli.network_interval_seconds {
            app_ctx.interval_seconds = cli.interval_seconds;
            app_ctx.network_interval_seconds = cli.network_interval_seconds;
        }
        match cli.tooltip_align_columns {
            Some(font) => {
                app_ctx.tooltip_align = true;
                app_ctx.tooltip_font = font;
            },
            None => {},
        }
        match cli.color_semver_updates {
            Some(colors_str) => {
                app_ctx.color_semver_updates = true;
                app_ctx.colors = ColorScheme::from_cli(colors_str.as_str());
            },
            None => {},
        }
        app_ctx
    }

    /// Hands the official source the outcome of its refresh from local data.
    /// The user repository has no local refresh and keeps its records.
    pub fn local_updates(&mut self, official: &CommandOutcome)
        ensures
            final(self).official_repo.snapshot() == OfficialRepo::after_local(
                old(self).official_repo.snapshot(),
                *official,
            ),
            final(self).au_repo.snapshot() == old(self).au_repo.snapshot(),
            final(self).no_aur == old(self).no_aur,
            final(self).no_zero == old(self).no_zero,
            final(self).tooltip_align == old(self).tooltip_align,
            final(self).tooltip_font == old(self).tooltip_font,
            final(self).color_semver_updates == old(self).color_semver_updates,
            final(self).colors == old(self).colors,
            final(self).interval_seconds == old(self).interval_seconds,
            final(self).network_interval_seconds == old(self).network_interval_seconds,
    {
        self.official_repo.local_updates(official);
        if !self.no_aur {
            self.au_repo.local_updates(&CommandOutcome::NotStarted);
        }
    }

    /// Hands each source that takes part the outcome of its refresh over
    /// the network. The user repository keeps its records where it is left
    /// out.
    pub fn sync_updates(&mut self, official: &CommandOutcome, auxiliary: &CommandOutcome)
        ensures
            final(self).official_repo.snapshot() == OfficialRepo::after_sync(
                old(self).official_repo.snapshot(),
                *official,
            ),
            final(self).au_repo.snapshot() == if old(self).no_aur {
                old(self).au_repo.snapshot()
            } else {
                AURepo::after_sync(old(self).au_repo.snapshot(), *auxiliary)
            },
            final(self).no_aur == old(self).no_aur,
            final(self).no_zero == old(self).no_zero,
            final(self).tooltip_align == old(self).tooltip_align,
            final(self).tooltip_font == old(self).tooltip_font,
            final(self).color_semver_updates == old(self).color_semver_updates,
            final(self).colors == old(self).colors,
            final(self).interval_seconds == old(self).interval_seconds,
            final(self).network_interval_seconds == old(self).network_interval_seconds,
    {
        self.official_repo.sync_updates(official);
        if !self.no_aur {
            self.au_repo.sync_updates(auxiliary);
        }
    }

    /// The records of all sources that take part, official ones first.
    pub fn packages(&self) -> (r: Vec<Package>)
        ensures
            records(r@) == self.merged(),
    {
        let mut out: Vec<Package> = Vec::new();
        let first = self.official_repo.packages();
        let mut i: usize = 0;
        while i < first.len()
            invariant
                i <= first@.len(),
                records(out@) == records(first@).take(i as int),
            decreases first@.len() - i,
        {
            let p = first[i].duplicate();
            proof {
                assert(records(out@.push(p)) =~= records(out@).push(p@));
            }
            out.push(p);
            i += 1;
        }
        if !self.no_aur {
            let second = self.au_repo.packages();
            let mut j: usize = 0;
            while j < second.len()
                invariant
                    j <= second@.len(),
                    records(out@) == records(first@) + records(second@).take(j as int),
                decreases second@.len() - j,
            {
                let p = second[j].duplicate();
                proof {
                    assert(records(out@).push(p@) =~= records(first@) + records(second@).take(
                        j + 1,
                    ));
                }
                out.push(p);
                j += 1;
            }
        }
        out
    }

    /// The detail text of the current records.
    pub fn tooltip(&self) -> (r: String)
        ensures
            r@ == self.detail(),
    {
        let pkgs = self.packages();
        let palette: Option<Palette> = if self.color_semver_updates {
            Some(self.colors.palette())
        } else {
            None
        };
        render_detail(&pkgs, self.tooltip_align, &palette, self.tooltip_font.as_str())
    }

    /// The number of current records and their detail text. With no records
    /// the count is 0 and the text is the fixed sentence that says so.
    pub fn render_summary(&self) -> (r: (usize, String))
        ensures
            r.0 == self.merged().len(),
            r.1@ == self.detail(),
            self.merged().len() == 0 ==> r.0 == 0 && r.1@ == up_to_date(),
    {
        let pkgs = self.packages();
        (pkgs.len(), self.tooltip())
    }

    /// What is handed to the status bar: the count as text, the detail
    /// text, and the class, which is also the alternative text.
    pub fn waybar_output(&self) -> (r: StatusOutput)
        ensures
            r.text@ == status_text(self.merged().len(), self.no_zero),
            r.tooltip@ == self.detail(),
            r.class@ == status_class(self.merged().len()),
            r.alt@ == status_class(self.merged().len()),
    {
        let (count_pkg, tooltip) = self.render_summary();
        let text = if count_pkg == 0 && self.no_zero {
            String::from_str("")
        } else {
            number_string(count_pkg)
        };
        let class = if count_pkg > 0 {
            "has-updates"
        } else {
            "updated"
        };
        StatusOutput {
            text,
            tooltip,
            class: String::from_str(class),
            alt: String::from_str(class),
        }
    }
}

/// The sentence for no records is not empty, so the detail text of no
/// records is never the empty string.
pub proof fn lemma_up_to_date_is_not_empty(
    align: bool,
    palette: Option<PaletteView>,
    font: Seq<char>,
)
    ensures
        up_to_date().len() > 0,
        detail_text(Seq::<PackageView>::empty(), align, palette, font) == up_to_date(),
{
    reveal_strlit("System updated");
}

} // verus!
