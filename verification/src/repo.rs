//! The two package sources. Each keeps a snapshot of pending updates and
//! replaces it as a whole from the output of a finished command run; a run
//! that failed or never started leaves the snapshot as it was.

use crate::package::{classify, is_record_line, record_of, records, Package, PackageView};
use crate::text::{
    chars_of, field_bounds, fields, line_bounds, lines_of, slice_text, span_text, span_texts, spans_within,
};
use crate::version::{is_version_newer, newer};
use vstd::prelude::*;
use vstd::string::StrSliceExecFns;
use vstd::string::StringExecFns;

verus! {

/// How a command run ended.
#[derive(Debug)]
pub enum CommandOutcome {
    /// The command ran to its end: whether it ended in success, and its
    /// standard output as text.
    Finished { success: bool, output: String },
    /// The command could not be started.
    NotStarted,
}

/// Whether a line gives a record: it is an update line and, where only
/// newer versions are wanted, its new version is newer than its old one.
pub open spec fn gives_record(line: Seq<char>, only_newer: bool) -> bool {
    is_record_line(line) && (only_newer ==> newer(
        record_of(line).new_version,
        record_of(line).old_version,
        None,
    ))
}

/// The records of those of `lines` that give one, in the order of the
/// lines; the other lines are left out.
pub open spec fn snapshot_of(lines: Seq<Seq<char>>, only_newer: bool) -> Seq<PackageView>
    decreases lines.len(),
{
    if lines.len() == 0 {
        Seq::empty()
    } else {
        let rest = snapshot_of(lines.drop_last(), only_newer);
        if gives_record(lines.last(), only_newer) {
            rest.push(record_of(lines.last()))
        } else {
            rest
        }
    }
}

/// The snapshot after a command run: that of the run's output where the run
/// succeeded, and the one before in any other case.
pub open spec fn refreshed(before: Seq<PackageView>, outcome: CommandOutcome, only_newer: bool) -> Seq<
    PackageView,
> {
    match outcome {
        CommandOutcome::Finished { success, output } => if success {
            snapshot_of(lines_of(output@), only_newer)
        } else {
            before
        },
        CommandOutcome::NotStarted => before,
    }
}

/// The records that the lines of `text` give.
pub fn parse_updates(text: &str, only_newer: bool) -> (r: Vec<Package>)
    ensures
        records(r@) == snapshot_of(lines_of(text@), only_newer),
        forall|i: int| 0 <= i < r@.len() ==> (#[trigger] r@[i]).wf(),
{
    let cs = chars_of(text);
    let spans = line_bounds(&cs);
    let mut out: Vec<Package> = Vec::new();
    let mut k: usize = 0;
    while k < spans.len()
        invariant
            k <= spans@.len(),
            cs@ == text@,
            spans_within(spans@, cs@),
            span_texts(spans@, cs@) == lines_of(text@),
            records(out@) == snapshot_of(lines_of(text@).take(k as int), only_newer),
            forall|i: int| 0 <= i < out@.len() ==> (#[trigger] out@[i]).wf(),
        decreases spans@.len() - k,
    {
        let (a, b) = spans[k];
        let line = text.substring_char(a, b);
        proof {
            let lines = lines_of(text@);
            let next = lines.take(k + 1);
            assert(next.drop_last() =~= lines.take(k as int));
        }
        match Package::parse(line) {
            Some(p) => {
                if !only_newer || is_version_newer(p.new_version.as_str(), p.old_version.as_str()) {
                    out.push(p);
                }
            },
            None => {},
        }
        k += 1;
    }
    proof {
        assert(lines_of(text@).take(spans@.len() as int) =~= lines_of(text@));
    }
    out
}

/// What a package source can do: take the outcome of its local or of its
/// network refresh, and show its current records.
pub trait IsPackageRepo {
    /// The snapshot that the source holds.
    spec fn snapshot(&self) -> Seq<PackageView>;

    /// The snapshot after a local refresh that ended as `outcome`.
    spec fn after_local(before: Seq<PackageView>, outcome: CommandOutcome) -> Seq<PackageView>;

    /// The snapshot after a network refresh that ended as `outcome`.
    spec fn after_sync(before: Seq<PackageView>, outcome: CommandOutcome) -> Seq<PackageView>;

    /// Takes the outcome of a refresh from local data.
    fn local_updates(&mut self, outcome: &CommandOutcome)
        ensures
            final(self).snapshot() == Self::after_local(old(self).snapshot(), *outcome),
    ;

    /// Takes the outcome of a refresh that synchronised over the network.
    fn sync_updates(&mut self, outcome: &CommandOutcome)
        ensures
            final(self).snapshot() == Self::after_sync(old(self).snapshot(), *outcome),
    ;

    /// The current records, in the order in which the command gave them.
    fn packages(&self) -> (r: &Vec<Package>)
        ensures
            records(r@) == self.snapshot(),
    ;
}

/// The source of the official repositories.
#[derive(Debug)]
pub struct OfficialRepo {
    packages: Vec<Package>,
}

/// The source of the user repository.
#[derive(Debug)]
pub struct AURepo {
    packages: Vec<Package>,
}

impl Default for OfficialRepo {
    /// A source with no records.
    fn default() -> (r: OfficialRepo)
        ensures
            r.snapshot() == Seq::<PackageView>::empty(),
    {
        let r = OfficialRepo { packages: Vec::new() };
        r
    }
}

impl OfficialRepo {
    /// The arguments of the update check: without colour, and without
    /// synchronising unless `sync` is set.
    pub open spec fn arguments(sync: bool) -> Seq<Seq<char>> {
        if sync {
            seq!["--nocolor"@]
        } else {
            seq!["--nocolor"@, "--nosync"@]
        }
    }

    /// The arguments with which the update check is to be run.
    pub fn command_arguments(sync: bool) -> (r: Vec<String>)
        ensures
            r@.len() == Self::arguments(sync).len(),
            forall|i: int| 0 <= i < r@.len() ==> (#[trigger] r@[i])@ == Self::arguments(sync)[i],
    {
        let mut args: Vec<String> = Vec::new();
        args.push(String::from_str("--nocolor"));
        if !sync {
            args.push(String::from_str("--nosync"));
        }
        args
    }

    /// Takes the outcome of the update check: a successful run replaces the
    /// snapshot by the records of its output, any other leaves it.
    pub fn common_updates(&mut self, outcome: &CommandOutcome)
        ensures
            final(self).snapshot() == refreshed(old(self).snapshot(), *outcome, false),
    {
        match outcome {
            CommandOutcome::Finished { success, output } => {
                if *success {
                    self.packages = parse_updates(output.as_str(), false);
                }
            },
            CommandOutcome::NotStarted => {},
        }
    }
}

impl IsPackageRepo for OfficialRepo {
    closed spec fn snapshot(&self) -> Seq<PackageView> {
        records(self.packages@)
    }

    open spec fn after_local(before: Seq<PackageView>, outcome: CommandOutcome) -> Seq<PackageView> {
        refreshed(before, outcome, false)
    }

    open spec fn after_sync(before: Seq<PackageView>, outcome: CommandOutcome) -> Seq<PackageView> {
        refreshed(before, outcome, false)
    }

    fn local_updates(&mut self, outcome: &CommandOutcome) {
        self.common_updates(outcome);
    }

    fn sync_updates(&mut self, outcome: &CommandOutcome) {
        self.common_updates(outcome);
    }

    fn packages(&self) -> (r: &Vec<Package>) {
        &self.packages
    }
}

impl Default for AURepo {
    /// A source with no records.
    fn default() -> (r: AURepo)
        ensures
            r.snapshot() == Seq::<PackageView>::empty(),
    {
        let r = AURepo { packages: Vec::new() };
        r
    }
}

impl IsPackageRepo for AURepo {
    closed spec fn snapshot(&self) -> Seq<PackageView> {
        records(self.packages@)
    }

    open spec fn after_local(before: Seq<PackageView>, outcome: CommandOutcome) -> Seq<PackageView> {
        before
    }

    open spec fn after_sync(before: Seq<PackageView>, outcome: CommandOutcome) -> Seq<PackageView> {
        refreshed(before, outcome, true)
    }

    fn local_updates(&mut self, outcome: &CommandOutcome) {
    }

    fn sync_updates(&mut self, outcome: &CommandOutcome) {
        match outcome {
            CommandOutcome::Finished { success, output } => {
                if *success {
                    self.packages = parse_updates(output.as_str(), true);
                }
            },
            CommandOutcome::NotStarted => {},
        }
    }

    fn packages(&self) -> (r: &Vec<Package>) {
        &self.packages
    }
}

/// A package by name, with a version of it: the one that is installed, or
/// the one that is published.
#[derive(Debug)]
pub struct Versioned {
    pub name: String,
    pub version: String,
}

/// Names and versions as plain values.
pub open spec fn pairs(v: Seq<Versioned>) -> Seq<(Seq<char>, Seq<char>)> {
    Seq::new(v.len(), |i: int| (v[i].name@, v[i].version@))
}

/// The names and versions that those of `lines` give that hold exactly two
/// whitespace-delimited fields, in the order of the lines.
pub open spec fn installed_of(lines: Seq<Seq<char>>) -> Seq<(Seq<char>, Seq<char>)>
    decreases lines.len(),
{
    if lines.len() == 0 {
        Seq::empty()
    } else {
        let rest = installed_of(lines.drop_last());
        let f = fields(lines.last());
        if f.len() == 2 {
            rest.push((f[0], f[1]))
        } else {
            rest
        }
    }
}

/// The version of the first entry of `remote`, from place `i` on, that
/// bears the name `name`.
pub open spec fn published_version(
    remote: Seq<(Seq<char>, Seq<char>)>,
    name: Seq<char>,
    i: int,
) -> Option<Seq<char>>
    decreases remote.len() - i,
{
    if i < 0 || i >= remote.len() {
        None
    } else if remote[i].0 == name {
        Some(remote[i].1)
    } else {
        published_version(remote, name, i + 1)
    }
}

/// The update that is pending for an installed package: one to the
/// published version of that name, if there is one and it is newer than the
/// installed version.
pub open spec fn update_for(
    installed: (Seq<char>, Seq<char>),
    remote: Seq<(Seq<char>, Seq<char>)>,
) -> Option<PackageView> {
    match published_version(remote, installed.0, 0) {
        Some(v) => if newer(v, installed.1, None) {
            Some(
                PackageView {
                    name: installed.0,
                    old_version: installed.1,
                    new_version: v,
                    update_type: classify(installed.1, v),
                },
            )
        } else {
            None
        },
        None => None,
    }
}

/// The updates that are pending for the installed packages, in their order.
pub open spec fn cross_referenced(
    installed: Seq<(Seq<char>, Seq<char>)>,
    remote: Seq<(Seq<char>, Seq<char>)>,
) -> Seq<PackageView>
    decreases installed.len(),
{
    if installed.len() == 0 {
        Seq::empty()
    } else {
        let rest = cross_referenced(installed.drop_last(), remote);
        match update_for(installed.last(), remote) {
            Some(p) => rest.push(p),
            None => rest,
        }
    }
}

/// The installed packages that the lines of `listing` name: one for each
/// line of exactly two fields, a name and a version.
pub fn parse_installed(listing: &str) -> (r: Vec<Versioned>)
    ensures
        pairs(r@) == installed_of(lines_of(listing@)),
{
    let cs = chars_of(listing);
    let spans = line_bounds(&cs);
    let mut out: Vec<Versioned> = Vec::new();
    let mut k: usize = 0;
    while k < spans.len()
        invariant
            k <= spans@.len(),
            cs@ == listing@,
            spans_within(spans@, cs@),
            span_texts(spans@, cs@) == lines_of(listing@),
            pairs(out@) == installed_of(lines_of(listing@).take(k as int)),
        decreases spans@.len() - k,
    {
        let (a, b) = spans[k];
        let line = listing.substring_char(a, b);
        proof {
            let lines = lines_of(listing@);
            let next = lines.take(k + 1);
            assert(next.drop_last() =~= lines.take(k as int));
        }
        let line_chars = chars_of(line);
        let found = field_bounds(&line_chars);
        if found.len() == 2 {
            let entry = Versioned {
                name: slice_text(line, found[0].0, found[0].1),
                version: slice_text(line, found[1].0, found[1].1),
            };
            out.push(entry);
        }
        k += 1;
    }
    proof {
        assert(lines_of(listing@).take(spans@.len() as int) =~= lines_of(listing@));
    }
    out
}

/// The place of the first entry of `remote` that bears the name `name`.
pub fn find_published(remote: &Vec<Versioned>, name: &String) -> (r: Option<usize>)
    ensures
        match r {
            Some(i) => i < remote@.len() && published_version(pairs(remote@), name@, 0) == Some(
                remote@[i as int].version@,
            ),
            None => published_version(pairs(remote@), name@, 0) is None,
        },
{
    let mut i: usize = 0;
    while i < remote.len()
        invariant
            i <= remote@.len(),
            published_version(pairs(remote@), name@, 0) == published_version(
                pairs(remote@),
                name@,
                i as int,
            ),
        decreases remote@.len() - i,
    {
        if remote[i].name == *name {
            return Some(i);
        }
        i += 1;
    }
    None
}

/// The updates that are pending for the installed packages, given the
/// versions that are published.
pub fn cross_reference(installed: &Vec<Versioned>, remote: &Vec<Versioned>) -> (r: Vec<Package>)
    ensures
        records(r@) == cross_referenced(pairs(installed@), pairs(remote@)),
        forall|i: int| 0 <= i < r@.len() ==> (#[trigger] r@[i]).wf(),
{
    let mut out: Vec<Package> = Vec::new();
    let mut k: usize = 0;
    while k < installed.len()
        invariant
            k <= installed@.len(),
            records(out@) == cross_referenced(pairs(installed@).take(k as int), pairs(remote@)),
            forall|i: int| 0 <= i < out@.len() ==> (#[trigger] out@[i]).wf(),
        decreases installed@.len() - k,
    {
        let have = &installed[k];
        proof {
            let next = pairs(installed@).take(k + 1);
            assert(next.drop_last() =~= pairs(installed@).take(k as int));
        }
        match find_published(remote, &have.name) {
            Some(i) => {
                let offered = &remote[i].version;
                if is_version_newer(offered.as_str(), have.version.as_str()) {
                    let p = Package::new(have.name.clone(), have.version.clone(), offered.clone());
                    out.push(p);
                }
            },
            None => {},
        }
        k += 1;
    }
    proof {
        assert(pairs(installed@).take(installed@.len() as int) =~= pairs(installed@));
    }
    out
}

impl AURepo {
    /// Replaces the snapshot by the updates that are pending for the
    /// installed packages, given the versions that are published.
    pub fn cross_reference_updates(&mut self, installed: &Vec<Versioned>, remote: &Vec<Versioned>)
        ensures
            final(self).snapshot() == cross_referenced(pairs(installed@), pairs(remote@)),
    {
        self.packages = cross_reference(installed, remote);
    }
}

/// A refresh that did not succeed changes nothing: after a run that failed,
/// whatever it printed, and after one that never started, either source
/// holds the snapshot it held before.
pub proof fn lemma_failed_refresh_keeps_snapshot(
    before: Seq<PackageView>,
    outcome: CommandOutcome,
    only_newer: bool,
)
    requires
        !(outcome matches CommandOutcome::Finished { success, .. } && success),
    ensures
        refreshed(before, outcome, only_newer) == before,
        OfficialRepo::after_local(before, outcome) == before,
        OfficialRepo::after_sync(before, outcome) == before,
        AURepo::after_local(before, outcome) == before,
        AURepo::after_sync(before, outcome) == before,
{
}

/// A snapshot never holds more records than the output has lines, and each
/// of its records is that of an update line of the output.
pub proof fn lemma_snapshot_from_lines(lines: Seq<Seq<char>>, only_newer: bool)
    ensures
        snapshot_of(lines, only_newer).len() <= lines.len(),
        forall|i: int|
            0 <= i < snapshot_of(lines, only_newer).len() ==> exists|k: int|
                0 <= k < lines.len() && gives_record(lines[k], only_newer) && #[trigger] snapshot_of(
                    lines,
                    only_newer,
                )[i] == record_of(lines[k]),
    decreases lines.len(),
{
    if lines.len() > 0 {
        let front = lines.drop_last();
        lemma_snapshot_from_lines(front, only_newer);
        let snap = snapshot_of(lines, only_newer);
        let rest = snapshot_of(front, only_newer);
        assert forall|i: int| 0 <= i < snap.len() implies exists|k: int|
            0 <= k < lines.len() && gives_record(lines[k], only_newer) && #[trigger] snap[i]
                == record_of(lines[k]) by {
            if i < rest.len() {
                assert(snap[i] == rest[i]);
                let k = choose|k: int|
                    0 <= k < front.len() && gives_record(front[k], only_newer) && rest[i]
                        == record_of(front[k]);
                assert(front[k] == lines[k]);
            } else {
                let k = lines.len() - 1;
                assert(gives_record(lines[k], only_newer) && snap[i] == record_of(lines[k]));
            }
        }
    }
}

} // verus!
