//! Update records: one package for which a newer version is on offer, with
//! the magnitude of the step between the two versions.

use crate::text::{chars_of, field_bounds, fields, is_space, is_whitespace, slice_text, span_text, span_texts};
use crate::version::{lenient_parse, lenient_semver, pre_newer, tag_newer, SemVer};
use vstd::prelude::*;
use vstd::string::StringExecFns;

verus! {

/// How large the step from the old version to the new one is.
#[derive(Debug, Clone, Copy, PartialEq, Eq, Structural)]
pub enum UpdateType {
    Major,
    Minor,
    Patch,
    Pre,
    Other,
}

/// One pending update.
#[derive(Debug)]
pub struct Package {
    pub name: String,
    pub old_version: String,
    pub new_version: String,
    pub update_type: UpdateType,
}

/// A pending update as plain values.
pub struct PackageView {
    pub name: Seq<char>,
    pub old_version: Seq<char>,
    pub new_version: Seq<char>,
    pub update_type: UpdateType,
}

impl View for Package {
    type V = PackageView;

    open spec fn view(&self) -> PackageView {
        PackageView {
            name: self.name@,
            old_version: self.old_version@,
            new_version: self.new_version@,
            update_type: self.update_type,
        }
    }
}

/// The records that `ps` holds, as plain values.
pub open spec fn records(ps: Seq<Package>) -> Seq<PackageView> {
    Seq::new(ps.len(), |i: int| ps[i]@)
}

/// The magnitude of the step between two parsed versions: the first of
/// major, minor, patch and pre-release tag in which the new version is
/// greater, in that order; `Other` where it is greater in none.
pub open spec fn magnitude(
    old: (u64, u64, u64, Seq<char>),
    new: (u64, u64, u64, Seq<char>),
) -> UpdateType {
    if new.0 > old.0 {
        UpdateType::Major
    } else if new.1 > old.1 {
        UpdateType::Minor
    } else if new.2 > old.2 {
        UpdateType::Patch
    } else if pre_newer(new.3, old.3) {
        UpdateType::Pre
    } else {
        UpdateType::Other
    }
}

/// The magnitude of the step between two version strings: that of their
/// parsed versions, and `Other` where one of them does not parse.
pub open spec fn classify(old: Seq<char>, new: Seq<char>) -> UpdateType {
    match (lenient_semver(old), lenient_semver(new)) {
        (Some(o), Some(n)) => magnitude(o, n),
        _ => UpdateType::Other,
    }
}

/// The two characters of the arrow that stands between the versions.
pub open spec fn arrow() -> Seq<char> {
    seq!['-', '>']
}

/// Whether `s` has the shape of an update line: four whitespace-delimited
/// fields with nothing before the first or behind the last, the third of
/// them the arrow `->`.
pub open spec fn is_record_line(s: Seq<char>) -> bool {
    &&& s.len() > 0
    &&& !is_space(s[0])
    &&& !is_space(s.last())
    &&& fields(s).len() == 4
    &&& fields(s)[2] == arrow()
}

/// The record that an update line stands for.
pub open spec fn record_of(s: Seq<char>) -> PackageView {
    PackageView {
        name: fields(s)[0],
        old_version: fields(s)[1],
        new_version: fields(s)[3],
        update_type: classify(fields(s)[1], fields(s)[3]),
    }
}

/// The message for a line that is no update line.
pub open spec fn invalid_format(s: Seq<char>) -> Seq<char> {
    "Invalid format: expected 'name old_version -> new_version', got '"@ + s + "'"@
}

impl UpdateType {
    /// The magnitude of the step from the parsed version `old` to `new`.
    pub fn between(old: &SemVer, new: &SemVer) -> (r: UpdateType)
        ensures
            r == magnitude(old.key(), new.key()),
    {
        if new.major > old.major {
            UpdateType::Major
        } else if new.minor > old.minor {
            UpdateType::Minor
        } else if new.patch > old.patch {
            UpdateType::Patch
        } else if tag_newer(new.pre.as_str(), old.pre.as_str()) {
            UpdateType::Pre
        } else {
            UpdateType::Other
        }
    }

    /// The place of this magnitude in a table of five: major, minor, patch,
    /// pre-release, other.
    pub open spec fn rank(self) -> int {
        match self {
            UpdateType::Major => 0,
            UpdateType::Minor => 1,
            UpdateType::Patch => 2,
            UpdateType::Pre => 3,
            UpdateType::Other => 4,
        }
    }

    /// The place of this magnitude in a table of five.
    pub fn index(&self) -> (r: usize)
        ensures
            r == self.rank(),
    {
        match self {
            UpdateType::Major => 0,
            UpdateType::Minor => 1,
            UpdateType::Patch => 2,
            UpdateType::Pre => 3,
            UpdateType::Other => 4,
        }
    }
}

impl Package {
    /// Whether the magnitude is the one that the two versions give.
    pub open spec fn wf(&self) -> bool {
        self.update_type == classify(self.old_version@, self.new_version@)
    }

    /// The magnitude of the step from `old_ver` to `new_ver`.
    pub fn determine_update_type(old_ver: &str, new_ver: &str) -> (r: UpdateType)
        ensures
            r == classify(old_ver@, new_ver@),
    {
        let old_parsed = lenient_parse(old_ver);
        let new_parsed = lenient_parse(new_ver);
        match (old_parsed, new_parsed) {
            (Some(old), Some(new)) => UpdateType::between(&old, &new),
            _ => UpdateType::Other,
        }
    }

    /// The record of an update of `name` from `old_version` to
    /// `new_version`.
    pub fn new(name: String, old_version: String, new_version: String) -> (r: Package)
        ensures
            r.wf(),
            r.name@ == name@,
            r.old_version@ == old_version@,
            r.new_version@ == new_version@,
    {
        let update_type = Package::determine_update_type(old_version.as_str(), new_version.as_str());
        Package { name, old_version, new_version, update_type }
    }

    /// The record that `line` stands for, if it is an update line.
    pub fn parse(line: &str) -> (r: Option<Package>)
        ensures
            r is Some == is_record_line(line@),
            r matches Some(p) ==> p@ == record_of(line@) && p.wf(),
    {
        let cs = chars_of(line);
        let n: usize = cs.len();
        if n == 0 || is_whitespace(cs[0]) || is_whitespace(cs[n - 1]) {
            return None;
        }
        let spans = field_bounds(&cs);
        if spans.len() != 4 {
            return None;
        }
        let (a, b) = spans[2];
        if b - a != 2 || cs[a] != '-' || cs[a + 1] != '>' {
            proof {
                assert(arrow().len() == 2);
            }
            return None;
        }
        assert(fields(cs@)[2] =~= arrow());
        let name = slice_text(line, spans[0].0, spans[0].1);
        let old_version = slice_text(line, spans[1].0, spans[1].1);
        let new_version = slice_text(line, spans[3].0, spans[3].1);
        Some(Package::new(name, old_version, new_version))
    }

    /// The record that `s` stands for, or the message that says that `s` is
    /// no update line.
    pub fn try_from(s: String) -> (r: Result<Package, String>)
        ensures
            match r {
                Ok(p) => is_record_line(s@) && p@ == record_of(s@) && p.wf(),
                Err(message) => !is_record_line(s@) && message@ == invalid_format(s@),
            },
    {
        match Package::parse(s.as_str()) {
            Some(p) => Ok(p),
            None => {
                let mut message = String::from_str(
                    "Invalid format: expected 'name old_version -> new_version', got '",
                );
                message.append(s.as_str());
                message.append("'");
                Err(message)
            },
        }
    }

    /// A copy of this record.
    pub fn duplicate(&self) -> (r: Package)
        ensures
            r@ == self@,
            r.wf() == self.wf(),
    {
        Package {
            name: self.name.clone(),
            old_version: self.old_version.clone(),
            new_version: self.new_version.clone(),
            update_type: self.update_type,
        }
    }
}

/// The magnitude of a record is a function of its two versions: two
/// well-formed records with the same versions have the same magnitude, so
/// classifying a pair again gives what it gave before.
pub proof fn lemma_magnitude_is_stable(p: Package, q: Package)
    requires
        p.wf(),
        q.wf(),
        p.old_version@ == q.old_version@,
        p.new_version@ == q.new_version@,
    ensures
        p.update_type == q.update_type,
{
}

/// The name and the two versions of a record that an update line gives are
/// not empty and hold no whitespace.
pub proof fn lemma_record_fields_are_words(s: Seq<char>)
    requires
        is_record_line(s),
    ensures
        record_of(s).name.len() > 0,
        record_of(s).old_version.len() > 0,
        record_of(s).new_version.len() > 0,
        forall|j: int| 0 <= j < record_of(s).name.len() ==> !is_space(#[trigger] record_of(s).name[j]),
        forall|j: int|
            0 <= j < record_of(s).old_version.len() ==> !is_space(
                #[trigger] record_of(s).old_version[j],
            ),
        forall|j: int|
            0 <= j < record_of(s).new_version.len() ==> !is_space(
                #[trigger] record_of(s).new_version[j],
            ),
{
    crate::text::lemma_fields_are_words(s, 0);
}

/// A step between two equal versions is never major, minor or patch, and
/// a release compared with itself is `Other`.
pub proof fn lemma_equal_versions_do_not_grow(v: (u64, u64, u64, Seq<char>))
    ensures
        magnitude(v, v) == UpdateType::Other || magnitude(v, v) == UpdateType::Pre,
        v.3.len() == 0 ==> magnitude(v, v) == UpdateType::Other,
{
}

} // verus!
