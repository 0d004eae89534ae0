//! Version ordering. Whether one version string is newer than another is
//! decided in tiers: by the revision counters of both strings where both
//! carry one; else by the order of their leniently parsed semantic versions;
//! else by the order of the raw strings.

use crate::text::chars_of;
use vstd::prelude::*;
use vstd::string::StrSliceExecFns;

verus! {

/// A leniently parsed semantic version: its three numbers and its
/// pre-release tag (empty for a release).
#[derive(Debug)]
pub struct SemVer {
    pub major: u64,
    pub minor: u64,
    pub patch: u64,
    pub pre: String,
}

impl SemVer {
    /// The version as plain values: major, minor, patch and pre-release tag.
    pub open spec fn key(&self) -> (u64, u64, u64, Seq<char>) {
        (self.major, self.minor, self.patch, self.pre@)
    }
}

/// What `lenient_semver::parse` makes of `text`: the numbers and the
/// pre-release tag of the version, or `None` where it reports an error.
pub uninterp spec fn lenient_semver(text: Seq<char>) -> Option<(u64, u64, u64, Seq<char>)>;

/// Whether the pre-release tag `a` is greater than the tag `b` in
/// `semver::Prerelease`'s order; `None` where `semver::Prerelease::new`
/// rejects one of the two.
pub uninterp spec fn prerelease_gt(a: Seq<char>, b: Seq<char>) -> Option<bool>;

/// Calls `lenient_semver::parse` and copies the fields `major`, `minor`,
/// `patch` and `pre` of the version it returns, or gives `None` for its
/// error. The contract names that result, and adds what the parser's
/// documentation shows of the empty string: it is an error, for want of a
/// major number.
#[verifier::external_body]
pub(crate) fn lenient_parse(text: &str) -> (r: Option<SemVer>)
    ensures
        match r {
            Some(v) => lenient_semver(text@) == Some(v.key()),
            None => lenient_semver(text@) is None,
        },
        text@.len() == 0 ==> r is None,
{
    match lenient_semver::parse(text) {
        Ok(v) => Some(
            SemVer { major: v.major, minor: v.minor, patch: v.patch, pre: v.pre.as_str().to_string() },
        ),
        Err(_) => None,
    }
}

/// Builds a `semver::Prerelease` from each of the two tags with
/// `semver::Prerelease::new` and compares them with `>`; `None` where one of
/// the tags is rejected. The contract only names that result.
#[verifier::external_body]
pub(crate) fn prerelease_greater(a: &str, b: &str) -> (r: Option<bool>)
    ensures
        r == prerelease_gt(a@, b@),
{
    match (semver::Prerelease::new(a), semver::Prerelease::new(b)) {
        (Ok(x), Ok(y)) => Some(x > y),
        _ => None,
    }
}

/// Whether `c` is one of the digits `0` to `9`.
pub open spec fn is_digit(c: char) -> bool {
    '0' <= c <= '9'
}

/// The number of digits in `s` from position `i` on, up to the first
/// character that is no digit.
pub open spec fn digit_run(s: Seq<char>, i: int) -> nat
    decreases s.len() - i,
{
    if 0 <= i < s.len() && is_digit(s[i]) {
        1 + digit_run(s, i + 1)
    } else {
        0
    }
}

/// The number that the digits `s` write in base ten.
pub open spec fn decimal(s: Seq<char>) -> nat
    decreases s.len(),
{
    if s.len() == 0 {
        0
    } else {
        (decimal(s.drop_last()) * 10 + (s.last() as u32 - '0' as u32)) as nat
    }
}

/// Whether a revision tag starts at position `i` of `s`: the letter `r`, one
/// or more digits, and a dot.
pub open spec fn tag_at(s: Seq<char>, i: int) -> bool {
    let n = digit_run(s, i + 1);
    &&& 0 <= i < s.len()
    &&& s[i] == 'r'
    &&& n > 0
    &&& i + 1 + n < s.len()
    &&& s[i + 1 + n] == '.'
}

/// The position of the first revision tag of `s` at position `i` or later.
pub open spec fn first_tag(s: Seq<char>, i: int) -> Option<int>
    decreases s.len() - i,
{
    if i < 0 || i >= s.len() {
        None
    } else if tag_at(s, i) {
        Some(i)
    } else {
        first_tag(s, i + 1)
    }
}

/// The digits of the revision tag that starts at position `i` of `s`.
pub open spec fn tag_digits(s: Seq<char>, i: int) -> Seq<char> {
    s.subrange(i + 1, i + 1 + digit_run(s, i + 1))
}

/// The revision counter of `s`: the number in its first revision tag, where
/// there is a tag and the number fits in 64 bits.
pub open spec fn revision(s: Seq<char>) -> Option<u64> {
    match first_tag(s, 0) {
        Some(i) => if decimal(tag_digits(s, i)) <= u64::MAX {
            Some(decimal(tag_digits(s, i)) as u64)
        } else {
            None
        },
        None => None,
    }
}

/// Whether `a` sorts after `b` from position `i` on, given that the two
/// agree before `i`: at the first position where they differ `a` has the
/// greater character, or `b` ends there and `a` does not.
pub open spec fn lex_after_from(a: Seq<char>, b: Seq<char>, i: int) -> bool
    decreases a.len() - i,
{
    if i < 0 || i >= a.len() {
        false
    } else if i >= b.len() {
        true
    } else if a[i] != b[i] {
        a[i] as u32 > b[i] as u32
    } else {
        lex_after_from(a, b, i + 1)
    }
}

/// Whether `a` sorts lexically after `b`.
pub open spec fn lex_after(a: Seq<char>, b: Seq<char>) -> bool {
    lex_after_from(a, b, 0)
}

/// Whether the pre-release tag `a` ranks above the tag `b`. A release (the
/// empty tag) ranks above every pre-release; two pre-releases go by
/// `semver`'s order of tags.
pub open spec fn pre_newer(a: Seq<char>, b: Seq<char>) -> bool {
    if a.len() == 0 {
        b.len() > 0
    } else if b.len() == 0 {
        false
    } else {
        prerelease_gt(a, b) == Some(true)
    }
}

/// Semantic-version order: whether `a` is greater than `b` by major, then
/// minor, then patch, then pre-release tag.
pub open spec fn version_after(
    a: (u64, u64, u64, Seq<char>),
    b: (u64, u64, u64, Seq<char>),
) -> bool {
    if a.0 != b.0 {
        a.0 > b.0
    } else if a.1 != b.1 {
        a.1 > b.1
    } else if a.2 != b.2 {
        a.2 > b.2
    } else {
        pre_newer(a.3, b.3)
    }
}

/// The decision of the two textual tiers. Where both strings parse as
/// semantic versions, their order decides. Else the candidate is newer
/// exactly if neither string is empty and it sorts lexically after the
/// baseline.
pub open spec fn newer_by_text(candidate: Seq<char>, baseline: Seq<char>) -> bool {
    match (lenient_semver(candidate), lenient_semver(baseline)) {
        (Some(c), Some(b)) => version_after(c, b),
        _ => candidate.len() > 0 && baseline.len() > 0 && lex_after(candidate, baseline),
    }
}

/// Whether `candidate` is newer than `baseline`. Where both carry a revision
/// counter, the counters alone decide. Else the host's own verdict decides
/// where one is given, and the textual tiers where none is.
pub open spec fn newer(candidate: Seq<char>, baseline: Seq<char>, host: Option<bool>) -> bool {
    match (revision(candidate), revision(baseline)) {
        (Some(c), Some(b)) => c > b,
        _ => match host {
            Some(verdict) => verdict,
            None => newer_by_text(candidate, baseline),
        },
    }
}

proof fn lemma_decimal_grows(s: Seq<char>, a: int, k: int, b: int)
    requires
        0 <= a <= k <= b <= s.len(),
        forall|j: int| a <= j < b ==> is_digit(#[trigger] s[j]),
    ensures
        decimal(s.subrange(a, k)) <= decimal(s.subrange(a, b)),
    decreases b - k,
{
    if k < b {
        lemma_decimal_grows(s, a, k, b - 1);
        assert(s.subrange(a, b).drop_last() =~= s.subrange(a, b - 1));
        assert(s.subrange(a, b).last() == s[b - 1]);
    }
}

/// The number that the digits `cs[a..b]` write, where it fits in 64 bits.
fn decimal_value(cs: &Vec<char>, a: usize, b: usize) -> (r: Option<u64>)
    requires
        a <= b <= cs@.len(),
        forall|j: int| a <= j < b ==> is_digit(#[trigger] cs@[j]),
    ensures
        r == (if decimal(cs@.subrange(a as int, b as int)) <= u64::MAX {
            Some(decimal(cs@.subrange(a as int, b as int)) as u64)
        } else {
            None
        }),
{
    let mut acc: u64 = 0;
    let mut k: usize = a;
    while k < b
        invariant
            a <= k <= b <= cs@.len(),
            forall|j: int| a <= j < b ==> is_digit(#[trigger] cs@[j]),
            acc == decimal(cs@.subrange(a as int, k as int)),
        decreases b - k,
    {
        let c: char = cs[k];
        let d: u64 = (c as u32 - '0' as u32) as u64;
        proof {
            assert(cs@.subrange(a as int, k + 1).drop_last() =~= cs@.subrange(a as int, k as int));
            lemma_decimal_grows(cs@, a as int, k + 1, b as int);
        }
        if acc > 1844674407370955161 || (acc == 1844674407370955161 && d > 5) {
            return None;
        }
        acc = acc * 10 + d;
        k += 1;
    }
    Some(acc)
}

/// The revision counter of `cs`.
pub fn revision_of(cs: &Vec<char>) -> (r: Option<u64>)
    ensures
        r == revision(cs@),
{
    let n: usize = cs.len();
    let mut i: usize = 0;
    while i < n
        invariant
            i <= n,
            n == cs@.len(),
            first_tag(cs@, 0) == first_tag(cs@, i as int),
        decreases n - i,
    {
        if cs[i] == 'r' {
            let mut j: usize = i + 1;
            while j < n && '0' <= cs[j] && cs[j] <= '9'
                invariant
                    i < j <= n,
                    n == cs@.len(),
                    digit_run(cs@, i + 1) == (j - i - 1) + digit_run(cs@, j as int),
                    forall|k: int| i < k < j ==> is_digit(#[trigger] cs@[k]),
                decreases n - j,
            {
                j += 1;
            }
            if j > i + 1 && j < n && cs[j] == '.' {
                return decimal_value(cs, i + 1, j);
            }
        }
        i += 1;
    }
    None
}

/// Whether `a` sorts lexically after `b`.
pub fn sorts_after(a: &Vec<char>, b: &Vec<char>) -> (r: bool)
    ensures
        r == lex_after(a@, b@),
{
    let mut i: usize = 0;
    while i < a.len() && i < b.len()
        invariant
            i <= a@.len(),
            i <= b@.len(),
            lex_after(a@, b@) == lex_after_from(a@, b@, i as int),
        decreases a@.len() - i,
    {
        if a[i] != b[i] {
            return a[i] as u32 > b[i] as u32;
        }
        i += 1;
    }
    i < a.len()
}

impl SemVer {
    /// Whether this version is greater than `other` in semantic-version
    /// order.
    pub fn is_after(&self, other: &SemVer) -> (r: bool)
        ensures
            r == version_after(self.key(), other.key()),
    {
        if self.major != other.major {
            self.major > other.major
        } else if self.minor != other.minor {
            self.minor > other.minor
        } else if self.patch != other.patch {
            self.patch > other.patch
        } else {
            tag_newer(self.pre.as_str(), other.pre.as_str())
        }
    }
}

/// Whether the pre-release tag `a` ranks above the tag `b`.
pub fn tag_newer(a: &str, b: &str) -> (r: bool)
    ensures
        r == pre_newer(a@, b@),
{
    if a.unicode_len() == 0 {
        b.unicode_len() > 0
    } else if b.unicode_len() == 0 {
        false
    } else {
        match prerelease_greater(a, b) {
            Some(greater) => greater,
            None => false,
        }
    }
}

/// The decision of the two textual tiers, given what the two strings parse
/// to.
pub fn newer_by_parsed(
    candidate: &Vec<char>,
    baseline: &Vec<char>,
    parsed_candidate: &Option<SemVer>,
    parsed_baseline: &Option<SemVer>,
) -> (r: bool)
    ensures
        r == match (*parsed_candidate, *parsed_baseline) {
            (Some(c), Some(b)) => version_after(c.key(), b.key()),
            _ => candidate@.len() > 0 && baseline@.len() > 0 && lex_after(candidate@, baseline@),
        },
{
    match (parsed_candidate, parsed_baseline) {
        (Some(x), Some(y)) => x.is_after(y),
        _ => candidate.len() > 0 && baseline.len() > 0 && sorts_after(candidate, baseline),
    }
}

/// Whether `candidate` is newer than `baseline`, where the host package
/// manager's own verdict on the pair, if it gave one, is `host`. Without a
/// verdict, an empty string on either side is never newer.
pub fn is_version_newer_with(candidate: &str, baseline: &str, host: Option<bool>) -> (r: bool)
    ensures
        r == newer(candidate@, baseline@, host),
        host is None && (candidate@.len() == 0 || baseline@.len() == 0) ==> !r,
{
    let c = chars_of(candidate);
    let b = chars_of(baseline);
    match (revision_of(&c), revision_of(&b)) {
        (Some(x), Some(y)) => x > y,
        _ => match host {
            Some(verdict) => verdict,
            None => {
                let parsed_candidate = lenient_parse(candidate);
                let parsed_baseline = lenient_parse(baseline);
                newer_by_parsed(&c, &b, &parsed_candidate, &parsed_baseline)
            },
        },
    }
}

/// Whether `candidate` is newer than `baseline`. An empty string on either
/// side is never newer.
pub fn is_version_newer(candidate: &str, baseline: &str) -> (r: bool)
    ensures
        r == newer(candidate@, baseline@, None),
        revision(candidate@) is Some && revision(baseline@) is Some ==> r == (revision(
            candidate@,
        )->0 > revision(baseline@)->0),
        candidate@.len() == 0 || baseline@.len() == 0 ==> !r,
{
    is_version_newer_with(candidate, baseline, None)
}

/// Where both strings carry a revision counter, which is newer depends on
/// the two counters alone, whatever else the strings hold and whatever the
/// host says.
pub proof fn lemma_revision_decides(
    candidate: Seq<char>,
    baseline: Seq<char>,
    host: Option<bool>,
)
    requires
        revision(candidate) is Some,
        revision(baseline) is Some,
    ensures
        newer(candidate, baseline, host) == (revision(candidate)->0 > revision(baseline)->0),
{
}

/// Where two strings both parse as semantic versions and do not both carry
/// a revision counter, the candidate is newer exactly if its
/// version is the greater one.
pub proof fn lemma_semver_decides(candidate: Seq<char>, baseline: Seq<char>)
    requires
        lenient_semver(candidate) is Some,
        lenient_semver(baseline) is Some,
        !(revision(candidate) is Some && revision(baseline) is Some),
    ensures
        newer(candidate, baseline, None) == version_after(
            lenient_semver(candidate)->0,
            lenient_semver(baseline)->0,
        ),
{
}

} // verus!
