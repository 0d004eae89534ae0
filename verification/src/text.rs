//! Character-level helpers: the characters of a string slice, whitespace,
//! whitespace-delimited fields, trimming and splitting on a separator.

use vstd::prelude::*;
use vstd::string::StrSliceExecFns;
use vstd::string::StringExecFns;

verus! {

/// Whether `c` is whitespace: a character with the Unicode property
/// `White_Space`.
pub open spec fn is_space(c: char) -> bool {
    let n = c as u32;
    ||| 0x09 <= n <= 0x0D
    ||| n == 0x20
    ||| n == 0x85
    ||| n == 0xA0
    ||| n == 0x1680
    ||| 0x2000 <= n <= 0x200A
    ||| n == 0x2028
    ||| n == 0x2029
    ||| n == 0x202F
    ||| n == 0x205F
    ||| n == 0x3000
}

/// The text between the positions `a` and `b` of `s`, for a pair of bounds
/// `(a, b)`.
pub open spec fn span_text(s: Seq<char>, span: (usize, usize)) -> Seq<char> {
    s.subrange(span.0 as int, span.1 as int)
}

/// Whether each pair of `spans` bounds a non-reversed range inside `s`.
pub open spec fn spans_within(spans: Seq<(usize, usize)>, s: Seq<char>) -> bool {
    forall|k: int| 0 <= k < spans.len() ==> (#[trigger] spans[k]).0 <= spans[k].1 <= s.len()
}

/// The texts that `spans` cut out of `s`, in order.
pub open spec fn span_texts(spans: Seq<(usize, usize)>, s: Seq<char>) -> Seq<Seq<char>> {
    Seq::new(spans.len(), |k: int| span_text(s, spans[k]))
}

/// The number of characters from position `i` of `s` up to the next
/// whitespace character or the end.
pub open spec fn word_len(s: Seq<char>, i: int) -> nat
    decreases s.len() - i,
{
    if 0 <= i < s.len() && !is_space(s[i]) {
        1 + word_len(s, i + 1)
    } else {
        0
    }
}

/// The whitespace-delimited fields of `s` that start at position `i` or
/// later: the maximal runs of characters that are not whitespace.
pub open spec fn fields_from(s: Seq<char>, i: int) -> Seq<Seq<char>>
    decreases s.len() - i,
{
    if i < 0 || i >= s.len() {
        Seq::empty()
    } else if is_space(s[i]) {
        fields_from(s, i + 1)
    } else {
        let n = 1 + word_len(s, i + 1);
        if i + n > s.len() {
            Seq::empty()
        } else {
            seq![s.subrange(i, i + n)] + fields_from(s, i + n)
        }
    }
}

/// The whitespace-delimited fields of `s`.
pub open spec fn fields(s: Seq<char>) -> Seq<Seq<char>> {
    fields_from(s, 0)
}

/// The number of characters from position `i` of `s` up to the next `sep` or
/// the end.
pub open spec fn piece_len(s: Seq<char>, i: int, sep: char) -> nat
    decreases s.len() - i,
{
    if 0 <= i < s.len() && s[i] != sep {
        1 + piece_len(s, i + 1, sep)
    } else {
        0
    }
}

/// The pieces into which the occurrences of `sep` at position `i` or later
/// divide the rest of `s`: one more piece than there are separators.
pub open spec fn pieces_from(s: Seq<char>, i: int, sep: char) -> Seq<Seq<char>>
    decreases s.len() - i,
{
    let n = piece_len(s, i, sep);
    if i < 0 || i + n >= s.len() {
        seq![s.subrange(i, i + n)]
    } else {
        seq![s.subrange(i, i + n)] + pieces_from(s, i + n + 1, sep)
    }
}

/// The pieces into which `sep` divides `s`.
pub open spec fn pieces(s: Seq<char>, sep: char) -> Seq<Seq<char>> {
    pieces_from(s, 0, sep)
}

/// The line that the piece at place `k` of `ps` holds: the piece itself,
/// without the carriage return at its end if a line feed followed it.
pub open spec fn line_at(ps: Seq<Seq<char>>, k: int) -> Seq<char> {
    let piece = ps[k];
    if k + 1 < ps.len() && piece.len() > 0 && piece.last() == '\r' {
        piece.drop_last()
    } else {
        piece
    }
}

/// The lines of `text`: what stands between its line feeds.
pub open spec fn lines_of(text: Seq<char>) -> Seq<Seq<char>> {
    let ps = pieces(text, '\n');
    Seq::new(ps.len(), |k: int| line_at(ps, k))
}

/// The number of whitespace characters at the start of `s`, from position
/// `i` on.
pub open spec fn lead_len(s: Seq<char>, i: int) -> nat
    decreases s.len() - i,
{
    if 0 <= i < s.len() && is_space(s[i]) {
        1 + lead_len(s, i + 1)
    } else {
        0
    }
}

/// The position just behind the last character before `j` that is not
/// whitespace and not before `low`; `low` if there is none.
pub open spec fn tail_end(s: Seq<char>, low: int, j: int) -> int
    decreases j - low,
{
    if low < j <= s.len() && 0 < j && is_space(s[j - 1]) {
        tail_end(s, low, j - 1)
    } else {
        j
    }
}

/// `s` without the whitespace at its start and at its end.
pub open spec fn trimmed(s: Seq<char>) -> Seq<char> {
    let a = lead_len(s, 0) as int;
    s.subrange(a, tail_end(s, a, s.len() as int))
}

/// A word ends inside the string.
pub proof fn lemma_word_len_bound(s: Seq<char>, i: int)
    requires
        0 <= i <= s.len(),
    ensures
        i + word_len(s, i) <= s.len(),
    decreases s.len() - i,
{
    if i < s.len() && !is_space(s[i]) {
        lemma_word_len_bound(s, i + 1);
    }
}

/// The characters that `word_len` counts are no whitespace.
pub proof fn lemma_word_has_no_space(s: Seq<char>, i: int, j: int)
    requires
        0 <= i <= j < i + word_len(s, i),
    ensures
        j < s.len(),
        !is_space(s[j]),
    decreases j - i,
{
    if i < j {
        lemma_word_has_no_space(s, i + 1, j);
    }
}

/// Every field is a word: it is not empty and holds no whitespace.
pub proof fn lemma_fields_are_words(s: Seq<char>, i: int)
    requires
        0 <= i <= s.len(),
    ensures
        forall|k: int|
            0 <= k < fields_from(s, i).len() ==> (#[trigger] fields_from(s, i)[k]).len() > 0,
        forall|k: int, j: int|
            0 <= k < fields_from(s, i).len() && 0 <= j < fields_from(s, i)[k].len() ==> !is_space(
                #[trigger] fields_from(s, i)[k][j],
            ),
    decreases s.len() - i,
{
    let f = fields_from(s, i);
    if i >= s.len() {
        assert(f.len() == 0);
    } else if is_space(s[i]) {
        lemma_fields_are_words(s, i + 1);
        assert(f == fields_from(s, i + 1));
    } else {
        let n = 1 + word_len(s, i + 1);
        lemma_word_len_bound(s, i + 1);
        lemma_fields_are_words(s, i + n);
        let head = s.subrange(i, i + n);
        let rest = fields_from(s, i + n);
        assert(f == seq![head] + rest);
        assert forall|j: int| 0 <= j < head.len() implies !is_space(#[trigger] head[j]) by {
            lemma_word_has_no_space(s, i, i + j);
        }
        assert forall|k: int| 0 <= k < f.len() implies (#[trigger] f[k]).len() > 0 && (forall|j: int|
            0 <= j < f[k].len() ==> !is_space(#[trigger] f[k][j])) by {
            if k > 0 {
                assert(f[k] == rest[k - 1]);
            } else {
                assert(f[0] == head);
            }
        }
    }
}

/// Whether `c` is whitespace.
pub fn is_whitespace(c: char) -> (r: bool)
    ensures
        r == is_space(c),
{
    let n: u32 = c as u32;
    (0x09 <= n && n <= 0x0D) || n == 0x20 || n == 0x85 || n == 0xA0 || n == 0x1680 || (0x2000 <= n
        && n <= 0x200A) || n == 0x2028 || n == 0x2029 || n == 0x202F || n == 0x205F || n == 0x3000
}

/// The characters of `s`, in order.
pub fn chars_of(s: &str) -> (v: Vec<char>)
    ensures
        v@ == s@,
{
    let mut v: Vec<char> = Vec::new();
    let chars = s.chars();
    for c in it: chars
        invariant
            v@ == it.history(),
    {
        v.push(c);
    }
    v
}

/// The characters of `s` from position `a` up to position `b`, as a string.
pub fn slice_text(s: &str, a: usize, b: usize) -> (r: String)
    requires
        a <= b <= s@.len(),
    ensures
        r@ == s@.subrange(a as int, b as int),
{
    String::from_str(s.substring_char(a, b))
}

/// The bounds of the whitespace-delimited fields of `cs`, in order.
pub fn field_bounds(cs: &Vec<char>) -> (r: Vec<(usize, usize)>)
    ensures
        spans_within(r@, cs@),
        span_texts(r@, cs@) == fields(cs@),
        forall|k: int| 0 <= k < r@.len() ==> (#[trigger] r@[k]).0 < r@[k].1,
{
    let n: usize = cs.len();
    let mut out: Vec<(usize, usize)> = Vec::new();
    let mut i: usize = 0;
    while i < n
        invariant
            i <= n,
            n == cs@.len(),
            spans_within(out@, cs@),
            forall|k: int| 0 <= k < out@.len() ==> (#[trigger] out@[k]).0 < out@[k].1,
            fields(cs@) == span_texts(out@, cs@) + fields_from(cs@, i as int),
        decreases n - i,
    {
        if is_whitespace(cs[i]) {
            i += 1;
        } else {
            let start: usize = i;
            let mut j: usize = i + 1;
            while j < n && !is_whitespace(cs[j])
                invariant
                    start < j <= n,
                    n == cs@.len(),
                    word_len(cs@, start + 1) == (j - start - 1) + word_len(cs@, j as int),
                decreases n - j,
            {
                j += 1;
            }
            proof {
                lemma_word_len_bound(cs@, j as int);
            }
            out.push((start, j));
            i = j;
        }
    }
    out
}

/// The bounds of the pieces into which `sep` divides `cs`, in order.
pub fn piece_bounds(cs: &Vec<char>, sep: char) -> (r: Vec<(usize, usize)>)
    ensures
        spans_within(r@, cs@),
        span_texts(r@, cs@) == pieces(cs@, sep),
        r@.len() >= 1,
        forall|k: int| 0 <= k < r@.len() ==> ((#[trigger] r@[k]).1 < cs@.len() <==> k + 1 < r@.len()),
{
    let n: usize = cs.len();
    let mut out: Vec<(usize, usize)> = Vec::new();
    let mut start: usize = 0;
    let mut done: bool = false;
    while !done
        invariant
            start <= n,
            n == cs@.len(),
            spans_within(out@, cs@),
            forall|k: int|
                0 <= k < out@.len() && (!done || k + 1 < out@.len()) ==> (#[trigger] out@[k]).1
                    < cs@.len(),
            !done ==> pieces(cs@, sep) == span_texts(out@, cs@) + pieces_from(cs@, start as int, sep),
            done ==> pieces(cs@, sep) == span_texts(out@.drop_last(), cs@).push(span_text(cs@, out@.last())),
            done ==> out@.len() >= 1 && out@.last().0 <= out@.last().1 == cs@.len(),
        decreases n - start + (if done { 0int } else { 1int }),
    {
        let mut j: usize = start;
        while j < n && cs[j] != sep
            invariant
                start <= j <= n,
                n == cs@.len(),
                piece_len(cs@, start as int, sep) == (j - start) + piece_len(cs@, j as int, sep),
            decreases n - j,
        {
            j += 1;
        }
        out.push((start, j));
        if j < n {
            start = j + 1;
        } else {
            start = n;
            done = true;
        }
    }
    out
}

/// The bounds of the lines of `cs`, in order.
pub fn line_bounds(cs: &Vec<char>) -> (r: Vec<(usize, usize)>)
    ensures
        spans_within(r@, cs@),
        span_texts(r@, cs@) == lines_of(cs@),
{
    let found = piece_bounds(cs, '\n');
    let ghost ps = pieces(cs@, '\n');
    let mut out: Vec<(usize, usize)> = Vec::new();
    let mut k: usize = 0;
    while k < found.len()
        invariant
            k <= found@.len(),
            ps == pieces(cs@, '\n'),
            spans_within(found@, cs@),
            span_texts(found@, cs@) == ps,
            spans_within(out@, cs@),
            out@.len() == k,
            forall|j: int| 0 <= j < k ==> span_text(cs@, #[trigger] out@[j]) == line_at(ps, j),
        decreases found@.len() - k,
    {
        let (a, b) = found[k];
        let end: usize = if k + 1 < found.len() && b > a && cs[b - 1] == '\r' {
            b - 1
        } else {
            b
        };
        proof {
            assert(ps[k as int] == cs@.subrange(a as int, b as int));
        }
        out.push((a, end));
        k += 1;
    }
    out
}

/// The bounds of `cs[a..b]` without the whitespace at its start and end.
pub fn trim_bounds(cs: &Vec<char>, a: usize, b: usize) -> (r: (usize, usize))
    requires
        a <= b <= cs@.len(),
    ensures
        a <= r.0 <= r.1 <= b,
        cs@.subrange(r.0 as int, r.1 as int) == trimmed(cs@.subrange(a as int, b as int)),
{
    let ghost s = cs@.subrange(a as int, b as int);
    let mut i: usize = a;
    while i < b && is_whitespace(cs[i])
        invariant
            a <= i <= b <= cs@.len(),
            s == cs@.subrange(a as int, b as int),
            lead_len(s, 0) == (i - a) + lead_len(s, i - a),
        decreases b - i,
    {
        i += 1;
    }
    let mut j: usize = b;
    while i < j && is_whitespace(cs[j - 1])
        invariant
            a <= i <= j <= b <= cs@.len(),
            s == cs@.subrange(a as int, b as int),
            tail_end(s, i - a, s.len() as int) == tail_end(s, i - a, j - a),
        decreases j - i,
    {
        j -= 1;
    }
    (i, j)
}

} // verus!
