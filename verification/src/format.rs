//! The text shown for a set of pending updates: one line per record,
//! optionally aligned in columns and optionally wrapped in a colour span
//! that depends on the magnitude of the update.

use crate::package::{arrow, is_record_line, record_of, records, Package, PackageView, UpdateType};
use vstd::prelude::*;
use vstd::string::StrSliceExecFns;
use vstd::string::StringExecFns;

verus! {

/// The colour text for each magnitude, as it is written into the markup.
#[derive(Debug)]
pub struct Palette {
    pub major: String,
    pub minor: String,
    pub patch: String,
    pub pre: String,
    pub other: String,
}

/// A palette as plain values.
pub struct PaletteView {
    pub major: Seq<char>,
    pub minor: Seq<char>,
    pub patch: Seq<char>,
    pub pre: Seq<char>,
    pub other: Seq<char>,
}

impl PaletteView {
    /// The colour text for the magnitude `t`.
    pub open spec fn pick(self, t: UpdateType) -> Seq<char> {
        match t {
            UpdateType::Major => self.major,
            UpdateType::Minor => self.minor,
            UpdateType::Patch => self.patch,
            UpdateType::Pre => self.pre,
            UpdateType::Other => self.other,
        }
    }
}

impl View for Palette {
    type V = PaletteView;

    open spec fn view(&self) -> PaletteView {
        PaletteView {
            major: self.major@,
            minor: self.minor@,
            patch: self.patch@,
            pre: self.pre@,
            other: self.other@,
        }
    }
}

/// The palette that an optional palette stands for.
pub open spec fn palette_option(palette: Option<Palette>) -> Option<PaletteView> {
    match palette {
        Some(colors) => Some(colors@),
        None => None,
    }
}

impl Palette {
    /// The colour text for the magnitude `t`.
    pub fn text_for(&self, t: UpdateType) -> (r: &str)
        ensures
            r@ == self@.pick(t),
    {
        match t {
            UpdateType::Major => self.major.as_str(),
            UpdateType::Minor => self.minor.as_str(),
            UpdateType::Patch => self.patch.as_str(),
            UpdateType::Pre => self.pre.as_str(),
            UpdateType::Other => self.other.as_str(),
        }
    }
}

/// `n` spaces.
pub open spec fn spaces(n: nat) -> Seq<char> {
    Seq::new(n, |i: int| ' ')
}

/// `s`, filled on the right with spaces up to `width` characters; `s`
/// itself where it is that long already.
pub open spec fn padded(s: Seq<char>, width: nat) -> Seq<char> {
    if s.len() >= width {
        s
    } else {
        s + spaces((width - s.len()) as nat)
    }
}

/// The field of `p` in column `col`: name, old version, arrow, new version.
pub open spec fn field_of(p: PackageView, col: int) -> Seq<char> {
    if col == 0 {
        p.name
    } else if col == 1 {
        p.old_version
    } else if col == 2 {
        arrow()
    } else {
        p.new_version
    }
}

/// The greatest number of characters that a record of `ps` has in column
/// `col`; 0 for no records.
pub open spec fn max_width(ps: Seq<PackageView>, col: int) -> nat
    decreases ps.len(),
{
    if ps.len() == 0 {
        0
    } else {
        let rest = max_width(ps.drop_last(), col);
        let here = field_of(ps.last(), col).len();
        if here > rest {
            here
        } else {
            rest
        }
    }
}

/// The widths of the four columns of `ps`.
pub open spec fn widths_of(ps: Seq<PackageView>) -> Seq<nat> {
    seq![max_width(ps, 0), max_width(ps, 1), max_width(ps, 2), max_width(ps, 3)]
}

/// Four widths as a sequence.
pub open spec fn width_seq(w: [usize; 4]) -> Seq<nat> {
    seq![w[0] as nat, w[1] as nat, w[2] as nat, w[3] as nat]
}

/// The widths that an optional array of four stands for.
pub open spec fn width_option(w: Option<[usize; 4]>) -> Option<Seq<nat>> {
    match w {
        Some(a) => Some(width_seq(a)),
        None => None,
    }
}

/// The line of a record without alignment.
pub open spec fn plain_line(p: PackageView) -> Seq<char> {
    p.name + " "@ + p.old_version + " -> "@ + p.new_version
}

/// The line of a record with each of its four fields filled up to the width
/// of its column, the fields one space apart.
pub open spec fn aligned_line(p: PackageView, w: Seq<nat>) -> Seq<char> {
    padded(p.name, w[0]) + " "@ + padded(p.old_version, w[1]) + " "@ + padded(arrow(), w[2])
        + " "@ + padded(p.new_version, w[3])
}

/// The line of a record, aligned where widths are given.
pub open spec fn record_line(p: PackageView, w: Option<Seq<nat>>) -> Seq<char> {
    match w {
        Some(widths) => aligned_line(p, widths),
        None => plain_line(p),
    }
}

/// `line` inside a span of the colour `color`.
pub open spec fn color_span(color: Seq<char>, line: Seq<char>) -> Seq<char> {
    "<span color='"@ + color + "'>"@ + line + "</span>"@
}

/// The line of a record, aligned first where widths are given, and then
/// wrapped in the colour of its magnitude where a palette is given.
pub open spec fn styled_line(p: PackageView, w: Option<Seq<nat>>, palette: Option<PaletteView>) -> Seq<
    char,
> {
    match palette {
        Some(colors) => color_span(colors.pick(p.update_type), record_line(p, w)),
        None => record_line(p, w),
    }
}

/// The styled lines of `ps`, one record per line, with a line feed between
/// two lines and none at the end.
pub open spec fn joined_lines(ps: Seq<PackageView>, w: Option<Seq<nat>>, palette: Option<PaletteView>) -> Seq<
    char,
>
    decreases ps.len(),
{
    if ps.len() == 0 {
        Seq::empty()
    } else if ps.len() == 1 {
        styled_line(ps[0], w, palette)
    } else {
        joined_lines(ps.drop_last(), w, palette) + "\n"@ + styled_line(ps.last(), w, palette)
    }
}

/// What is shown when nothing is pending.
pub open spec fn up_to_date() -> Seq<char> {
    "System updated"@
}

/// The detail text for `ps`: the fixed sentence for no records; else the
/// joined lines, aligned to the columns of `ps` on request, inside a span
/// that sets the font.
pub open spec fn detail_text(
    ps: Seq<PackageView>,
    align: bool,
    palette: Option<PaletteView>,
    font: Seq<char>,
) -> Seq<char> {
    if ps.len() == 0 {
        up_to_date()
    } else {
        let w = if align {
            Some(widths_of(ps))
        } else {
            None
        };
        "<span font-family='"@ + font + "'>"@ + joined_lines(ps, w, palette) + "</span>"@
    }
}

/// What one line of input is turned into: an update line becomes the line of
/// its record, padded where widths are given, inside a span of the colour
/// code that belongs to its magnitude; any other text stays as it is.
pub open spec fn highlighted(input: Seq<char>, colors: [&str; 5], padding: Option<[usize; 4]>) -> Seq<
    char,
> {
    if is_record_line(input) {
        let p = record_of(input);
        color_span("#"@ + colors[p.update_type.rank()]@, record_line(p, width_option(padding)))
    } else {
        input
    }
}

/// Every record's field is at most as wide as its column, and for a
/// non-empty set some record's field is exactly that wide.
pub proof fn lemma_width_is_maximum(ps: Seq<PackageView>, col: int)
    ensures
        forall|i: int| 0 <= i < ps.len() ==> field_of(#[trigger] ps[i], col).len() <= max_width(ps, col),
        ps.len() > 0 ==> exists|i: int|
            0 <= i < ps.len() && field_of(#[trigger] ps[i], col).len() == max_width(ps, col),
    decreases ps.len(),
{
    if ps.len() > 0 {
        let front = ps.drop_last();
        lemma_width_is_maximum(front, col);
        assert forall|i: int| 0 <= i < ps.len() implies field_of(#[trigger] ps[i], col).len()
            <= max_width(ps, col) by {
            if i < ps.len() - 1 {
                assert(front[i] == ps[i]);
            }
        }
        if field_of(ps.last(), col).len() > max_width(front, col) || front.len() == 0 {
            assert(field_of(ps[ps.len() - 1], col).len() == max_width(ps, col));
        } else {
            let i = choose|i: int|
                0 <= i < front.len() && field_of(#[trigger] front[i], col).len() == max_width(
                    front,
                    col,
                );
            assert(front[i] == ps[i]);
            assert(field_of(ps[i], col).len() == max_width(ps, col));
        }
    }
}

/// A padded field is as long as the longer of the field and the width.
pub proof fn lemma_padded_len(s: Seq<char>, width: nat)
    ensures
        padded(s, width).len() == if s.len() >= width {
            s.len()
        } else {
            width
        },
{
}

/// Filled up to the width of its column, every record's field is exactly as
/// wide as the column.
pub proof fn lemma_column_is_filled(ps: Seq<PackageView>, i: int, col: int)
    requires
        0 <= i < ps.len(),
    ensures
        padded(field_of(ps[i], col), max_width(ps, col)).len() == max_width(ps, col),
{
    lemma_width_is_maximum(ps, col);
}

/// Aligned to the columns of the set it belongs to, every record's line has
/// the same length: the four column widths and three spaces between them.
pub proof fn lemma_aligned_lines_have_equal_length(ps: Seq<PackageView>, i: int)
    requires
        0 <= i < ps.len(),
    ensures
        aligned_line(ps[i], widths_of(ps)).len() == max_width(ps, 0) + max_width(ps, 1) + max_width(
            ps,
            2,
        ) + max_width(ps, 3) + 3,
{
    reveal_strlit(" ");
    lemma_width_is_maximum(ps, 0);
    lemma_width_is_maximum(ps, 1);
    lemma_width_is_maximum(ps, 2);
    lemma_width_is_maximum(ps, 3);
    let p = ps[i];
    assert(field_of(p, 0) == p.name);
    assert(field_of(p, 1) == p.old_version);
    assert(field_of(p, 2) == arrow());
    assert(field_of(p, 3) == p.new_version);
}

/// Appends `s` to `out`, filled on the right with spaces up to `width`
/// characters.
pub fn pad_to(out: &mut String, s: &str, width: usize)
    ensures
        final(out)@ == old(out)@ + padded(s@, width as nat),
{
    out.append(s);
    let len: usize = s.unicode_len();
    let mut k: usize = len;
    while k < width
        invariant
            len == s@.len(),
            len <= k,
            k <= width || k == len,
            out@ == old(out)@ + s@ + spaces((k - len) as nat),
        decreases width - k,
    {
        proof {
            reveal_strlit(" ");
        }
        out.append(" ");
        k += 1;
    }
}

/// The widths of the four columns of `ps`.
pub fn column_widths(ps: &Vec<Package>) -> (r: [usize; 4])
    ensures
        width_seq(r) == widths_of(records(ps@)),
{
    let mut w0: usize = 0;
    let mut w1: usize = 0;
    let mut w2: usize = 0;
    let mut w3: usize = 0;
    let mut i: usize = 0;
    while i < ps.len()
        invariant
            i <= ps@.len(),
            w0 == max_width(records(ps@).take(i as int), 0),
            w1 == max_width(records(ps@).take(i as int), 1),
            w2 == max_width(records(ps@).take(i as int), 2),
            w3 == max_width(records(ps@).take(i as int), 3),
        decreases ps@.len() - i,
    {
        let p = &ps[i];
        proof {
            let next = records(ps@).take(i + 1);
            assert(next.drop_last() =~= records(ps@).take(i as int));
        }
        let n0: usize = p.name.as_str().unicode_len();
        let n1: usize = p.old_version.as_str().unicode_len();
        let n3: usize = p.new_version.as_str().unicode_len();
        if n0 > w0 {
            w0 = n0;
        }
        if n1 > w1 {
            w1 = n1;
        }
        if 2 > w2 {
            w2 = 2;
        }
        if n3 > w3 {
            w3 = n3;
        }
        i += 1;
    }
    proof {
        assert(records(ps@).take(ps@.len() as int) =~= records(ps@));
    }
    let r: [usize; 4] = [w0, w1, w2, w3];
    r
}

/// The line of `p`, aligned where widths are given.
pub fn render_line(p: &Package, widths: Option<[usize; 4]>) -> (r: String)
    ensures
        r@ == record_line(p@, width_option(widths)),
{
    let mut line = String::new();
    match widths {
        Some(w) => {
            pad_to(&mut line, p.name.as_str(), w[0]);
            line.append(" ");
            pad_to(&mut line, p.old_version.as_str(), w[1]);
            line.append(" ");
            proof {
                reveal_strlit("->");
            }
            pad_to(&mut line, "->", w[2]);
            line.append(" ");
            pad_to(&mut line, p.new_version.as_str(), w[3]);
        },
        None => {
            line.append(p.name.as_str());
            line.append(" ");
            line.append(p.old_version.as_str());
            line.append(" -> ");
            line.append(p.new_version.as_str());
        },
    }
    line
}

/// `line` inside a span of the colour `color`.
pub fn wrap_in_color(color: &str, line: &str) -> (r: String)
    ensures
        r@ == color_span(color@, line@),
{
    let mut out = String::from_str("<span color='");
    out.append(color);
    out.append("'>");
    out.append(line);
    out.append("</span>");
    out
}

/// The line of `p`, aligned where widths are given and coloured by its
/// magnitude where a palette is given.
pub fn style_line(p: &Package, widths: Option<[usize; 4]>, palette: &Option<Palette>) -> (r: String)
    ensures
        r@ == styled_line(p@, width_option(widths), palette_option(*palette)),
{
    let line = render_line(p, widths);
    match palette {
        Some(colors) => wrap_in_color(colors.text_for(p.update_type), line.as_str()),
        None => line,
    }
}

/// The styled lines of `ps`, joined by line feeds.
pub fn render_lines(ps: &Vec<Package>, widths: Option<[usize; 4]>, palette: &Option<Palette>) -> (r:
    String)
    ensures
        r@ == joined_lines(records(ps@), width_option(widths), palette_option(*palette)),
{
    let mut out = String::new();
    let mut i: usize = 0;
    while i < ps.len()
        invariant
            i <= ps@.len(),
            out@ == joined_lines(records(ps@).take(i as int), width_option(widths), palette_option(*palette)),
        decreases ps@.len() - i,
    {
        let line = style_line(&ps[i], widths, palette);
        proof {
            let next = records(ps@).take(i + 1);
            assert(next.drop_last() =~= records(ps@).take(i as int));
        }
        if i > 0 {
            out.append("\n");
        }
        out.append(line.as_str());
        i += 1;
    }
    proof {
        assert(records(ps@).take(ps@.len() as int) =~= records(ps@));
    }
    out
}

/// The detail text for `ps`.
pub fn render_detail(ps: &Vec<Package>, align: bool, palette: &Option<Palette>, font: &str) -> (r:
    String)
    ensures
        r@ == detail_text(records(ps@), align, palette_option(*palette), font@),
{
    if ps.len() == 0 {
        return String::from_str("System updated");
    }
    let widths = if align {
        Some(column_widths(ps))
    } else {
        None
    };
    let lines = render_lines(ps, widths, palette);
    let mut out = String::from_str("<span font-family='");
    out.append(font);
    out.append("'>");
    out.append(lines.as_str());
    out.append("</span>");
    out
}

/// Marks one update line up by the magnitude of its update: the line comes
/// back inside a span of the colour that `colors` holds for that magnitude
/// (major, minor, patch, pre-release, other), its fields padded to
/// `padding` where that is given. Text that is no update line comes back
/// unchanged.
pub fn highlight_semantic_version(input: String, colors: [&str; 5], padding: Option<[usize; 4]>) -> (r:
    String)
    ensures
        r@ == highlighted(input@, colors, padding),
{
    match Package::parse(input.as_str()) {
        Some(p) => {
            let line = render_line(&p, padding);
            let code: &str = colors[p.update_type.index()];
            let mut color = String::from_str("#");
            color.append(code);
            wrap_in_color(color.as_str(), line.as_str())
        },
        None => input,
    }
}

} // verus!
