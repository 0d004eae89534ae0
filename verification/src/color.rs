//! Colours: the table of five colours, one per magnitude, and how it is read
//! from a comma-separated list of hex codes.

use crate::format::{Palette, PaletteView};
use crate::package::UpdateType;
use crate::text::{chars_of, piece_bounds, pieces, slice_text, span_text, span_texts, trim_bounds, trimmed};
use vstd::prelude::*;
use vstd::string::StringExecFns;

verus! {

/// A colour: red, green, blue and alpha.
#[derive(Debug, Clone, Copy, PartialEq, Eq, Structural)]
pub struct Color {
    pub r: u8,
    pub g: u8,
    pub b: u8,
    pub a: u8,
}

/// The colour of each magnitude.
#[derive(Debug, Clone, Copy, PartialEq, Eq, Structural)]
pub struct ColorScheme {
    pub major: Color,
    pub minor: Color,
    pub patch: Color,
    pub pre: Color,
    pub other: Color,
}

/// What `hex_color::HexColor::parse` makes of `text`: the red, green, blue
/// and alpha of the colour, or `None` where it reports an error.
pub uninterp spec fn hex_color(text: Seq<char>) -> Option<(u8, u8, u8, u8)>;

/// Calls `hex_color::HexColor::parse` and copies the four fields of the
/// colour it returns, or gives `None` for its error. The contract only names
/// that result.
#[verifier::external_body]
pub(crate) fn parse_hex(text: &str) -> (r: Option<Color>)
    ensures
        match r {
            Some(c) => hex_color(text@) == Some((c.r, c.g, c.b, c.a)),
            None => hex_color(text@) is None,
        },
{
    match hex_color::HexColor::parse(text) {
        Ok(c) => Some(Color { r: c.r, g: c.g, b: c.b, a: c.a }),
        Err(_) => None,
    }
}

/// The upper-case hex digit for a value below 16.
pub open spec fn hex_upper(d: int) -> char {
    if d == 0 {
        '0'
    } else if d == 1 {
        '1'
    } else if d == 2 {
        '2'
    } else if d == 3 {
        '3'
    } else if d == 4 {
        '4'
    } else if d == 5 {
        '5'
    } else if d == 6 {
        '6'
    } else if d == 7 {
        '7'
    } else if d == 8 {
        '8'
    } else if d == 9 {
        '9'
    } else if d == 10 {
        'A'
    } else if d == 11 {
        'B'
    } else if d == 12 {
        'C'
    } else if d == 13 {
        'D'
    } else if d == 14 {
        'E'
    } else {
        'F'
    }
}

/// The colour as a hex code of red, green and blue: `#`, then two upper-case
/// hex digits for each.
pub open spec fn rgb_text(c: Color) -> Seq<char> {
    seq![
        '#',
        hex_upper(c.r as int / 16),
        hex_upper(c.r as int % 16),
        hex_upper(c.g as int / 16),
        hex_upper(c.g as int % 16),
        hex_upper(c.b as int / 16),
        hex_upper(c.b as int % 16),
    ]
}

/// Makes a `hex_color::HexColor` of the four fields and writes out what its
/// `display_rgb` shows: `#` and the red, green and blue as two upper-case
/// hex digits each, without the alpha.
#[verifier::external_body]
pub(crate) fn display_rgb(c: &Color) -> (r: String)
    ensures
        r@ == rgb_text(*c),
{
    hex_color::HexColor::rgba(c.r, c.g, c.b, c.a).display_rgb().to_string()
}

/// The colours used where none are given: red, green, blue, magenta and
/// white, all opaque.
pub open spec fn default_scheme() -> ColorScheme {
    ColorScheme {
        major: Color { r: 255, g: 0, b: 0, a: 255 },
        minor: Color { r: 0, g: 255, b: 0, a: 255 },
        patch: Color { r: 0, g: 0, b: 255, a: 255 },
        pre: Color { r: 255, g: 0, b: 255, a: 255 },
        other: Color { r: 255, g: 255, b: 255, a: 255 },
    }
}

/// `t` with a `#` in front, unless it starts with one.
pub open spec fn with_hash(t: Seq<char>) -> Seq<char> {
    if t.len() > 0 && t[0] == '#' {
        t
    } else {
        "#"@ + t
    }
}

/// The colour that one entry of the list gives: the colour that its trimmed
/// text parses to, with a `#` put in front where it has none; `fallback`
/// where the entry is blank or does not parse.
pub open spec fn entry_color(piece: Seq<char>, fallback: Color) -> Color {
    let t = trimmed(piece);
    if t.len() == 0 {
        fallback
    } else {
        match hex_color(with_hash(t)) {
            Some(c) => Color { r: c.0, g: c.1, b: c.2, a: c.3 },
            None => fallback,
        }
    }
}

/// The scheme that a comma-separated list gives. A list of exactly five
/// entries sets major, minor, patch, pre-release and other in that order,
/// each entry for itself; any other list gives the default scheme.
pub open spec fn scheme_of(s: Seq<char>) -> ColorScheme {
    let ps = pieces(s, ',');
    let d = default_scheme();
    if ps.len() != 5 {
        d
    } else {
        ColorScheme {
            major: entry_color(ps[0], d.major),
            minor: entry_color(ps[1], d.minor),
            patch: entry_color(ps[2], d.patch),
            pre: entry_color(ps[3], d.pre),
            other: entry_color(ps[4], d.other),
        }
    }
}

/// The colour of an entry, given what its text parsed to: that colour, or
/// `fallback` where it did not parse.
pub fn color_or(parsed: Option<Color>, fallback: Color) -> (r: Color)
    ensures
        r == match parsed {
            Some(c) => c,
            None => fallback,
        },
{
    match parsed {
        Some(c) => c,
        None => fallback,
    }
}

/// The colour that the entry `cs[span.0..span.1]` of the list `s` gives.
fn entry_from(s: &str, cs: &Vec<char>, span: (usize, usize), fallback: Color) -> (r: Color)
    requires
        cs@ == s@,
        span.0 <= span.1 <= cs@.len(),
    ensures
        r == entry_color(span_text(cs@, span), fallback),
{
    let (a, b) = trim_bounds(cs, span.0, span.1);
    if a == b {
        return fallback;
    }
    let body = slice_text(s, a, b);
    let code = if cs[a] == '#' {
        body
    } else {
        String::from_str("#").concat(body.as_str())
    };
    color_or(parse_hex(code.as_str()), fallback)
}

impl ColorScheme {
    /// The default scheme.
    pub fn default() -> (r: ColorScheme)
        ensures
            r == default_scheme(),
    {
        ColorScheme {
            major: Color { r: 255, g: 0, b: 0, a: 255 },
            minor: Color { r: 0, g: 255, b: 0, a: 255 },
            patch: Color { r: 0, g: 0, b: 255, a: 255 },
            pre: Color { r: 255, g: 0, b: 255, a: 255 },
            other: Color { r: 255, g: 255, b: 255, a: 255 },
        }
    }

    /// The colour of the magnitude `t`.
    pub open spec fn color_of(&self, t: UpdateType) -> Color {
        match t {
            UpdateType::Major => self.major,
            UpdateType::Minor => self.minor,
            UpdateType::Patch => self.patch,
            UpdateType::Pre => self.pre,
            UpdateType::Other => self.other,
        }
    }

    /// The colour of the magnitude `update_type`.
    pub fn get_color(&self, update_type: &UpdateType) -> (r: &Color)
        ensures
            *r == self.color_of(*update_type),
    {
        match update_type {
            UpdateType::Major => &self.major,
            UpdateType::Minor => &self.minor,
            UpdateType::Patch => &self.patch,
            UpdateType::Pre => &self.pre,
            UpdateType::Other => &self.other,
        }
    }

    /// The scheme that the comma-separated list `colors_str` gives.
    pub fn from_cli(colors_str: &str) -> (r: ColorScheme)
        ensures
            r == scheme_of(colors_str@),
    {
        let scheme = ColorScheme::default();
        let cs = chars_of(colors_str);
        let spans = piece_bounds(&cs, ',');
        if spans.len() != 5 {
            return scheme;
        }
        ColorScheme {
            major: entry_from(colors_str, &cs, spans[0], scheme.major),
            minor: entry_from(colors_str, &cs, spans[1], scheme.minor),
            patch: entry_from(colors_str, &cs, spans[2], scheme.patch),
            pre: entry_from(colors_str, &cs, spans[3], scheme.pre),
            other: entry_from(colors_str, &cs, spans[4], scheme.other),
        }
    }

    /// The hex codes of the five colours.
    pub open spec fn palette_view(&self) -> PaletteView {
        PaletteView {
            major: rgb_text(self.major),
            minor: rgb_text(self.minor),
            patch: rgb_text(self.patch),
            pre: rgb_text(self.pre),
            other: rgb_text(self.other),
        }
    }

    /// The hex codes of the five colours, as they are written into markup.
    pub fn palette(&self) -> (r: Palette)
        ensures
            r@ == self.palette_view(),
    {
        Palette {
            major: display_rgb(&self.major),
            minor: display_rgb(&self.minor),
            patch: display_rgb(&self.patch),
            pre: display_rgb(&self.pre),
            other: display_rgb(&self.other),
        }
    }
}

} // verus!
