use waybar_module_pacman_updates::format::{
    column_widths, highlight_semantic_version, pad_to, render_detail, render_line, render_lines, style_line,
    wrap_in_color, Palette,
};
use waybar_module_pacman_updates::package::{Package, UpdateType};
use waybar_module_pacman_updates::text::{chars_of, field_bounds, is_whitespace, piece_bounds, slice_text, trim_bounds};

const COLORS: [&str; 5] = ["ff0000", "00ff00", "0000ff", "ff00ff", "ffffff"];

fn chars(s: &str) -> Vec<char> {
    s.chars().collect()
}

fn pkg(line: &str) -> Package {
    Package::parse(line).unwrap()
}

fn two() -> Vec<Package> {
    vec![pkg("a 1.0 -> 1.1"), pkg("bbb 1.0.0 -> 2.0.0")]
}

fn palette() -> Palette {
    Palette {
        major: "red".to_string(),
        minor: "green".to_string(),
        patch: "blue".to_string(),
        pre: "pink".to_string(),
        other: "white".to_string(),
    }
}

#[test]
fn whitespace_is_unicode_white_space() {
    for c in [' ', '\t', '\n', '\u{b}', '\u{c}', '\r', '\u{85}', '\u{a0}', '\u{1680}', '\u{2000}', '\u{200a}', '\u{2028}', '\u{2029}', '\u{202f}', '\u{205f}', '\u{3000}'] {
        assert!(is_whitespace(c), "{:?}", c);
    }
    for c in ['a', '0', '-', '>', '\u{8}', '\u{e}', '\u{200b}', '\u{feff}', '\u{1f}'] {
        assert!(!is_whitespace(c), "{:?}", c);
    }
    for n in 0..0x3100u32 {
        if let Some(c) = char::from_u32(n) {
            assert_eq!(is_whitespace(c), c.is_whitespace(), "{:?}", c);
        }
    }
}

#[test]
fn characters_and_slices() {
    assert_eq!(chars_of("héllo"), vec!['h', 'é', 'l', 'l', 'o']);
    assert_eq!(chars_of(""), Vec::<char>::new());
    assert_eq!(slice_text("héllo wörld", 1, 5), "éllo");
    assert_eq!(slice_text("abc", 3, 3), "");
}

#[test]
fn fields_are_runs_without_whitespace() {
    assert_eq!(field_bounds(&chars("  ab  c ")), vec![(2, 4), (6, 7)]);
    assert_eq!(field_bounds(&chars("")), vec![]);
    assert_eq!(field_bounds(&chars(" \t ")), vec![]);
    assert_eq!(field_bounds(&chars("abc")), vec![(0, 3)]);
    assert_eq!(field_bounds(&chars("a b")), vec![(0, 1), (2, 3)]);
}

#[test]
fn pieces_are_one_more_than_separators() {
    assert_eq!(piece_bounds(&chars("a,,b"), ','), vec![(0, 1), (2, 2), (3, 4)]);
    assert_eq!(piece_bounds(&chars(""), ','), vec![(0, 0)]);
    assert_eq!(piece_bounds(&chars(","), ','), vec![(0, 0), (1, 1)]);
    assert_eq!(piece_bounds(&chars("abc"), ','), vec![(0, 3)]);
    assert_eq!(piece_bounds(&chars("ab\n"), '\n'), vec![(0, 2), (3, 3)]);
}

#[test]
fn trimming_strips_both_ends() {
    let cs = chars("x,  ab c \t,y");
    assert_eq!(trim_bounds(&cs, 2, 10), (4, 8));
    assert_eq!(trim_bounds(&cs, 0, 1), (0, 1));
    assert_eq!(trim_bounds(&cs, 2, 4), (4, 4));
    assert_eq!(trim_bounds(&cs, 5, 5), (5, 5));
}

#[test]
fn padding_fills_on_the_right() {
    let mut s = String::from("[");
    pad_to(&mut s, "ab", 5);
    assert_eq!(s, "[ab   ");
    pad_to(&mut s, "cdef", 2);
    assert_eq!(s, "[ab   cdef");
    pad_to(&mut s, "", 0);
    assert_eq!(s, "[ab   cdef");
    pad_to(&mut s, "é", 2);
    assert_eq!(s, "[ab   cdefé ");
}

#[test]
fn column_width_is_the_widest_field() {
    assert_eq!(column_widths(&two()), [3, 5, 2, 5]);
    assert_eq!(column_widths(&Vec::new()), [0, 0, 0, 0]);
    assert_eq!(column_widths(&vec![pkg("héé ö -> ü")]), [3, 1, 2, 1]);
}

#[test]
fn line_shapes() {
    let p = pkg("a 1.0 -> 1.1");
    assert_eq!(render_line(&p, None), "a 1.0 -> 1.1");
    assert_eq!(render_line(&p, Some([3, 5, 2, 5])), "a   1.0   -> 1.1  ");
    assert_eq!(render_line(&p, Some([0, 0, 0, 0])), "a 1.0 -> 1.1");
    assert_eq!(render_line(&p, Some([2, 3, 4, 5])), "a  1.0 ->   1.1  ");
    let q = pkg("foo   1 \t-> 2");
    assert_eq!(render_line(&q, None), "foo 1 -> 2");
}

#[test]
fn alignment_uses_the_widest_field_of_each_column() {
    let ps = two();
    let w = column_widths(&ps);
    let first = render_line(&ps[0], Some(w));
    let second = render_line(&ps[1], Some(w));
    assert_eq!(first, "a   1.0   -> 1.1  ");
    assert_eq!(second, "bbb 1.0.0 -> 2.0.0");
    assert_eq!(first.len(), second.len());
    assert_eq!(first.len(), 3 + 5 + 2 + 5 + 3);
    let once = render_lines(&ps, Some(w), &None);
    let twice = render_lines(&ps, Some(w), &None);
    assert_eq!(once, twice);
    assert_eq!(once, "a   1.0   -> 1.1  \nbbb 1.0.0 -> 2.0.0");
}

#[test]
fn colour_span_wraps_the_line() {
    assert_eq!(wrap_in_color("#123456", "text"), "<span color='#123456'>text</span>");
    assert_eq!(wrap_in_color("", ""), "<span color=''></span>");
}

#[test]
fn colour_goes_by_magnitude() {
    let colors = Some(palette());
    assert_eq!(style_line(&pkg("p 1.0.0 -> 2.0.0"), None, &colors), "<span color='red'>p 1.0.0 -> 2.0.0</span>");
    assert_eq!(style_line(&pkg("p 1.0.0 -> 1.1.0"), None, &colors), "<span color='green'>p 1.0.0 -> 1.1.0</span>");
    assert_eq!(style_line(&pkg("p 1.0.0 -> 1.0.1"), None, &colors), "<span color='blue'>p 1.0.0 -> 1.0.1</span>");
    assert_eq!(style_line(&pkg("p 1.0.0-a -> 1.0.0-b"), None, &colors), "<span color='pink'>p 1.0.0-a -> 1.0.0-b</span>");
    assert_eq!(style_line(&pkg("p x -> y"), None, &colors), "<span color='white'>p x -> y</span>");
    assert_eq!(style_line(&pkg("p x -> y"), None, &None), "p x -> y");
    assert_eq!(palette().text_for(UpdateType::Pre), "pink");
}

#[test]
fn padding_comes_before_colour() {
    let colors = Some(palette());
    assert_eq!(
        style_line(&pkg("p 1 -> 2"), Some([3, 3, 3, 3]), &colors),
        "<span color='red'>p   1   ->  2  </span>"
    );
}

#[test]
fn lines_are_joined_by_line_feeds() {
    assert_eq!(render_lines(&Vec::new(), None, &None), "");
    assert_eq!(render_lines(&vec![pkg("a 1 -> 2")], None, &None), "a 1 -> 2");
    assert_eq!(render_lines(&two(), None, &None), "a 1.0 -> 1.1\nbbb 1.0.0 -> 2.0.0");
    assert_eq!(
        render_lines(&two(), None, &Some(palette())),
        "<span color='green'>a 1.0 -> 1.1</span>\n<span color='red'>bbb 1.0.0 -> 2.0.0</span>"
    );
}

#[test]
fn detail_of_no_records_is_the_fixed_sentence() {
    assert_eq!(render_detail(&Vec::new(), false, &None, "monospace"), "System updated");
    assert_eq!(render_detail(&Vec::new(), true, &Some(palette()), "serif"), "System updated");
}

#[test]
fn detail_sets_the_font() {
    assert_eq!(
        render_detail(&two(), false, &None, "monospace"),
        "<span font-family='monospace'>a 1.0 -> 1.1\nbbb 1.0.0 -> 2.0.0</span>"
    );
    assert_eq!(
        render_detail(&two(), true, &None, "Fira Code"),
        "<span font-family='Fira Code'>a   1.0   -> 1.1  \nbbb 1.0.0 -> 2.0.0</span>"
    );
    assert_eq!(
        render_detail(&two(), true, &Some(palette()), "m"),
        "<span font-family='m'><span color='green'>a   1.0   -> 1.1  </span>\n<span color='red'>bbb 1.0.0 -> 2.0.0</span></span>"
    );
}

#[test]
fn update_line_is_marked_up() {
    let out = highlight_semantic_version("foo 1.2.3 -> 1.3.0".to_string(), COLORS, None);
    assert_eq!(out, "<span color='#00ff00'>foo 1.2.3 -> 1.3.0</span>");
    assert!(out.contains("foo 1.2.3 -> 1.3.0"));
    let out = highlight_semantic_version("foo 1.2.3-rc1 -> 1.2.3".to_string(), COLORS, None);
    assert_eq!(out, "<span color='#ff00ff'>foo 1.2.3-rc1 -> 1.2.3</span>");
    let out = highlight_semantic_version("foo abc -> abd".to_string(), COLORS, None);
    assert_eq!(out, "<span color='#ffffff'>foo abc -> abd</span>");
}

#[test]
fn other_text_is_left_alone() {
    assert_eq!(highlight_semantic_version("garbage line".to_string(), COLORS, None), "garbage line");
    assert_eq!(highlight_semantic_version("garbage line".to_string(), COLORS, Some([9, 9, 9, 9])), "garbage line");
    assert_eq!(highlight_semantic_version(String::new(), COLORS, None), "");
    assert_eq!(highlight_semantic_version(" foo 1 -> 2".to_string(), COLORS, None), " foo 1 -> 2");
}

#[test]
fn marked_up_line_is_padded_first() {
    let out = highlight_semantic_version("pkg 1.0.0 -> 1.1.0".to_string(), COLORS, Some([10, 10, 10, 10]));
    assert_eq!(out, "<span color='#00ff00'>pkg        1.0.0      ->         1.1.0     </span>");
}
