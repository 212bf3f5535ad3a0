use hue_sweep::hsl::{Hsl, Palette};
use hue_sweep::text::{colorize, hsl_expression, replace_token};

fn bytes(s: &str) -> Vec<u8> {
    s.as_bytes().to_vec()
}

fn string(v: Vec<u8>) -> String {
    String::from_utf8(v).unwrap()
}

fn palette(p: (u16, u8, u8), s: (u16, u8, u8), a: (u16, u8, u8)) -> Palette {
    Palette {
        primary: Hsl::new(p.0, p.1, p.2),
        secondary: Hsl::new(s.0, s.1, s.2),
        accent: Hsl::new(a.0, a.1, a.2),
    }
}

#[test]
fn hsl_expression_is_exact() {
    assert_eq!(string(hsl_expression(&Hsl::new(305, 100, 50))), "hsl(305,100%,50%)");
    assert_eq!(string(hsl_expression(&Hsl::new(0, 0, 0))), "hsl(0,0%,0%)");
    assert_eq!(string(hsl_expression(&Hsl::new(34, 7, 100))), "hsl(34,7%,100%)");
}

#[test]
fn colorize_without_tokens_is_identity() {
    let colors = palette((305, 100, 50), (337, 100, 49), (34, 100, 50));
    let text = bytes("<svg><rect fill='#ff00ea'/>no placeholders here</svg>");
    assert_eq!(colorize(&text, &colors), text);
}

#[test]
fn colorize_of_empty_text_is_empty() {
    let colors = palette((305, 100, 50), (337, 100, 49), (34, 100, 50));
    assert_eq!(colorize(&bytes(""), &colors), bytes(""));
}

#[test]
fn colorize_replaces_repeated_token_twice() {
    let colors = palette((305, 100, 50), (337, 100, 49), (34, 100, 50));
    let text = bytes("a COLOR_1 b COLOR_1 c");
    let out = string(colorize(&text, &colors));
    assert_eq!(out, "a hsl(305,100%,50%) b hsl(305,100%,50%) c");
}

#[test]
fn colorize_replaces_all_three_tokens() {
    let colors = palette((1, 2, 3), (4, 5, 6), (7, 8, 9));
    let text = bytes("COLOR_1|COLOR_2|COLOR_3");
    let out = string(colorize(&text, &colors));
    assert_eq!(out, "hsl(1,2%,3%)|hsl(4,5%,6%)|hsl(7,8%,9%)");
}

#[test]
fn colorize_two_line_template_frame_zero() {
    let colors = palette((305, 100, 50), (337, 100, 49), (34, 100, 50));
    let text = bytes("<rect fill='COLOR_1'/><rect fill='COLOR_2'/>");
    let out = string(colorize(&text, &colors));
    assert_eq!(out, "<rect fill='hsl(305,100%,50%)'/><rect fill='hsl(337,100%,49%)'/>");
}

#[test]
fn replace_token_at_start_and_end() {
    let from = bytes("ab");
    let to = bytes("XYZ");
    assert_eq!(string(replace_token(&bytes("ab--ab"), &from, &to)), "XYZ--XYZ");
    assert_eq!(string(replace_token(&bytes("ab"), &from, &to)), "XYZ");
}

#[test]
fn replace_token_scans_left_to_right_without_rescanning() {
    // Overlapping candidates: the leftmost match wins, scanning resumes after it.
    let out = replace_token(&bytes("aaa"), &bytes("aa"), &bytes("b"));
    assert_eq!(string(out), "ba");
    // Output is never re-examined even when it recreates the pattern's letters.
    let out2 = replace_token(&bytes("abab"), &bytes("ab"), &bytes("a"));
    assert_eq!(string(out2), "aa");
}

#[test]
fn replace_token_leaves_partial_token_alone() {
    let colors = palette((305, 100, 50), (337, 100, 49), (34, 100, 50));
    let text = bytes("COLOR_ COLOR COLOR_4");
    assert_eq!(colorize(&text, &colors), text);
}
