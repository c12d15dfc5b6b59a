use cube_state::face::Face;
use cube_state::facelet::Facelet;
use cube_state::palette::{Color, Palette};
use cube_state::text::{chars_to_string, count_tokens, dec_string, trim_str};

const SOLVED: &str = "UUUUUUUUURRRRRRRRRFFFFFFFFFDDDDDDDDDLLLLLLLLLBBBBBBBBB";

#[test]
fn face_char_roundtrip() {
    let faces = [Face::U, Face::R, Face::F, Face::D, Face::L, Face::B];
    for f in faces {
        assert_eq!(Face::from_char(f.to_char()), Some(f));
    }
}

#[test]
fn face_index_roundtrip() {
    for i in 0..6u8 {
        assert_eq!(Face::from_index(i).to_index(), i);
    }
}

#[test]
fn face_from_char_rejects_unknown() {
    assert_eq!(Face::from_char('X'), None);
    assert_eq!(Face::from_char('u'), None);
    assert_eq!(Face::from_char(' '), None);
}

#[test]
fn face_codes_are_canonical() {
    assert_eq!(Face::U.to_char(), 'U');
    assert_eq!(Face::R.to_char(), 'R');
    assert_eq!(Face::F.to_char(), 'F');
    assert_eq!(Face::D.to_char(), 'D');
    assert_eq!(Face::L.to_char(), 'L');
    assert_eq!(Face::B.to_char(), 'B');
}

#[test]
fn solved_canonical_form() {
    let f = Facelet::new_solved();
    for i in 0..54usize {
        assert_eq!(f.get(i).to_index() as usize, i / 9);
    }
    assert_eq!(f.to_facelet_string(), SOLVED);
}

#[test]
fn encode_decode_round_trip() {
    let mut f = Facelet::new_solved();
    f.paint(0, Face::B);
    f.paint(27, Face::U);
    f.paint(53, Face::F);
    let text = f.to_facelet_string();
    let mut g = Facelet::new_solved();
    g.apply_from_str(&text);
    assert_eq!(g.to_facelet_string(), text);
}

#[test]
fn decode_valid_text_round_trip() {
    let text = "UDUDUDUDURLRLRLRLRFBFBFBFBFDUDUDUDUDLRLRLRLRLBFBFBFBFB";
    let mut f = Facelet::new_solved();
    f.apply_from_str(text);
    assert_eq!(f.to_facelet_string(), text);
}

#[test]
fn short_input_is_noop() {
    let mut f = Facelet::new_solved();
    f.paint(3, Face::L);
    let before = f.to_facelet_string();
    f.apply_from_str("UUUU");
    assert_eq!(f.to_facelet_string(), before);
    let fifty_three = &SOLVED[..53];
    f.apply_from_str(fifty_three);
    assert_eq!(f.to_facelet_string(), before);
}

#[test]
fn fallback_coercion_on_unknown_character() {
    let mut text = String::from(SOLVED);
    text.replace_range(5..6, "X");
    let mut f = Facelet::new_solved();
    f.apply_from_str(&text);
    assert_eq!(f.get(5), Face::B);
    for i in 0..54usize {
        if i != 5 {
            assert_eq!(f.get(i).to_index() as usize, i / 9);
        }
    }
}

#[test]
fn decode_consults_only_first_54_characters() {
    let mut text = String::from(SOLVED);
    text.push_str("XXXXXX");
    let mut f = Facelet::new_solved();
    f.paint(0, Face::D);
    f.apply_from_str(&text);
    assert_eq!(f.to_facelet_string(), SOLVED);
}

#[test]
fn paint_sets_single_slot() {
    let mut f = Facelet::new_solved();
    f.paint(10, Face::B);
    assert_eq!(f.get(10), Face::B);
    assert_eq!(f.get(9), Face::R);
    assert_eq!(f.get(11), Face::R);
}

#[test]
fn trim_removes_edge_whitespace() {
    assert_eq!(trim_str("  R U2 \t\n"), "R U2");
    assert_eq!(trim_str(""), "");
    assert_eq!(trim_str("   \t "), "");
    assert_eq!(trim_str("abc"), "abc");
}

#[test]
fn token_count_over_whitespace() {
    assert_eq!(count_tokens(""), 0);
    assert_eq!(count_tokens("   "), 0);
    assert_eq!(count_tokens("R"), 1);
    assert_eq!(count_tokens("R U R'"), 3);
    assert_eq!(count_tokens("R U R' "), 3);
    assert_eq!(count_tokens("  R2   U  "), 2);
}

#[test]
fn decimal_rendering() {
    assert_eq!(dec_string(0), "0");
    assert_eq!(dec_string(7), "7");
    assert_eq!(dec_string(10), "10");
    assert_eq!(dec_string(12345), "12345");
    assert_eq!(dec_string(u64::MAX), "18446744073709551615");
}

#[test]
fn chars_to_string_keeps_order() {
    let v = vec!['c', 'u', 'b', 'e'];
    assert_eq!(chars_to_string(&v), "cube");
}

#[test]
fn palette_defaults_and_selection() {
    let mut p = Palette::new();
    assert_eq!(p.selected(), 0);
    assert_eq!(p.color_of(Face::U), Color { r: 255, g: 255, b: 255 });
    assert_eq!(p.color_of(Face::R), Color { r: 220, g: 0, b: 0 });
    assert_eq!(p.color_of(Face::F), Color { r: 0, g: 160, b: 0 });
    assert_eq!(p.color_of(Face::D), Color { r: 230, g: 200, b: 0 });
    assert_eq!(p.color_of(Face::L), Color { r: 255, g: 120, b: 0 });
    assert_eq!(p.color_of(Face::B), Color { r: 0, g: 90, b: 200 });
    p.select(4);
    assert_eq!(p.selected(), 4);
    assert_eq!(p.selected_face(), Face::L);
}
