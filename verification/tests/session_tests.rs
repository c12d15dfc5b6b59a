use cube_state::face::Face;
use cube_state::session::Session;

const SOLVED: &str = "UUUUUUUUURRRRRRRRRFFFFFFFFFDDDDDDDDDLLLLLLLLLBBBBBBBBB";
const MIXED: &str = "UDUDUDUDURLRLRLRLRFBFBFBFBFDUDUDUDUDLRLRLRLRLBFBFBFBFB";

#[test]
fn initial_state_is_solved() {
    let s = Session::new();
    assert_eq!(s.facelet_text(), SOLVED);
    assert_eq!(s.moves_text(), "");
    assert_eq!(s.log_len(), 0);
    assert_eq!(s.max_depth(), 21);
    assert_eq!(s.selected_color(), 0);
    assert_eq!(s.facelets().to_facelet_string(), SOLVED);
}

#[test]
fn solve_on_solved_cube_reports_zero_moves() {
    let mut s = Session::new();
    s.solve_action();
    assert_eq!(s.moves_text(), "");
    assert_eq!(s.log_len(), 2);
    assert_eq!(s.log_entry(0), " (0f)");
    assert_eq!(s.log_entry(1), &format!("Cube: {}", SOLVED));
}

#[test]
fn empty_apply_is_noop() {
    let mut s = Session::new();
    s.set_moves_text(String::new());
    s.apply_moves_action();
    assert_eq!(s.log_len(), 0);
    assert_eq!(s.facelet_text(), SOLVED);
    let mut s2 = Session::new();
    s2.set_moves_text(String::from("   \t "));
    s2.apply_moves_action();
    assert_eq!(s2.log_len(), 0);
    assert_eq!(s2.facelet_text(), SOLVED);
    assert_eq!(s2.moves_text(), "   \t ");
}

#[test]
fn inapplicable_moves_are_a_noop() {
    let mut s = Session::new();
    s.set_moves_text(String::from("Q"));
    s.apply_moves_action();
    assert_eq!(s.log_len(), 0);
    assert_eq!(s.facelet_text(), SOLVED);
    assert_eq!(s.moves_text(), "Q");
    assert_eq!(s.facelets().to_facelet_string(), SOLVED);
}

#[test]
fn reset_restores_solved_and_clears_moves() {
    let mut s = Session::new();
    s.select_color(3);
    s.paint(0);
    s.paint(53);
    s.select_color(1);
    s.paint(27);
    s.set_moves_text(String::from("R U R'"));
    s.reset_action();
    assert_eq!(s.facelets().to_facelet_string(), SOLVED);
    assert_eq!(s.facelet_text(), SOLVED);
    assert_eq!(s.moves_text(), "");
    assert_eq!(s.log_entry(0), "Reset");
}

#[test]
fn paint_uses_selected_color() {
    let mut s = Session::new();
    s.select_color(1);
    s.paint(0);
    assert_eq!(s.facelets().get(0), Face::R);
    assert_eq!(s.facelets().get(1), Face::U);
}

#[test]
fn random_cube_fills_state_and_clears_moves() {
    let mut s = Session::new();
    s.set_moves_text(String::from("R U"));
    s.random_cube_action();
    let text = s.facelet_text().clone();
    assert_eq!(text.len(), 54);
    assert!(text.chars().all(|c| "URFDLB".contains(c)));
    assert_eq!(s.facelets().to_facelet_string(), text);
    assert_eq!(s.moves_text(), "");
    assert_eq!(s.log_len(), 1);
    assert_eq!(s.log_entry(0), &text);
}

#[test]
fn scramble_perturbs_state_and_logs() {
    let mut s = Session::new();
    s.scramble_action();
    assert_eq!(s.log_len(), 1);
    assert!(s.log_entry(0).starts_with("Scramble: "));
    assert!(!s.moves_text().is_empty());
    assert_eq!(s.facelet_text().len(), 54);
    assert_eq!(&s.facelets().to_facelet_string(), s.facelet_text());
}

#[test]
fn solve_then_apply_returns_to_solved() {
    let mut s = Session::new();
    s.random_cube_action();
    s.solve_action();
    s.apply_moves_action();
    assert_eq!(s.facelets().to_facelet_string(), SOLVED);
    assert_eq!(s.facelet_text(), SOLVED);
}

#[test]
fn facelet_text_mirror_wins_when_long_enough() {
    let mut s = Session::new();
    s.set_facelet_text(format!("  {}  ", MIXED));
    s.solve_action();
    assert_eq!(s.log_entry(1), &format!("Cube: {}", MIXED));
    assert!(!s.moves_text().is_empty());
    s.apply_moves_action();
    assert_eq!(s.facelets().to_facelet_string(), SOLVED);
}

#[test]
fn short_facelet_text_falls_back_to_grid() {
    let mut s = Session::new();
    s.select_color(5);
    s.paint(4);
    s.set_facelet_text(String::from("UU"));
    s.solve_action();
    let painted = {
        let mut t = String::from(SOLVED);
        t.replace_range(4..5, "B");
        t
    };
    assert_eq!(s.log_entry(1), &format!("Cube: {}", painted));
}

#[test]
fn scramble_on_invalid_state_is_noop() {
    let mut s = Session::new();
    s.select_color(1);
    s.paint(0);
    let before = s.facelets().to_facelet_string();
    s.scramble_action();
    assert_eq!(s.log_len(), 0);
    assert_eq!(s.facelets().to_facelet_string(), before);
    assert_eq!(s.moves_text(), "");
}

#[test]
fn apply_inverse_pair_returns_to_start() {
    let mut s = Session::new();
    s.set_moves_text(String::from("U U'"));
    s.apply_moves_action();
    assert_eq!(s.facelets().to_facelet_string(), SOLVED);
    assert_eq!(s.log_entry(0), "Apply: U U'");
    assert_eq!(s.moves_text(), "U U'");
}

#[test]
fn apply_single_move_perturbs_then_inverse_restores() {
    let mut s = Session::new();
    s.set_moves_text(String::from("R"));
    s.apply_moves_action();
    assert_ne!(s.facelets().to_facelet_string(), SOLVED);
    assert_eq!(s.facelet_text().len(), 54);
    s.set_moves_text(String::from("R'"));
    s.apply_moves_action();
    assert_eq!(s.facelets().to_facelet_string(), SOLVED);
    assert_eq!(s.log_len(), 2);
}

#[test]
fn set_max_depth_is_kept() {
    let mut s = Session::new();
    s.set_max_depth(24);
    assert_eq!(s.max_depth(), 24);
    s.set_max_depth(1);
    assert_eq!(s.max_depth(), 1);
}

#[test]
fn log_is_newest_first() {
    let mut s = Session::new();
    s.reset_action();
    s.solve_action();
    assert_eq!(s.log_len(), 3);
    assert_eq!(s.log_entry(0), " (0f)");
    assert_eq!(s.log_entry(1), &format!("Cube: {}", SOLVED));
    assert_eq!(s.log_entry(2), "Reset");
}

#[test]
fn solve_counts_solution_tokens() {
    let mut s = Session::new();
    s.set_facelet_text(String::from(MIXED));
    s.solve_action();
    let sol = s.moves_text().clone();
    let n = sol.split_whitespace().count();
    assert!(n > 0);
    let entry = s.log_entry(0).clone();
    assert_eq!(entry, format!("{} ({}f)", sol, n));
}
