//! The interaction controller: one editing session's facelet state, its two
//! editable text mirrors, the palette, and the five user actions over them.

use vstd::prelude::*;
use vstd::string::StringExecFns;
use crate::face::{Face, face_of_index};
use crate::facelet::{Facelet, decode_seq, encode_seq, solved_seq};
use crate::palette::{Color, Palette, default_colors};
use crate::solver::{apply_moves_of, solve_of, apply_moves_ext, random_cube_ext, random_moves_ext, solve_ext, wf_facelet_text};
use crate::text::{dec_rep, dec_string, token_count, count_tokens, trim_spec, trim_str};

verus! {

/// The abstract value of a session: the facelet state, the depth bound, the
/// two text mirrors, the log entries newest first, and the palette.
pub ghost struct SessionView {
    pub facelets: Seq<Face>,
    pub max_depth: u8,
    pub facelet_text: Seq<char>,
    pub moves_text: Seq<char>,
    pub log: Seq<Seq<char>>,
    pub colors: Seq<Color>,
    pub selected: int,
}

/// The text of each log entry, newest first.
pub open spec fn log_view(log: Seq<String>) -> Seq<Seq<char>> {
    Seq::new(log.len(), |i: int| log[i]@)
}

proof fn lemma_log_prepend(a: Seq<String>, s: String)
    ensures
        log_view(a.insert(0, s)) == seq![s@] + log_view(a),
{
    assert(log_view(a.insert(0, s)) =~= seq![s@] + log_view(a));
}

/// One editing session: the facelet state as source of truth, the facelet and
/// move text mirrors, the purely additive log (newest entry first), the
/// palette, and the depth bound handed to the solver.
pub struct Session {
    facelets: Facelet,
    max_depth: u8,
    facelet_text: String,
    moves_text: String,
    log: Vec<String>,
    palette: Palette,
}

impl View for Session {
    type V = SessionView;

    closed spec fn view(&self) -> SessionView {
        SessionView {
            facelets: self.facelets@,
            max_depth: self.max_depth,
            facelet_text: self.facelet_text@,
            moves_text: self.moves_text@,
            log: log_view(self.log@),
            colors: self.palette.colors_seq(),
            selected: self.palette.selected_index(),
        }
    }
}

/// A well-formed session value: 54 facelet slots, a palette with one color
/// per face and a valid selection, and a depth bound in [1, 24].
pub open spec fn wf_view(v: SessionView) -> bool {
    &&& v.facelets.len() == 54
    &&& v.colors.len() == 6
    &&& 0 <= v.selected < 6
    &&& 1 <= v.max_depth <= 24
}

/// The session a fresh editing session starts from: the solved cube, its
/// encoding in the facelet text mirror, empty move text and log, the default
/// palette, and a depth bound of 21.
pub open spec fn initial_view() -> SessionView {
    SessionView {
        facelets: solved_seq(),
        max_depth: 21,
        facelet_text: encode_seq(solved_seq()),
        moves_text: Seq::empty(),
        log: Seq::empty(),
        colors: default_colors(),
        selected: 0,
    }
}

/// The source-of-truth rule: when the facelet text mirror, trimmed, holds at
/// least 54 characters, it wins; otherwise the facelet state's own encoding
/// is the current cube text.
pub open spec fn resolved_cube_text(v: SessionView) -> Seq<char> {
    if trim_spec(v.facelet_text).len() >= 54 {
        trim_spec(v.facelet_text)
    } else {
        encode_seq(v.facelets)
    }
}

/// The log entry recording the cube text a solve ran on.
pub open spec fn cube_log_entry(cube: Seq<char>) -> Seq<char> {
    "Cube: "@ + cube
}

/// The log entry recording a solution text and its move count.
pub open spec fn solution_log_entry(sol: Seq<char>) -> Seq<char> {
    sol + " ("@ + dec_rep(token_count(sol)) + "f)"@
}

/// The log entry recording an applied scramble text.
pub open spec fn scramble_log_entry(scr: Seq<char>) -> Seq<char> {
    "Scramble: "@ + scr
}

/// The log entry recording an applied move text.
pub open spec fn apply_log_entry(mv: Seq<char>) -> Seq<char> {
    "Apply: "@ + mv
}

/// The log entry recording a reset.
pub open spec fn reset_log_entry() -> Seq<char> {
    "Reset"@
}

/// What the solve action does with a resolved cube text and the solver's
/// returned solution text: the move mirror becomes the solution, and the log
/// gains the solution entry and then the cube entry, newest first.
pub open spec fn solve_transition(v: SessionView, cube: Seq<char>, sol: Seq<char>) -> SessionView {
    SessionView {
        moves_text: sol,
        log: seq![solution_log_entry(sol), cube_log_entry(cube)] + v.log,
        ..v
    }
}

/// What the random-cube action does with the drawn facelet text: the text is
/// decoded into the facelet state, it replaces the facelet mirror, the move
/// mirror is cleared, and the raw text is logged.
pub open spec fn random_cube_transition(v: SessionView, s: Seq<char>) -> SessionView {
    SessionView {
        facelets: if s.len() < 54 {
            v.facelets
        } else {
            decode_seq(s)
        },
        facelet_text: s,
        moves_text: Seq::empty(),
        log: seq![s] + v.log,
        ..v
    }
}

/// What the scramble action does with a drawn scramble text: the scramble is
/// applied to the facelet state's own encoding; when the solver returns no
/// value the whole action is a no-op, otherwise the result is decoded into
/// the facelet state, both mirrors are replaced, and the scramble is logged.
pub open spec fn scramble_transition(v: SessionView, scr: Seq<char>) -> SessionView {
    match apply_moves_of(encode_seq(v.facelets), scr) {
        None => v,
        Some(nf) => SessionView {
            facelets: if nf.len() < 54 {
                v.facelets
            } else {
                decode_seq(nf)
            },
            facelet_text: nf,
            moves_text: scr,
            log: seq![scramble_log_entry(scr)] + v.log,
            ..v
        },
    }
}

/// What the apply-moves action does: with empty trimmed move text it is a
/// no-op; otherwise the trimmed moves are applied to the resolved cube text,
/// a missing result makes the action a no-op, and on success the result is
/// decoded into the facelet state, the facelet mirror is replaced, the move
/// mirror is kept, and the move text is logged.
pub open spec fn apply_moves_transition(v: SessionView) -> SessionView {
    let mv = trim_spec(v.moves_text);
    if mv.len() == 0 {
        v
    } else {
        match apply_moves_of(resolved_cube_text(v), mv) {
            None => v,
            Some(nf) => SessionView {
                facelets: if nf.len() < 54 {
                    v.facelets
                } else {
                    decode_seq(nf)
                },
                facelet_text: nf,
                log: seq![apply_log_entry(mv)] + v.log,
                ..v
            },
        }
    }
}

/// What the reset action does: it restores the canonical solved state, mirrors
/// it into the facelet text, clears the move text, and logs the reset. (Of the
/// two reset meanings a session could have, this library deliberately restores
/// the fixed solved state rather than an undo snapshot.)
pub open spec fn reset_transition(v: SessionView) -> SessionView {
    SessionView {
        facelets: solved_seq(),
        facelet_text: encode_seq(solved_seq()),
        moves_text: Seq::empty(),
        log: seq![reset_log_entry()] + v.log,
        ..v
    }
}

/// What a paint edit does: the slot takes the face selected in the palette;
/// the mirrors are deliberately left alone, as the source-of-truth rule
/// resolves any drift on the next action.
pub open spec fn paint_transition(v: SessionView, idx: int) -> SessionView {
    SessionView { facelets: v.facelets.update(idx, face_of_index(v.selected)), ..v }
}

impl Session {
    /// The session's invariant.
    pub open spec fn wf(&self) -> bool {
        wf_view(self@)
    }

    /// A fresh session, in the canonical initial state.
    pub fn new() -> (r: Session)
        ensures
            r.wf(),
            r@ == initial_view(),
    {
        let facelets = Facelet::new_solved();
        let facelet_text = facelets.to_facelet_string();
        let r = Session {
            facelets,
            max_depth: 21,
            facelet_text,
            moves_text: String::new(),
            log: Vec::new(),
            palette: Palette::new(),
        };
        proof {
            assert(log_view(r.log@) =~= Seq::<Seq<char>>::empty());
            assert(r@ == initial_view());
        }
        r
    }

    /// The current cube text under the source-of-truth rule.
    pub fn resolve_cube_text(&self) -> (r: String)
        requires
            self.wf(),
        ensures
            r@ == resolved_cube_text(self@),
    {
        let t = trim_str(self.facelet_text.as_str());
        if t.as_str().unicode_len() >= 54 {
            t
        } else {
            self.facelets.to_facelet_string()
        }
    }

    /// The state update of the solve action, given the cube text the solver
    /// ran on and the solution text it returned.
    pub fn solve_step(&mut self, cube: &str, sol: &str)
        requires
            old(self).wf(),
        ensures
            final(self).wf(),
            final(self)@ == solve_transition(old(self)@, cube@, sol@),
    {
        let mut cube_entry = String::from_str("Cube: ");
        cube_entry.append(cube);
        self.log.insert(0, cube_entry);
        proof {
            lemma_log_prepend(old(self).log@, cube_entry);
        }
        let n = count_tokens(sol);
        let mut sol_entry = String::from_str(sol);
        sol_entry.append(" (");
        sol_entry.append(dec_string(n as u64).as_str());
        sol_entry.append("f)");
        let ghost mid_log = self.log@;
        self.log.insert(0, sol_entry);
        proof {
            lemma_log_prepend(mid_log, sol_entry);
        }
        self.moves_text = String::from_str(sol);
        proof {
            assert(sol_entry@ =~= solution_log_entry(sol@));
            assert(seq![sol_entry@] + (seq![cube_entry@] + old(self)@.log) =~= seq![
                solution_log_entry(sol@),
                cube_log_entry(cube@),
            ] + old(self)@.log);
            assert(final(self)@ == solve_transition(old(self)@, cube@, sol@));
        }
    }

    /// The solve action: resolve the current cube text, hand it to the solver
    /// with the session's depth bound, and record the result.
    pub fn solve_action(&mut self)
        requires
            old(self).wf(),
        ensures
            final(self).wf(),
            final(self)@ == solve_transition(
                old(self)@,
                resolved_cube_text(old(self)@),
                solve_of(resolved_cube_text(old(self)@), old(self)@.max_depth),
            ),
    {
        let cube = self.resolve_cube_text();
        let sol = solve_ext(&cube, self.max_depth);
        self.solve_step(cube.as_str(), sol.as_str());
    }

    /// The state update of the random-cube action, given the drawn text.
    pub fn random_cube_step(&mut self, s: &str)
        requires
            old(self).wf(),
        ensures
            final(self).wf(),
            final(self)@ == random_cube_transition(old(self)@, s@),
    {
        self.facelets.apply_from_str(s);
        self.facelet_text = String::from_str(s);
        self.moves_text = String::new();
        self.log.insert(0, String::from_str(s));
        proof {
            lemma_log_prepend(old(self).log@, final(self).log@[0]);
            assert(final(self)@ == random_cube_transition(old(self)@, s@));
        }
    }

    /// The random-cube action: draw a uniformly random valid cube from the
    /// solver and record it. Some well-formed 54-character facelet text is
    /// drawn; which one is not promised.
    pub fn random_cube_action(&mut self)
        requires
            old(self).wf(),
        ensures
            final(self).wf(),
            exists|s: Seq<char>|
                wf_facelet_text(s) && final(self)@ == random_cube_transition(old(self)@, s),
            final(self)@.facelet_text == encode_seq(final(self)@.facelets),
    {
        let s = random_cube_ext();
        self.random_cube_step(s.as_str());
        proof {
            assert(wf_facelet_text(s@) && final(self)@ == random_cube_transition(
                old(self)@,
                s@,
            ));
            crate::facelet::lemma_encode_decode_of_codes(s@);
        }
    }

    /// The state update of the scramble action, given the drawn scramble
    /// text: the solver applies it to the facelet state's own encoding, and a
    /// missing result leaves the whole session unchanged.
    pub fn scramble_step(&mut self, scr: &str)
        requires
            old(self).wf(),
        ensures
            final(self).wf(),
            final(self)@ == scramble_transition(old(self)@, scr@),
            final(self)@ == old(self)@ || final(self)@.facelet_text == encode_seq(
                final(self)@.facelets,
            ),
    {
        let cur = self.facelets.to_facelet_string();
        let moves = String::from_str(scr);
        match apply_moves_ext(&cur, &moves) {
            None => {},
            Some(nf) => {
                proof {
                    crate::facelet::lemma_encode_decode_of_codes(nf@);
                }
                self.facelets.apply_from_str(nf.as_str());
                self.facelet_text = nf;
                self.moves_text = String::from_str(scr);
                let mut entry = String::from_str("Scramble: ");
                entry.append(scr);
                self.log.insert(0, entry);
                proof {
                    lemma_log_prepend(old(self).log@, entry);
                    assert(final(self)@ == scramble_transition(old(self)@, scr@));
                }
            },
        }
    }

    /// The scramble action: draw a random scramble of 25 moves from the
    /// solver and apply it to the facelet state's own encoding. Some scramble
    /// text is drawn; which one is not promised.
    pub fn scramble_action(&mut self)
        requires
            old(self).wf(),
        ensures
            final(self).wf(),
            exists|scr: Seq<char>| final(self)@ == scramble_transition(old(self)@, scr),
            final(self)@ == old(self)@ || final(self)@.facelet_text == encode_seq(
                final(self)@.facelets,
            ),
    {
        let scr = random_moves_ext(25);
        self.scramble_step(scr.as_str());
        proof {
            assert(final(self)@ == scramble_transition(old(self)@, scr@));
        }
    }

    /// The apply-moves action: apply the trimmed move mirror to the resolved
    /// cube text. Empty trimmed move text, or a solver that returns no value,
    /// leaves the session unchanged.
    pub fn apply_moves_action(&mut self)
        requires
            old(self).wf(),
        ensures
            final(self).wf(),
            final(self)@ == apply_moves_transition(old(self)@),
            final(self)@ == old(self)@ || final(self)@.facelet_text == encode_seq(
                final(self)@.facelets,
            ),
    {
        let mv = trim_str(self.moves_text.as_str());
        if mv.as_str().unicode_len() == 0 {
            return ;
        }
        let base = self.resolve_cube_text();
        match apply_moves_ext(&base, &mv) {
            None => {},
            Some(nf) => {
                proof {
                    crate::facelet::lemma_encode_decode_of_codes(nf@);
                }
                self.facelets.apply_from_str(nf.as_str());
                self.facelet_text = nf;
                let mut entry = String::from_str("Apply: ");
                entry.append(mv.as_str());
                self.log.insert(0, entry);
                proof {
                    lemma_log_prepend(old(self).log@, entry);
                    assert(final(self)@ == apply_moves_transition(old(self)@));
                }
            },
        }
    }

    /// The reset action: restore the canonical solved state, mirror it into
    /// the facelet text, clear the move text, and log the reset.
    pub fn reset_action(&mut self)
        requires
            old(self).wf(),
        ensures
            final(self).wf(),
            final(self)@ == reset_transition(old(self)@),
    {
        self.facelets = Facelet::new_solved();
        self.facelet_text = self.facelets.to_facelet_string();
        self.moves_text = String::new();
        self.log.insert(0, String::from_str("Reset"));
        proof {
            lemma_log_prepend(old(self).log@, final(self).log@[0]);
            assert(final(self)@ == reset_transition(old(self)@));
        }
    }

    /// Paint one facelet slot with the face selected in the palette.
    pub fn paint(&mut self, idx: usize)
        requires
            old(self).wf(),
            idx < 54,
        ensures
            final(self).wf(),
            final(self)@ == paint_transition(old(self)@, idx as int),
    {
        let f = self.palette.selected_face();
        self.facelets.paint(idx, f);
    }

    /// Select the face ordinal to paint with.
    pub fn select_color(&mut self, i: usize)
        requires
            old(self).wf(),
            i < 6,
        ensures
            final(self).wf(),
            final(self)@ == (SessionView { selected: i as int, ..old(self)@ }),
    {
        self.palette.select(i);
    }

    /// The display color of a face.
    pub fn color_of(&self, f: Face) -> (r: Color)
        requires
            self.wf(),
        ensures
            r == self@.colors[crate::face::face_index(f)],
    {
        self.palette.color_of(f)
    }

    /// Replace the facelet text mirror, as a user edit of the field does.
    pub fn set_facelet_text(&mut self, s: String)
        requires
            old(self).wf(),
        ensures
            final(self).wf(),
            final(self)@ == (SessionView { facelet_text: s@, ..old(self)@ }),
    {
        self.facelet_text = s;
    }

    /// Replace the move text mirror, as a user edit of the field does.
    pub fn set_moves_text(&mut self, s: String)
        requires
            old(self).wf(),
        ensures
            final(self).wf(),
            final(self)@ == (SessionView { moves_text: s@, ..old(self)@ }),
    {
        self.moves_text = s;
    }

    /// Set the depth bound handed to the solver.
    pub fn set_max_depth(&mut self, d: u8)
        requires
            old(self).wf(),
            1 <= d <= 24,
        ensures
            final(self).wf(),
            final(self)@ == (SessionView { max_depth: d, ..old(self)@ }),
    {
        self.max_depth = d;
    }

    /// The facelet state.
    pub fn facelets(&self) -> (r: &Facelet)
        requires
            self.wf(),
        ensures
            r@ == self@.facelets,
            r.wf(),
    {
        &self.facelets
    }

    /// The facelet text mirror.
    pub fn facelet_text(&self) -> (r: &String)
        ensures
            r@ == self@.facelet_text,
    {
        &self.facelet_text
    }

    /// The move text mirror.
    pub fn moves_text(&self) -> (r: &String)
        ensures
            r@ == self@.moves_text,
    {
        &self.moves_text
    }

    /// The depth bound handed to the solver.
    pub fn max_depth(&self) -> (r: u8)
        ensures
            r == self@.max_depth,
    {
        self.max_depth
    }

    /// The ordinal of the face selected for painting.
    pub fn selected_color(&self) -> (r: usize)
        requires
            self.wf(),
        ensures
            r as int == self@.selected,
    {
        self.palette.selected()
    }

    /// How many entries the log holds.
    pub fn log_len(&self) -> (r: usize)
        ensures
            r as int == self@.log.len(),
    {
        self.log.len()
    }

    /// One log entry; index 0 is the newest.
    pub fn log_entry(&self, i: usize) -> (r: &String)
        requires
            i < self@.log.len(),
        ensures
            r@ == self@.log[i as int],
    {
        &self.log[i]
    }
}

impl Default for Session {
    /// A fresh session, in the canonical initial state.
    fn default() -> (r: Session)
        ensures
            r.wf(),
            r@ == initial_view(),
    {
        Session::new()
    }
}

/// Apply-moves failure is a no-op: when the solver returns no value for the
/// session's trimmed move text against its resolved cube text, the action
/// leaves the facelet state, both mirrors, and the log exactly as they were.
pub proof fn lemma_apply_failure_noop(v: SessionView)
    requires
        apply_moves_of(resolved_cube_text(v), trim_spec(v.moves_text)) is None,
    ensures
        apply_moves_transition(v) == v,
{
}

/// Scramble failure is a no-op: when the solver returns no value for a drawn
/// scramble against the facelet state's encoding, the action leaves the
/// session exactly as it was.
pub proof fn lemma_scramble_failure_noop(v: SessionView, scr: Seq<char>)
    requires
        apply_moves_of(encode_seq(v.facelets), scr) is None,
    ensures
        scramble_transition(v, scr) == v,
{
}

/// Empty apply is a no-op: when the move mirror trims to the empty text, the
/// apply-moves action changes nothing and logs nothing.
pub proof fn lemma_empty_apply_noop(v: SessionView)
    requires
        trim_spec(v.moves_text).len() == 0,
    ensures
        apply_moves_transition(v) == v,
{
}

/// After a reset the facelet state encodes to the canonical solved text and
/// the move mirror is empty, whatever edits came before.
pub proof fn lemma_reset_restores_solved(v: SessionView)
    ensures
        encode_seq(reset_transition(v).facelets) == solved_facelet_text(),
        reset_transition(v).moves_text == Seq::<char>::empty(),
{
    lemma_solved_encoding();
}

/// The log is purely additive: every action leaves the prior entries intact
/// at the tail of the log, only prepending newer ones.
pub proof fn lemma_log_is_additive(
    v: SessionView,
    cube: Seq<char>,
    sol: Seq<char>,
    s: Seq<char>,
    scr: Seq<char>,
)
    ensures
        solve_transition(v, cube, sol).log.skip(2) == v.log,
        random_cube_transition(v, s).log.skip(1) == v.log,
        scramble_transition(v, scr).log == v.log || scramble_transition(v, scr).log.skip(1)
            == v.log,
        apply_moves_transition(v).log == v.log || apply_moves_transition(v).log.skip(1) == v.log,
        reset_transition(v).log.skip(1) == v.log,
        paint_transition(v, 0).log == v.log,
{
    assert((seq![solution_log_entry(sol), cube_log_entry(cube)] + v.log).skip(2) =~= v.log);
    assert((seq![s] + v.log).skip(1) =~= v.log);
    if apply_moves_of(encode_seq(v.facelets), scr) is Some {
        assert((seq![scramble_log_entry(scr)] + v.log).skip(1) =~= v.log);
    }
    let mv = trim_spec(v.moves_text);
    if mv.len() != 0 && apply_moves_of(resolved_cube_text(v), mv) is Some {
        assert((seq![apply_log_entry(mv)] + v.log).skip(1) =~= v.log);
    }
    assert((seq![reset_log_entry()] + v.log).skip(1) =~= v.log);
}

/// The canonical solved facelet text.
pub open spec fn solved_facelet_text() -> Seq<char> {
    "UUUUUUUUURRRRRRRRRFFFFFFFFFDDDDDDDDDLLLLLLLLLBBBBBBBBB"@
}

/// The solved state encodes to the canonical solved facelet text.
pub proof fn lemma_solved_encoding()
    ensures
        encode_seq(solved_seq()) == solved_facelet_text(),
{
    reveal_strlit("UUUUUUUUURRRRRRRRRFFFFFFFFFDDDDDDDDDLLLLLLLLLBBBBBBBBB");
    assert(encode_seq(solved_seq()) =~= solved_facelet_text());
}

} // verus!
