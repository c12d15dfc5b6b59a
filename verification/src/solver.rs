//! The boundary to the external cube solver. Each call goes through one
//! trusted wrapper whose contract states what the solver's source shows.

use vstd::prelude::*;
use crate::face::is_face_code;

verus! {

/// A well-formed facelet text: 54 characters, each one of the six face codes.
pub open spec fn wf_facelet_text(s: Seq<char>) -> bool {
    s.len() == 54 && forall|i: int| 0 <= i < s.len() ==> is_face_code(#[trigger] s[i])
}

/// The move text the solver returns for a cube text and a depth bound. The
/// search is deterministic, so the result depends on the arguments alone; it
/// is an error report rather than a move sequence when the cube text does not
/// describe a solvable state.
pub uninterp spec fn solve_of(cube: Seq<char>, max_depth: u8) -> Seq<char>;

/// The facelet text the solver produces by applying a move text to a cube
/// text, or `None` when either text is invalid. Deterministic in both
/// arguments.
pub uninterp spec fn apply_moves_of(cube: Seq<char>, moves: Seq<char>) -> Option<Seq<char>>;

/// Relies on `min2phase::solve`: a deterministic two-phase search whose
/// returned move text (or error report) is a function of the facelet text and
/// the depth bound alone. It returns for every input and never panics.
#[verifier::external_body]
pub(crate) fn solve_ext(cube: &String, max_depth: u8) -> (r: String)
    ensures
        r@ == solve_of(cube@, max_depth),
{
    min2phase::solve(cube, max_depth)
}

/// Relies on `min2phase::apply_moves`: a deterministic function of the two
/// texts; on success it returns the moved cube rendered by the solver's own
/// facelet writer, which always emits 54 face codes.
#[verifier::external_body]
pub(crate) fn apply_moves_ext(cube: &String, moves: &String) -> (r: Option<String>)
    ensures
        r.deep_view() == apply_moves_of(cube@, moves@),
        r matches Some(s) ==> wf_facelet_text(s@),
{
    min2phase::apply_moves(cube, moves)
}

/// Relies on `min2phase::random_cube`: it renders a randomly drawn cube state
/// through the solver's facelet writer, which always emits 54 face codes.
#[verifier::external_body]
pub(crate) fn random_cube_ext() -> (r: String)
    ensures
        wf_facelet_text(r@),
{
    min2phase::random_cube()
}

/// Relies on `min2phase::random_moves`: a randomly drawn scramble text;
/// nothing is promised of its content.
#[verifier::external_body]
pub(crate) fn random_moves_ext(n: u16) -> String {
    min2phase::random_moves(n)
}

} // verus!
