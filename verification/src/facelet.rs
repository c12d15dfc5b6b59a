//! The 54-slot facelet state of the cube, with its textual encoding, the
//! lenient bulk import rules, and single-slot paint edits.

use vstd::prelude::*;
use vstd::string::StrSliceExecFns;
use crate::face::{Face, face_char, face_of_char, face_of_char_or_fallback, face_of_index, face_index};
use crate::text::push_char;

verus! {

/// The canonical solved state: slot `i` holds the face with ordinal `i / 9`,
/// so each face is uniformly filled with its own identity.
pub open spec fn solved_seq() -> Seq<Face> {
    Seq::new(54, |i: int| face_of_index(i / 9))
}

/// The 54-character textual encoding of a facelet sequence.
pub open spec fn encode_seq(s: Seq<Face>) -> Seq<char> {
    Seq::new(s.len(), |i: int| face_char(s[i]))
}

/// The facelet sequence read from the first 54 characters of a text, with
/// every unrecognized character coerced to the fallback face `B`.
pub open spec fn decode_seq(t: Seq<char>) -> Seq<Face> {
    Seq::new(54, |i: int| face_of_char_or_fallback(t[i]))
}

/// The ordered 54-slot assignment of a face identity to every sticker.
pub struct Facelet {
    faces: Vec<Face>,
}

impl View for Facelet {
    type V = Seq<Face>;

    closed spec fn view(&self) -> Seq<Face> {
        self.faces@
    }
}

impl Facelet {
    /// The state always holds exactly 54 slots.
    pub open spec fn wf(&self) -> bool {
        self@.len() == 54
    }

    /// The canonical solved state.
    pub fn new_solved() -> (r: Facelet)
        ensures
            r.wf(),
            r@ == solved_seq(),
    {
        let mut faces: Vec<Face> = Vec::new();
        let mut i: usize = 0;
        while i < 54
            invariant
                0 <= i <= 54,
                faces@.len() == i,
                forall|j: int| 0 <= j < i ==> faces@[j] == face_of_index(j / 9),
            decreases 54 - i,
        {
            faces.push(Face::from_index((i / 9) as u8));
            i = i + 1;
        }
        proof {
            assert(faces@ =~= solved_seq());
        }
        Facelet { faces }
    }

    /// The 54-character textual encoding of this state.
    pub fn to_facelet_string(&self) -> (r: String)
        requires
            self.wf(),
        ensures
            r@ == encode_seq(self@),
            r@.len() == 54,
    {
        let mut r = String::new();
        let mut i: usize = 0;
        while i < 54
            invariant
                self.wf(),
                0 <= i <= 54,
                r@ == encode_seq(self@).take(i as int),
            decreases 54 - i,
        {
            push_char(&mut r, self.faces[i].to_char());
            proof {
                assert(encode_seq(self@).take(i as int).push(face_char(self@[i as int])) =~= encode_seq(
                    self@,
                ).take(i as int + 1));
            }
            i = i + 1;
        }
        proof {
            assert(encode_seq(self@).take(54) =~= encode_seq(self@));
        }
        r
    }

    /// Bulk import from a text. A text shorter than 54 characters leaves the
    /// state unchanged; otherwise only the first 54 characters are consulted
    /// and every unrecognized character is coerced to the fallback face `B`.
    pub fn apply_from_str(&mut self, s: &str)
        requires
            old(self).wf(),
        ensures
            final(self).wf(),
            s@.len() < 54 ==> final(self)@ == old(self)@,
            s@.len() >= 54 ==> final(self)@ == decode_seq(s@),
    {
        let n = s.unicode_len();
        if n < 54 {
            return ;
        }
        let mut faces: Vec<Face> = Vec::new();
        let mut i: usize = 0;
        while i < 54
            invariant
                s@.len() >= 54,
                0 <= i <= 54,
                faces@.len() == i,
                forall|j: int| 0 <= j < i ==> faces@[j] == face_of_char_or_fallback(s@[j]),
            decreases 54 - i,
        {
            let c = s.get_char(i);
            match Face::from_char(c) {
                Some(f) => faces.push(f),
                None => faces.push(Face::B),
            }
            i = i + 1;
        }
        proof {
            assert(faces@ =~= decode_seq(s@));
        }
        self.faces = faces;
    }

    /// Paint a single slot with a face identity.
    pub fn paint(&mut self, idx: usize, f: Face)
        requires
            old(self).wf(),
            idx < 54,
        ensures
            final(self).wf(),
            final(self)@ == old(self)@.update(idx as int, f),
    {
        self.faces[idx] = f;
    }

    /// The face shown at a slot.
    pub fn get(&self, idx: usize) -> (r: Face)
        requires
            self.wf(),
            idx < 54,
        ensures
            r == self@[idx as int],
    {
        self.faces[idx]
    }
}

/// Round trip: decoding the encoding of any 54-slot facelet state yields the
/// identical state.
pub proof fn lemma_decode_encode_roundtrip(s: Seq<Face>)
    requires
        s.len() == 54,
    ensures
        decode_seq(encode_seq(s)) == s,
{
    assert(decode_seq(encode_seq(s)) =~= s);
}

/// Round trip, the other way: encoding the decoding of any 54-character text
/// made of face codes yields the identical text.
pub proof fn lemma_encode_decode_of_codes(s: Seq<char>)
    requires
        s.len() == 54,
        forall|i: int| 0 <= i < s.len() ==> crate::face::is_face_code(#[trigger] s[i]),
    ensures
        encode_seq(decode_seq(s)) == s,
{
    assert(encode_seq(decode_seq(s)) =~= s);
}

/// Solved canonical form: in the solved state, slot `i` shows the face with
/// ordinal `i / 9`, for every slot.
pub proof fn lemma_solved_canonical_form()
    ensures
        forall|i: int| 0 <= i < 54 ==> face_index(#[trigger] solved_seq()[i]) == i / 9,
{
}

/// Fallback coercion: decoding a 54-character text whose character at
/// position `k` lies outside the face alphabet yields `B` at slot `k`, while
/// every recognized character maps to its own face.
pub proof fn lemma_decode_fallback(t: Seq<char>, k: int)
    requires
        t.len() >= 54,
        0 <= k < 54,
        face_of_char(t[k]) is None,
    ensures
        decode_seq(t)[k] == Face::B,
        forall|i: int|
            (0 <= i < 54 && face_of_char(t[i]) is Some) ==> decode_seq(t)[i] == face_of_char(
                t[i],
            ).unwrap(),
{
}

} // verus!
