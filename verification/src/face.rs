//! The six-way face identity of a cube sticker, with its ordinal and
//! single-character encodings.

use vstd::prelude::*;

verus! {

/// One of the six faces of the cube: up, right, front, down, left, back.
#[derive(Clone, Copy, Debug, PartialEq, Eq, Structural)]
pub enum Face {
    U,
    R,
    F,
    D,
    L,
    B,
}

/// The stable ordinal of a face, in [0, 6).
pub open spec fn face_index(f: Face) -> int {
    match f {
        Face::U => 0,
        Face::R => 1,
        Face::F => 2,
        Face::D => 3,
        Face::L => 4,
        Face::B => 5,
    }
}

/// The face with a given ordinal; every ordinal outside [0, 6) maps to `B`.
pub open spec fn face_of_index(i: int) -> Face {
    if i == 0 {
        Face::U
    } else if i == 1 {
        Face::R
    } else if i == 2 {
        Face::F
    } else if i == 3 {
        Face::D
    } else if i == 4 {
        Face::L
    } else {
        Face::B
    }
}

/// The canonical character code of a face.
pub open spec fn face_char(f: Face) -> char {
    match f {
        Face::U => 'U',
        Face::R => 'R',
        Face::F => 'F',
        Face::D => 'D',
        Face::L => 'L',
        Face::B => 'B',
    }
}

/// The face encoded by a character, or `None` for a character outside the
/// six-letter alphabet.
pub open spec fn face_of_char(c: char) -> Option<Face> {
    if c == 'U' {
        Some(Face::U)
    } else if c == 'R' {
        Some(Face::R)
    } else if c == 'F' {
        Some(Face::F)
    } else if c == 'D' {
        Some(Face::D)
    } else if c == 'L' {
        Some(Face::L)
    } else if c == 'B' {
        Some(Face::B)
    } else {
        None
    }
}

/// Whether a character is one of the six face codes.
pub open spec fn is_face_code(c: char) -> bool {
    face_of_char(c) is Some
}

/// The face encoded by a character, with every unrecognized character
/// silently coerced to the fixed fallback face `B`.
pub open spec fn face_of_char_or_fallback(c: char) -> Face {
    match face_of_char(c) {
        Some(f) => f,
        None => Face::B,
    }
}

impl Face {
    /// The face with the given ordinal.
    pub fn from_index(i: u8) -> (r: Face)
        requires
            i < 6,
        ensures
            r == face_of_index(i as int),
    {
        match i {
            0 => Face::U,
            1 => Face::R,
            2 => Face::F,
            3 => Face::D,
            4 => Face::L,
            _ => Face::B,
        }
    }

    /// The ordinal of this face, always in [0, 6).
    pub fn to_index(self) -> (r: u8)
        ensures
            r as int == face_index(self),
            r < 6,
    {
        match self {
            Face::U => 0,
            Face::R => 1,
            Face::F => 2,
            Face::D => 3,
            Face::L => 4,
            Face::B => 5,
        }
    }

    /// The canonical character code of this face.
    pub fn to_char(self) -> (r: char)
        ensures
            r == face_char(self),
    {
        match self {
            Face::U => 'U',
            Face::R => 'R',
            Face::F => 'F',
            Face::D => 'D',
            Face::L => 'L',
            Face::B => 'B',
        }
    }

    /// The face encoded by a character, or `None` when the character is not
    /// one of the six face codes.
    pub fn from_char(c: char) -> (r: Option<Face>)
        ensures
            r == face_of_char(c),
    {
        match c {
            'U' => Some(Face::U),
            'R' => Some(Face::R),
            'F' => Some(Face::F),
            'D' => Some(Face::D),
            'L' => Some(Face::L),
            'B' => Some(Face::B),
            _ => None,
        }
    }
}

/// The ordinal-to-face mapping inverts the face-to-ordinal mapping.
pub proof fn lemma_face_index_roundtrip(f: Face)
    ensures
        face_of_index(face_index(f)) == f,
{
}

/// The character-to-face mapping inverts the face-to-character mapping:
/// no two faces share a character.
pub proof fn lemma_face_char_roundtrip(f: Face)
    ensures
        face_of_char(face_char(f)) == Some(f),
        face_of_char_or_fallback(face_char(f)) == f,
{
}

} // verus!
