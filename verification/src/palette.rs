//! The palette: a fixed mapping from each face ordinal to a display color,
//! plus the face currently selected for painting.

use vstd::prelude::*;
use crate::face::{Face, face_index, face_of_index};

verus! {

/// A display color, as plain red, green and blue channels.
#[derive(Clone, Copy, Debug, PartialEq, Eq, Structural)]
pub struct Color {
    pub r: u8,
    pub g: u8,
    pub b: u8,
}

/// The default display colors of the six faces, by face ordinal.
pub open spec fn default_colors() -> Seq<Color> {
    seq![
        Color { r: 255, g: 255, b: 255 },
        Color { r: 220, g: 0, b: 0 },
        Color { r: 0, g: 160, b: 0 },
        Color { r: 230, g: 200, b: 0 },
        Color { r: 255, g: 120, b: 0 },
        Color { r: 0, g: 90, b: 200 },
    ]
}

/// The six face colors and the ordinal of the face selected for painting.
pub struct Palette {
    colors: Vec<Color>,
    selected: usize,
}

impl Palette {
    /// There is one color per face and the selection is a valid ordinal.
    pub open spec fn wf(&self) -> bool {
        self.colors_seq().len() == 6 && 0 <= self.selected_index() < 6
    }

    /// The color assigned to each face ordinal.
    pub closed spec fn colors_seq(&self) -> Seq<Color> {
        self.colors@
    }

    /// The ordinal of the face selected for painting.
    pub closed spec fn selected_index(&self) -> int {
        self.selected as int
    }

    /// The default palette, with the first face selected.
    pub fn new() -> (r: Palette)
        ensures
            r.wf(),
            r.colors_seq() == default_colors(),
            r.selected_index() == 0,
    {
        let mut colors: Vec<Color> = Vec::new();
        colors.push(Color { r: 255, g: 255, b: 255 });
        colors.push(Color { r: 220, g: 0, b: 0 });
        colors.push(Color { r: 0, g: 160, b: 0 });
        colors.push(Color { r: 230, g: 200, b: 0 });
        colors.push(Color { r: 255, g: 120, b: 0 });
        colors.push(Color { r: 0, g: 90, b: 200 });
        proof {
            assert(colors@ =~= default_colors());
        }
        Palette { colors, selected: 0 }
    }

    /// Select the face ordinal to paint with.
    pub fn select(&mut self, i: usize)
        requires
            old(self).wf(),
            i < 6,
        ensures
            final(self).wf(),
            final(self).selected_index() == i as int,
            final(self).colors_seq() == old(self).colors_seq(),
    {
        self.selected = i;
    }

    /// The ordinal of the face selected for painting.
    pub fn selected(&self) -> (r: usize)
        requires
            self.wf(),
        ensures
            r as int == self.selected_index(),
            r < 6,
    {
        self.selected
    }

    /// The face selected for painting.
    pub fn selected_face(&self) -> (r: Face)
        requires
            self.wf(),
        ensures
            r == face_of_index(self.selected_index()),
    {
        Face::from_index(self.selected as u8)
    }

    /// The display color of a face.
    pub fn color_of(&self, f: Face) -> (r: Color)
        requires
            self.wf(),
        ensures
            r == self.colors_seq()[face_index(f)],
    {
        let i = f.to_index();
        self.colors[i as usize]
    }
}

} // verus!
