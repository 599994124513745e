//! Value types of the display: a cell, a color and a rectangular area.

use vstd::prelude::*;

verus! {

/// A cell of the display, counted from its top-left corner.
#[derive(Debug, Clone, Copy, PartialEq, Eq, Structural)]
pub struct Point {
    pub x: u8,
    pub y: u8,
}

/// A color as its red, green and blue parts.
#[derive(Debug, Clone, Copy, PartialEq, Eq, Structural)]
pub struct Color {
    pub red: u8,
    pub green: u8,
    pub blue: u8,
}

/// A rectangle of cells with its top-left corner at (`x`, `y`).
///
/// An area can be drawn on a display only if it [fits](Area::fits) on it.
#[derive(Debug, Clone, Copy, PartialEq, Eq, Structural)]
pub struct Area {
    pub x: u8,
    pub y: u8,
    pub width: u8,
    pub height: u8,
}

impl Area {
    /// The area reaches past the right edge of a display of the given width.
    pub open spec fn spec_too_wide(&self, display_width: u8) -> bool {
        self.x + self.width > display_width
    }

    /// The area reaches past the bottom edge of a display of the given height.
    pub open spec fn spec_too_tall(&self, display_height: u8) -> bool {
        self.y + self.height > display_height
    }

    /// The area lies within a display of the given size.
    pub open spec fn fits(&self, display_width: u8, display_height: u8) -> bool {
        &&& self.x + self.width <= display_width
        &&& self.y + self.height <= display_height
    }

    /// The number of cells of the area.
    pub open spec fn cells(&self) -> nat {
        (self.width * self.height) as nat
    }

    /// The number of color bytes that fill the area: three for each cell.
    pub open spec fn spec_color_len(&self) -> nat {
        3 * self.cells()
    }

    /// Tells whether the area reaches past the right edge of the display.
    /// A right edge beyond 255 is past every display.
    #[verifier::when_used_as_spec(spec_too_wide)]
    pub fn too_wide(&self, display_width: u8) -> (past: bool)
        ensures
            past == self.spec_too_wide(display_width),
    {
        match self.x.checked_add(self.width) {
            Some(right) => right > display_width,
            None => true,
        }
    }

    /// Tells whether the area reaches past the bottom edge of the display.
    /// A bottom edge beyond 255 is past every display.
    #[verifier::when_used_as_spec(spec_too_tall)]
    pub fn too_tall(&self, display_height: u8) -> (past: bool)
        ensures
            past == self.spec_too_tall(display_height),
    {
        match self.y.checked_add(self.height) {
            Some(bottom) => bottom > display_height,
            None => true,
        }
    }

    /// The length that a color buffer for this area must have.
    pub fn color_len(&self) -> (len: usize)
        ensures
            len == self.spec_color_len(),
            len <= 195075,
    {
        let width: usize = self.width as usize;
        let height: usize = self.height as usize;
        assert(width * height <= 65025) by (nonlinear_arith)
            requires
                width <= 255,
                height <= 255,
        ;
        width * height * 3
    }
}

} // verus!
