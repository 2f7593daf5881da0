//! The hit region: the rectangle, in display-cell coordinates, where the pet
//! panel was most recently rendered. It is refreshed on every render pass and
//! consulted by input dispatch to decide whether a pointer press lands on the
//! pet.

use vstd::prelude::*;

verus! {

/// A rectangle in display-cell coordinates: the cells covered are the columns
/// `x ..= x + width - 1` and the rows `y ..= y + height - 1`. A rectangle of
/// zero width or zero height covers no cell.
#[derive(Clone, Copy, PartialEq, Eq, Structural, Debug)]
pub struct HitRegion {
    pub x: u16,
    pub y: u16,
    pub width: u16,
    pub height: u16,
}

impl HitRegion {
    /// Whether the cell `(px, py)` lies inside the rectangle.
    pub open spec fn contains_spec(self, px: u16, py: u16) -> bool {
        &&& self.x <= px
        &&& (px as int) < self.x + self.width
        &&& self.y <= py
        &&& (py as int) < self.y + self.height
    }

    /// An empty region at the origin: contains no cell, the state before the
    /// first render pass.
    pub fn empty() -> (r: HitRegion)
        ensures
            r == (HitRegion { x: 0u16, y: 0u16, width: 0u16, height: 0u16 }),
            forall|px: u16, py: u16| !r.contains_spec(px, py),
    {
        HitRegion { x: 0, y: 0, width: 0, height: 0 }
    }

    /// Inclusive containment test of a cell against the rectangle.
    pub fn contains(&self, px: u16, py: u16) -> (r: bool)
        ensures
            r == self.contains_spec(px, py),
    {
        px >= self.x && (px as u32) < self.x as u32 + self.width as u32 && py >= self.y
            && (py as u32) < self.y as u32 + self.height as u32
    }
}

} // verus!
