//! The single food item and its respawn rule: exactly one food cell exists
//! at any time, and it is relocated (never destroyed) on every grow event.

use vstd::prelude::*;

use rand::Rng;

use crate::geometry::Position;
use crate::geometry::Size;

verus! {

/// Draws one coordinate uniformly from the half-open range `lo..hi`.
///
/// Relies on `rand::Rng::gen_range` on a `rand::thread_rng()` handle: for a
/// non-empty half-open range it returns a value of that range, and it panics
/// only on an empty range, which the precondition rules out. Nothing more is
/// claimed of the draw: any value of the range may come back.
#[verifier::external_body]
fn random_in_range(lo: u16, hi: u16) -> (r: u16)
    requires
        lo < hi,
    ensures
        lo <= r < hi,
{
    rand::thread_rng().gen_range(lo..hi)
}

/// The food item: its glyph, where it lies, and whether it is in play.
pub struct Food {
    pub glyph: char,
    pub position: Position,
    pub active: bool,
}

impl Food {
    /// The fixed initial food item, active at its default cell.
    pub fn default() -> (f: Food)
        ensures
            f.glyph == '*',
            f.position == (Position { x: 3, y: 3 }),
            f.active,
    {
        Food { glyph: '*', position: Position { x: 3, y: 3 }, active: true }
    }

    /// Placeholder for a caller-chosen placement; the food moves only
    /// through `relocate`.
    pub fn set_pos(&mut self)
        ensures
            *final(self) == *old(self),
    {
    }

    /// Move the food to a cell drawn uniformly from the interior
    /// sub-rectangle `[5, width - 5) x [5, height - 5)`, independent of
    /// snake occupancy, and mark it active. The inset margin keeps the food
    /// away from the lethal border.
    pub fn relocate(&mut self, size: &Size)
        requires
            size.width > 10,
            size.height > 10,
        ensures
            5 <= final(self).position.x < size.width - 5,
            5 <= final(self).position.y < size.height - 5,
            final(self).active,
            final(self).glyph == old(self).glyph,
    {
        self.position.x = random_in_range(5, size.width - 5);
        self.position.y = random_in_range(5, size.height - 5);
        self.active = true;
    }
}

} // verus!
