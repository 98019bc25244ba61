//! Grid positions: plain coordinates used by the map, teleport effects and the
//! player.

use vstd::prelude::*;
use crate::clamp_i32;

verus! {

/// A coordinate pair on the game grid.
#[derive(Debug, PartialEq, Eq, Structural, Hash, Clone, Copy, PartialOrd, Ord)]
pub struct Position {
    pub x: i32,
    pub y: i32,
}

impl Position {
    pub fn new(x: i32, y: i32) -> (r: Position)
        ensures
            r == (Position { x, y }),
    {
        Position { x, y }
    }

    /// Shifts the x coordinate, saturating at the ends of the `i32` range.
    pub fn add_x(&mut self, x: i32)
        ensures
            final(self).x as int == clamp_i32(old(self).x + x),
            final(self).y == old(self).y,
    {
        self.x = crate::add_clamped(self.x, x);
    }

    /// Shifts the y coordinate, saturating at the ends of the `i32` range.
    pub fn add_y(&mut self, y: i32)
        ensures
            final(self).y as int == clamp_i32(old(self).y + y),
            final(self).x == old(self).x,
    {
        self.y = crate::add_clamped(self.y, y);
    }
}

} // verus!
