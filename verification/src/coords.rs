//! Bounded 2D grid positions with safe arithmetic and a distance metric.
//!
//! A well-formed `Coordinates` value always lies inside the world grid:
//! `x_position < WORLD_WIDTH` and `y_position < WORLD_HEIGHT`. The
//! constructors and both modify operations keep it that way, so positions
//! can be used as grid indices without further checks.

use vstd::prelude::*;

use crate::ant_settings::{WORLD_HEIGHT, WORLD_WIDTH};
use crate::rng::random_below;

verus! {

/// The location of a tile in the world.
#[derive(Copy, Clone, PartialEq, Eq, Structural, Debug)]
pub struct Coordinates {
    pub x_position: u16,
    pub y_position: u16,
}

/// Clamps the mathematical integer `v` into `[0, bound)`.
pub open spec fn spec_clamp(v: int, bound: int) -> int {
    if v < 0 {
        0
    } else if v >= bound {
        bound - 1
    } else {
        v
    }
}

impl Coordinates {
    /// Holds when the position lies inside the world grid.
    pub open spec fn wf(self) -> bool {
        self.x_position < WORLD_WIDTH && self.y_position < WORLD_HEIGHT
    }

    /// The Manhattan distance between two positions, as a mathematical integer.
    pub open spec fn spec_manhattan(self, other: Coordinates) -> int {
        vstd::math::abs(self.x_position as int - other.x_position as int) as int
            + vstd::math::abs(self.y_position as int - other.y_position as int) as int
    }

    /// Creates a new position, provided it lies inside the world boundaries.
    pub fn new(x_position: u16, y_position: u16) -> (r: Option<Coordinates>)
        ensures
            r is Some <==> (x_position < WORLD_WIDTH && y_position < WORLD_HEIGHT),
            r matches Some(c) ==> c.x_position == x_position && c.y_position == y_position
                && c.wf(),
    {
        if x_position >= WORLD_WIDTH || y_position >= WORLD_HEIGHT {
            return None;
        }
        Some(Coordinates { x_position, y_position })
    }

    /// Creates a new position, uniformly sampled inside the world boundaries.
    pub fn new_random() -> (r: Coordinates)
        ensures
            r.wf(),
    {
        let x_position: u16 = random_below(WORLD_WIDTH);
        let y_position: u16 = random_below(WORLD_HEIGHT);
        Coordinates { x_position, y_position }
    }

    /// Returns a copy of this position shifted by the given amounts,
    /// saturating at the grid edges. Used for look-ahead at neighbour
    /// tiles, so that edge tiles can still be inspected.
    pub fn safe_modify(&self, x_amount: i32, y_amount: i32) -> (r: Coordinates)
        ensures
            r.x_position == spec_clamp(self.x_position + x_amount, WORLD_WIDTH as int),
            r.y_position == spec_clamp(self.y_position + y_amount, WORLD_HEIGHT as int),
            r.wf(),
    {
        let x_sum: i64 = self.x_position as i64 + x_amount as i64;
        let y_sum: i64 = self.y_position as i64 + y_amount as i64;
        let x_position: u16 = if x_sum < 0 {
            0
        } else if x_sum >= WORLD_WIDTH as i64 {
            WORLD_WIDTH - 1
        } else {
            x_sum as u16
        };
        let y_position: u16 = if y_sum < 0 {
            0
        } else if y_sum >= WORLD_HEIGHT as i64 {
            WORLD_HEIGHT - 1
        } else {
            y_sum as u16
        };
        Coordinates { x_position, y_position }
    }

    /// Returns a copy of this position shifted by the given amounts, or
    /// `None` if the result would leave the grid. Used for an ant's real
    /// step: the caller may then try another direction.
    pub fn modify(&self, x_amount: i32, y_amount: i32) -> (r: Option<Coordinates>)
        ensures
            r is Some <==> (0 <= self.x_position + x_amount < WORLD_WIDTH
                && 0 <= self.y_position + y_amount < WORLD_HEIGHT),
            r matches Some(c) ==> c.x_position == self.x_position + x_amount
                && c.y_position == self.y_position + y_amount && c.wf(),
    {
        let x_sum: i64 = self.x_position as i64 + x_amount as i64;
        let y_sum: i64 = self.y_position as i64 + y_amount as i64;
        if x_sum < 0 || x_sum >= WORLD_WIDTH as i64 || y_sum < 0 || y_sum >= WORLD_HEIGHT as i64 {
            return None;
        }
        Some(Coordinates { x_position: x_sum as u16, y_position: y_sum as u16 })
    }

    pub fn get_x_position_u16(&self) -> (r: u16)
        ensures
            r == self.x_position,
    {
        self.x_position
    }

    pub fn get_x_position_usize(&self) -> (r: usize)
        ensures
            r == self.x_position,
    {
        self.x_position as usize
    }

    pub fn get_y_position_u16(&self) -> (r: u16)
        ensures
            r == self.y_position,
    {
        self.y_position
    }

    pub fn get_y_position_usize(&self) -> (r: usize)
        ensures
            r == self.y_position,
    {
        self.y_position as usize
    }

    /// Computes the Manhattan distance between this and the given position.
    pub fn manhattan_distance(&self, other: Coordinates) -> (r: u16)
        requires
            self.wf(),
            other.wf(),
        ensures
            r == self.spec_manhattan(other),
    {
        let x_distance: u16 = if self.x_position >= other.x_position {
            self.x_position - other.x_position
        } else {
            other.x_position - self.x_position
        };
        let y_distance: u16 = if self.y_position >= other.y_position {
            self.y_position - other.y_position
        } else {
            other.y_position - self.y_position
        };
        x_distance + y_distance
    }
}

impl Default for Coordinates {
    /// The origin tile.
    fn default() -> (r: Self)
        ensures
            r.x_position == 0 && r.y_position == 0,
            r.wf(),
    {
        Coordinates { x_position: 0, y_position: 0 }
    }
}

} // verus!
