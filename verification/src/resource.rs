//! Depletable food units, one per occupied tile.
//!
//! Consuming takes one unit; when the last unit is taken the call signals
//! depletion and the caller removes the tile's entry, so a resource that is
//! stored in the world always has at least one unit left.

use vstd::prelude::*;

use crate::ant_settings::DEFAULT_RESOURCE_SIZE;

verus! {

/// Whether the resource cell `a` holds no more food than `b`: food is only
/// ever eaten, so every tile's cell shrinks in this order over a tick.
pub open spec fn spec_cell_le(a: Option<Resource>, b: Option<Resource>) -> bool {
    match a {
        Option::None => true,
        Option::Some(ra) => match b {
            Option::Some(rb) => ra.resources_remaining <= rb.resources_remaining,
            Option::None => false,
        },
    }
}

/// A tile's worth of food that ants can consume unit by unit.
#[derive(Copy, Clone, PartialEq, Eq, Structural, Debug)]
pub struct Resource {
    pub resources_remaining: u8,
}

impl Resource {
    /// Creates a resource holding the given number of units, failing on zero:
    /// a depleted resource is never stored, it is removed.
    pub fn new(resources_remaining: u8) -> (r: Option<Resource>)
        ensures
            r is Some <==> resources_remaining >= 1,
            r matches Some(res) ==> res.resources_remaining == resources_remaining,
    {
        if resources_remaining == 0 {
            return None;
        }
        Some(Resource { resources_remaining })
    }

    /// Takes one unit. Returns the new count while units remain; returns
    /// `None` — the depletion signal — when the last unit is taken, upon
    /// which the caller must clear the tile. Never underflows.
    pub fn consume(&mut self) -> (r: Option<u8>)
        ensures
            final(self).resources_remaining == if old(self).resources_remaining >= 1 {
                old(self).resources_remaining - 1
            } else {
                0
            },
            r == if old(self).resources_remaining > 1 {
                Some((old(self).resources_remaining - 1) as u8)
            } else {
                Option::<u8>::None
            },
    {
        if self.resources_remaining >= 1 {
            self.resources_remaining = self.resources_remaining - 1;
        }
        if self.resources_remaining > 0 {
            Some(self.resources_remaining)
        } else {
            None
        }
    }

    /// Returns the number of units left.
    pub fn get_remaining(&self) -> (r: u8)
        ensures
            r == self.resources_remaining,
    {
        self.resources_remaining
    }
}

impl Default for Resource {
    /// A fresh resource of the default size.
    fn default() -> (r: Self)
        ensures
            r.resources_remaining == DEFAULT_RESOURCE_SIZE,
    {
        Resource { resources_remaining: DEFAULT_RESOURCE_SIZE }
    }
}

} // verus!
