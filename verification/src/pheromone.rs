//! Decaying scalar markers laid on tiles by ants.
//!
//! A pheromone has a kind, a strength capped at
//! [`MAXIMUM_PHEROMONE_STRENGTH`], and a fixed per-tick decay rate.
//! Refreshing saturates at the cap; ticking subtracts the decay rate,
//! clamping at zero, and reports whether the marker is still alive.

use vstd::prelude::*;

use crate::ant_settings::{
    DEFAULT_EXPLORATION_PHEROMONE_DECAY_RATE, DEFAULT_RESOURCE_PHEROMONE_DECAY_RATE,
    MAXIMUM_PHEROMONE_STRENGTH, PHEROMONE_TYPES_COUNT,
};

verus! {

/// The two independent pheromone layers.
///
/// * `Exploration` — laid by scouts while outbound, marking paths explored.
/// * `Resource` — laid by any ant that has found food, marking a path to it.
#[derive(Copy, Clone, PartialEq, Eq, Structural, Debug)]
pub enum PheromoneType {
    Exploration,
    Resource,
}

impl PheromoneType {
    /// The layer index of this kind, as a mathematical integer.
    pub open spec fn spec_index(self) -> int {
        match self {
            PheromoneType::Resource => 0,
            PheromoneType::Exploration => 1,
        }
    }

    /// Returns the index of this kind's layer in the per-tile pheromone store.
    pub fn as_pheromone_index(&self) -> (r: usize)
        ensures
            r == self.spec_index(),
            r < PHEROMONE_TYPES_COUNT,
    {
        match self {
            PheromoneType::Resource => 0,
            PheromoneType::Exploration => 1,
        }
    }
}

/// Whether the pheromone cell `a` carries at least the marker of `b`: the
/// same kind and decay rate, at no less strength. During the agent phase of
/// a tick every cell only grows in this order — markers are laid and
/// refreshed, never weakened — so a trail stays visible until the decay
/// phase.
pub open spec fn spec_marker_ge(a: Option<Pheromone>, b: Option<Pheromone>) -> bool {
    match b {
        Option::None => true,
        Option::Some(p) => match a {
            Option::Some(q) => q.kind == p.kind && q.decay_rate == p.decay_rate
                && q.strength >= p.strength,
            Option::None => false,
        },
    }
}

/// Whether a marker that outweighed its own decay rate before a tick is
/// still present after it, with its kind and rate intact and at no less
/// than its old strength minus one decay step. This is the point of the
/// two-phase tick order: agents act before pheromones decay, so a live
/// trail never vanishes within the tick that laid or saw it.
pub open spec fn spec_trail_kept(before: Option<Pheromone>, after: Option<Pheromone>) -> bool {
    match before {
        Option::Some(p) => p.strength > p.decay_rate ==> (match after {
            Option::Some(q) => q.kind == p.kind && q.decay_rate == p.decay_rate
                && q.strength >= p.strength - p.decay_rate,
            Option::None => false,
        }),
        Option::None => true,
    }
}

/// Whether a pheromone cell shows the mark of this tick's decay sweep: an
/// empty cell, or a live marker whose strength leaves room for the decay
/// step it just took — it cannot sit at the cap, and it cannot be zero,
/// since a marker that decays to nothing is evicted in the same tick.
pub open spec fn spec_decayed_once(cell: Option<Pheromone>) -> bool {
    match cell {
        Option::Some(q) => 0 < q.strength
            && q.strength + q.decay_rate <= MAXIMUM_PHEROMONE_STRENGTH,
        Option::None => true,
    }
}

/// A single marker laid by ants, decaying once per world tick.
#[derive(Copy, Clone, PartialEq, Eq, Structural, Debug)]
pub struct Pheromone {
    /// The current strength; never exceeds [`MAXIMUM_PHEROMONE_STRENGTH`].
    pub strength: u16,
    /// How much the strength drops per tick; fixed per kind at creation.
    pub decay_rate: u16,
    /// Which layer this marker belongs to.
    pub kind: PheromoneType,
}

impl Pheromone {
    /// Holds when the strength respects the global cap.
    pub open spec fn wf(self) -> bool {
        self.strength <= MAXIMUM_PHEROMONE_STRENGTH
    }

    /// The strength after one tick of decay.
    pub open spec fn spec_ticked_strength(self) -> int {
        if self.strength >= self.decay_rate {
            self.strength - self.decay_rate
        } else {
            0
        }
    }

    /// The strength after refreshing by `amount`: a saturating add, capped
    /// at [`MAXIMUM_PHEROMONE_STRENGTH`].
    pub open spec fn spec_refreshed_strength(self, amount: int) -> int {
        if self.strength + amount <= MAXIMUM_PHEROMONE_STRENGTH {
            self.strength + amount
        } else {
            MAXIMUM_PHEROMONE_STRENGTH as int
        }
    }

    /// The default decay rate of the given kind.
    pub open spec fn spec_default_decay_rate(kind: PheromoneType) -> u16 {
        match kind {
            PheromoneType::Exploration => DEFAULT_EXPLORATION_PHEROMONE_DECAY_RATE,
            PheromoneType::Resource => DEFAULT_RESOURCE_PHEROMONE_DECAY_RATE,
        }
    }

    /// Creates a new pheromone, failing if the strength exceeds the cap or
    /// is below the decay rate.
    pub fn new(strength: u16, decay_rate: u16, kind: PheromoneType) -> (r: Option<Pheromone>)
        ensures
            r is Some <==> (strength <= MAXIMUM_PHEROMONE_STRENGTH && decay_rate <= strength),
            r matches Some(p) ==> p == (Pheromone { strength, decay_rate, kind }) && p.wf(),
    {
        if MAXIMUM_PHEROMONE_STRENGTH < strength || strength < decay_rate {
            return None;
        }
        Some(Pheromone { strength, decay_rate, kind })
    }

    /// Creates a pheromone of the given kind at full strength, with that
    /// kind's default decay rate.
    pub fn default(kind: PheromoneType) -> (r: Pheromone)
        ensures
            r == (Pheromone {
                strength: MAXIMUM_PHEROMONE_STRENGTH,
                decay_rate: Pheromone::spec_default_decay_rate(kind),
                kind,
            }),
            r.wf(),
    {
        let decay_rate: u16 = match kind {
            PheromoneType::Exploration => DEFAULT_EXPLORATION_PHEROMONE_DECAY_RATE,
            PheromoneType::Resource => DEFAULT_RESOURCE_PHEROMONE_DECAY_RATE,
        };
        Pheromone { strength: MAXIMUM_PHEROMONE_STRENGTH, decay_rate, kind }
    }

    /// Creates a pheromone of the given kind at full strength, with the
    /// given decay rate.
    pub fn default_with_rate(kind: PheromoneType, decay_rate: u16) -> (r: Pheromone)
        requires
            decay_rate <= MAXIMUM_PHEROMONE_STRENGTH,
        ensures
            r == (Pheromone { strength: MAXIMUM_PHEROMONE_STRENGTH, decay_rate, kind }),
            r.wf(),
    {
        Pheromone { strength: MAXIMUM_PHEROMONE_STRENGTH, decay_rate, kind }
    }

    /// Creates a default exploration pheromone at full strength.
    pub fn default_exploration() -> (r: Pheromone)
        ensures
            r == (Pheromone {
                strength: MAXIMUM_PHEROMONE_STRENGTH,
                decay_rate: DEFAULT_EXPLORATION_PHEROMONE_DECAY_RATE,
                kind: PheromoneType::Exploration,
            }),
            r.wf(),
    {
        Pheromone {
            strength: MAXIMUM_PHEROMONE_STRENGTH,
            decay_rate: DEFAULT_EXPLORATION_PHEROMONE_DECAY_RATE,
            kind: PheromoneType::Exploration,
        }
    }

    /// Creates a default resource pheromone at full strength.
    pub fn default_resource() -> (r: Pheromone)
        ensures
            r == (Pheromone {
                strength: MAXIMUM_PHEROMONE_STRENGTH,
                decay_rate: DEFAULT_RESOURCE_PHEROMONE_DECAY_RATE,
                kind: PheromoneType::Resource,
            }),
            r.wf(),
    {
        Pheromone {
            strength: MAXIMUM_PHEROMONE_STRENGTH,
            decay_rate: DEFAULT_RESOURCE_PHEROMONE_DECAY_RATE,
            kind: PheromoneType::Resource,
        }
    }

    /// Increments the strength by the given amount, saturating at the cap.
    /// Never exceeds [`MAXIMUM_PHEROMONE_STRENGTH`], whatever the amount.
    pub fn refresh(&mut self, strength: u16)
        ensures
            final(self).strength == old(self).spec_refreshed_strength(strength as int),
            final(self).strength <= MAXIMUM_PHEROMONE_STRENGTH,
            final(self).decay_rate == old(self).decay_rate,
            final(self).kind == old(self).kind,
            final(self).wf(),
    {
        if let Some(sum) = self.strength.checked_add(strength) {
            if sum <= MAXIMUM_PHEROMONE_STRENGTH {
                self.strength = sum;
                return;
            }
        }
        self.strength = MAXIMUM_PHEROMONE_STRENGTH;
    }

    /// Reduces the strength by the decay rate for one tick, clamping at
    /// zero, and reports whether the pheromone is still alive. When it
    /// returns `false` the caller must evict the marker; further calls keep
    /// returning `(0, false)` without underflow.
    pub fn update(&mut self) -> (alive: bool)
        ensures
            final(self).strength == old(self).spec_ticked_strength(),
            final(self).decay_rate == old(self).decay_rate,
            final(self).kind == old(self).kind,
            alive == (final(self).strength > 0),
            old(self).wf() ==> final(self).wf(),
    {
        if let Some(reduced) = self.strength.checked_sub(self.decay_rate) {
            self.strength = reduced;
        } else {
            self.strength = 0;
        }
        self.strength > 0
    }

    /// Returns a copy of the pheromone's current strength.
    pub fn get_strength(&self) -> (r: u16)
        ensures
            r == self.strength,
    {
        self.strength
    }
}

} // verus!
