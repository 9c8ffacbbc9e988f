//! The immutable configuration consumed at world construction.
//!
//! Every behavioural parameter of the engine lives here, with the values of
//! [`crate::ant_settings`] as defaults. The grid dimensions and the pheromone
//! strength cap are fixed constants instead, because type invariants are
//! stated against them. Chances are per-mille: 0 never, 1000 always.

use vstd::prelude::*;

use crate::ant_settings::{
    ANT_BACKWARDS_CHANCE_PERMILLE, DEFAULT_COLONY_SCOUT_SIZE, DEFAULT_COLONY_WORKER_SIZE,
    DEFAULT_EXPLORATION_PHEROMONE_DECAY_RATE, DEFAULT_MAX_ANT_STEPS, DEFAULT_RESOURCE_COUNT,
    DEFAULT_RESOURCE_PHEROMONE_DECAY_RATE, DEFAULT_RESOURCE_SIZE, DEFAULT_TERRITORY_SIZE,
    MAXIMUM_PHEROMONE_STRENGTH, PERMILLE, SCOUT_RETURN_PHEROMONE_CHANCE_PERMILLE,
    WORKER_PHEROMONE_CHANCE_PERMILLE,
};

verus! {

/// All tunable parameters of a simulation run, fixed at construction.
#[derive(Copy, Clone, PartialEq, Eq, Structural, Debug)]
pub struct Config {
    /// The number of scouts a colony aims to keep alive.
    pub scout_cap: u16,
    /// The number of workers a colony aims to keep alive.
    pub worker_cap: u16,
    /// Steps an ant may take before its journey times out.
    pub max_ant_steps: u16,
    /// Radius (in tiles) that scouts consider home territory.
    pub territory_size: u16,
    /// Chance (per-mille) of a returning scout following pheromones.
    pub scout_return_chance: u16,
    /// Chance (per-mille) of a worker following pheromones.
    pub worker_chance: u16,
    /// Chance (per-mille) of allowing a backwards random step.
    pub backwards_chance: u16,
    /// Per-tick strength loss of exploration pheromones.
    pub exploration_decay_rate: u16,
    /// Per-tick strength loss of resource pheromones.
    pub resource_decay_rate: u16,
    /// Units of food in a freshly placed resource.
    pub resource_size: u8,
    /// Resource tiles placed at world construction.
    pub resource_count: u8,
}

impl Config {
    /// Holds when every parameter is usable: chances fit the per-mille
    /// scale, decay rates do not exceed the strength cap (so that a fresh
    /// pheromone is well formed), resources hold at least one unit, and the
    /// step counter cannot overflow.
    pub open spec fn wf(self) -> bool {
        &&& self.scout_return_chance <= PERMILLE
        &&& self.worker_chance <= PERMILLE
        &&& self.backwards_chance <= PERMILLE
        &&& self.exploration_decay_rate <= MAXIMUM_PHEROMONE_STRENGTH
        &&& self.resource_decay_rate <= MAXIMUM_PHEROMONE_STRENGTH
        &&& self.resource_size >= 1
        &&& self.max_ant_steps < u16::MAX
    }

    /// The decay rate this configuration gives to a fresh pheromone of the
    /// given kind.
    pub open spec fn spec_decay_rate(self, kind: crate::pheromone::PheromoneType) -> u16 {
        match kind {
            crate::pheromone::PheromoneType::Exploration => self.exploration_decay_rate,
            crate::pheromone::PheromoneType::Resource => self.resource_decay_rate,
        }
    }

    /// The default parameter set, as a mathematical value.
    pub open spec fn spec_default() -> Config {
        Config {
            scout_cap: DEFAULT_COLONY_SCOUT_SIZE,
            worker_cap: DEFAULT_COLONY_WORKER_SIZE,
            max_ant_steps: DEFAULT_MAX_ANT_STEPS,
            territory_size: DEFAULT_TERRITORY_SIZE,
            scout_return_chance: SCOUT_RETURN_PHEROMONE_CHANCE_PERMILLE,
            worker_chance: WORKER_PHEROMONE_CHANCE_PERMILLE,
            backwards_chance: ANT_BACKWARDS_CHANCE_PERMILLE,
            exploration_decay_rate: DEFAULT_EXPLORATION_PHEROMONE_DECAY_RATE,
            resource_decay_rate: DEFAULT_RESOURCE_PHEROMONE_DECAY_RATE,
            resource_size: DEFAULT_RESOURCE_SIZE,
            resource_count: DEFAULT_RESOURCE_COUNT,
        }
    }
}

impl Default for Config {
    /// The default parameter set from [`crate::ant_settings`].
    fn default() -> (r: Self)
        ensures
            r == Config::spec_default(),
            r.wf(),
    {
        Config {
            scout_cap: DEFAULT_COLONY_SCOUT_SIZE,
            worker_cap: DEFAULT_COLONY_WORKER_SIZE,
            max_ant_steps: DEFAULT_MAX_ANT_STEPS,
            territory_size: DEFAULT_TERRITORY_SIZE,
            scout_return_chance: SCOUT_RETURN_PHEROMONE_CHANCE_PERMILLE,
            worker_chance: WORKER_PHEROMONE_CHANCE_PERMILLE,
            backwards_chance: ANT_BACKWARDS_CHANCE_PERMILLE,
            exploration_decay_rate: DEFAULT_EXPLORATION_PHEROMONE_DECAY_RATE,
            resource_decay_rate: DEFAULT_RESOURCE_PHEROMONE_DECAY_RATE,
            resource_size: DEFAULT_RESOURCE_SIZE,
            resource_count: DEFAULT_RESOURCE_COUNT,
        }
    }
}

} // verus!
