//! Fixed world geometry and the default values of every tunable parameter.
//!
//! The grid dimensions and the pheromone strength ceiling are fixed constants:
//! the `Coordinates` and `Pheromone` invariants are stated against them.
//! Everything else is only a default, collected into a [`crate::config::Config`]
//! value at construction time.
//!
//! Probabilities are expressed in per-mille (a value of 900 means a 90%
//! chance), so that they stay exact integers.

use vstd::prelude::*;

verus! {

/// The width of the world in tiles; valid x positions are `0 .. WORLD_WIDTH`.
pub const WORLD_WIDTH: u16 = 64;
/// The height of the world in tiles; valid y positions are `0 .. WORLD_HEIGHT`.
pub const WORLD_HEIGHT: u16 = 64;

/// The number of distinct pheromone kinds (one grid layer per kind).
pub const PHEROMONE_TYPES_COUNT: usize = 2;

/// The maximum strength that a pheromone can ever hold.
pub const MAXIMUM_PHEROMONE_STRENGTH: u16 = 1000;
/// The default per-tick strength loss of exploration pheromones.
pub const DEFAULT_EXPLORATION_PHEROMONE_DECAY_RATE: u16 = 5;
/// The default per-tick strength loss of resource pheromones.
/// Resource trails fade quicker, so stale food reports clear sooner.
pub const DEFAULT_RESOURCE_PHEROMONE_DECAY_RATE: u16 = 10;

/// The default chance (per-mille) of a returning scout following pheromones.
pub const SCOUT_RETURN_PHEROMONE_CHANCE_PERMILLE: u16 = 900;
/// The default chance (per-mille) of a worker following pheromones.
pub const WORKER_PHEROMONE_CHANCE_PERMILLE: u16 = 900;
/// The default chance (per-mille) of allowing a backwards step while moving randomly.
pub const ANT_BACKWARDS_CHANCE_PERMILLE: u16 = 100;

/// The default number of scouts a colony aims to keep alive.
pub const DEFAULT_COLONY_SCOUT_SIZE: u16 = 25;
/// The default number of workers a colony aims to keep alive.
pub const DEFAULT_COLONY_WORKER_SIZE: u16 = 10;
/// The default number of ants a colony may spawn per tick.
pub const DEFAULT_COLONY_SPAWN_RATE: u16 = 2;
/// The default radius (in tiles) that scouts consider home territory.
pub const DEFAULT_TERRITORY_SIZE: u16 = 0;

/// The default amount of food held by a freshly placed resource.
pub const DEFAULT_RESOURCE_SIZE: u8 = 20;
/// The default number of resource tiles placed at world construction.
pub const DEFAULT_RESOURCE_COUNT: u8 = 5;

/// The default number of steps an ant takes before its journey times out.
pub const DEFAULT_MAX_ANT_STEPS: u16 = 1000;

/// The scale that all chance values are expressed in: 1000 = certainty.
pub const PERMILLE: u16 = 1000;

} // verus!
