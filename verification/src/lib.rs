//! An ant-colony foraging simulation on a bounded 2D grid, driven by
//! pheromone-trail reinforcement.
//!
//! The engine advances in discrete ticks: each colony spawns new ants under
//! a per-tick quota and moves every ant it holds — consuming food, laying
//! and refreshing pheromones — and then every pheromone decays once, with
//! expired markers evicted. Dense per-tile grids give O(1) point lookup;
//! sparse index lists give iteration over the few active tiles, and the two
//! are proved to stay consistent at every step.

pub mod ant;
pub mod ant_settings;
pub mod colony;
pub mod config;
pub mod coords;
pub mod grid;
pub mod pheromone;
pub mod resource;
pub mod rng;
pub mod world;
