//! A population container and spawn-quota allocator for ants.
//!
//! Each tick a colony first spawns new ants — distributing its fixed
//! per-tick spawn rate across the under-filled kinds in proportion to how
//! many ants each kind is missing — and then updates every ant it holds.
//! Spawning never pushes a kind's population above its configured cap.

use vstd::prelude::*;

use crate::ant::{Ant, AntType};
use crate::ant_settings::{DEFAULT_COLONY_SPAWN_RATE, WORLD_HEIGHT, WORLD_WIDTH};
use crate::config::Config;
use crate::coords::Coordinates;
use crate::grid::{PheromoneField, ResourceField};
use crate::pheromone::{spec_marker_ge, PheromoneType};
use crate::resource::spec_cell_le;

verus! {

/// How many ants a kind is missing: the cap minus the current count, when
/// positive.
pub open spec fn spec_required(count: int, cap: int) -> int {
    if count < cap {
        cap - count
    } else {
        0
    }
}

/// The share of the spawn rate a kind receives: its requirement's
/// proportion of the total requirement, rounded down, and never more than
/// the requirement itself — so the cap cannot be overshot, whatever the
/// spawn rate.
pub open spec fn spec_quota(required: int, rate: int, total: int) -> int {
    if required > 0 && total > 0 {
        let share = required * rate / total;
        if share < required {
            share
        } else {
            required
        }
    } else {
        0
    }
}

/// What one tick does to a colony's own state: position and spawn rate are
/// kept; each kind grows by exactly its spawn quota, and a population at or
/// under its cap stays there; every ant that already existed keeps its kind
/// and anchor and stands exactly one tile from where it stood; and every
/// ant spawned this tick is anchored at the colony and stands one tile from
/// it, having taken its first step.
pub open spec fn spec_colony_ticked(before: Colony, after: Colony, config: Config) -> bool {
    let req_s = spec_required(before.spec_count(AntType::Scout), config.scout_cap as int);
    let req_w = spec_required(before.spec_count(AntType::Worker), config.worker_cap as int);
    let total = req_s + req_w;
    &&& after.position == before.position
    &&& after.spawn_rate == before.spawn_rate
    &&& after.spec_count(AntType::Scout) == before.spec_count(AntType::Scout)
        + spec_quota(req_s, before.spawn_rate as int, total)
    &&& after.spec_count(AntType::Worker) == before.spec_count(AntType::Worker)
        + spec_quota(req_w, before.spawn_rate as int, total)
    &&& (before.spec_count(AntType::Scout) <= config.scout_cap
        ==> after.spec_count(AntType::Scout) <= config.scout_cap)
    &&& (before.spec_count(AntType::Worker) <= config.worker_cap
        ==> after.spec_count(AntType::Worker) <= config.worker_cap)
    &&& forall|j: int| 0 <= j < before.scouts@.len()
        ==> (#[trigger] after.scouts@[j]).ant_type == before.scouts@[j].ant_type
            && after.scouts@[j].colony_anchor == before.scouts@[j].colony_anchor
            && before.scouts@[j].position.spec_manhattan(after.scouts@[j].position) == 1
    &&& forall|j: int| before.scouts@.len() <= j < after.scouts@.len()
        ==> (#[trigger] after.scouts@[j]).ant_type is Scout
            && after.scouts@[j].colony_anchor == before.position
            && before.position.spec_manhattan(after.scouts@[j].position) == 1
    &&& forall|j: int| 0 <= j < before.workers@.len()
        ==> (#[trigger] after.workers@[j]).ant_type == before.workers@[j].ant_type
            && after.workers@[j].colony_anchor == before.workers@[j].colony_anchor
            && before.workers@[j].position.spec_manhattan(after.workers@[j].position) == 1
    &&& forall|j: int| before.workers@.len() <= j < after.workers@.len()
        ==> (#[trigger] after.workers@[j]).ant_type is Worker
            && after.workers@[j].colony_anchor == before.position
            && before.position.spec_manhattan(after.workers@[j].position) == 1
}

/// A container for a group of ants, occupying one tile.
pub struct Colony {
    /// The coordinates of the colony.
    pub position: Coordinates,
    /// All scouts of the colony.
    pub scouts: Vec<Ant>,
    /// All workers of the colony.
    pub workers: Vec<Ant>,
    /// The maximum number of ants spawned per tick.
    pub spawn_rate: u16,
}

impl Colony {
    /// The number of ants of the given kind.
    pub open spec fn spec_count(self, kind: AntType) -> int {
        match kind {
            AntType::Scout => self.scouts@.len() as int,
            AntType::Worker => self.workers@.len() as int,
        }
    }

    /// The position is on the grid and every ant is well formed, stored
    /// under its own kind.
    pub open spec fn wf(self) -> bool {
        &&& self.position.wf()
        &&& forall|i: int| 0 <= i < self.scouts@.len()
            ==> (#[trigger] self.scouts@[i]).wf() && self.scouts@[i].ant_type is Scout
        &&& forall|i: int| 0 <= i < self.workers@.len()
            ==> (#[trigger] self.workers@[i]).wf() && self.workers@[i].ant_type is Worker
    }

    /// Builds a new empty colony at the given position, with the default
    /// spawn rate.
    pub fn new(position: Coordinates) -> (r: Colony)
        requires
            position.wf(),
        ensures
            r.wf(),
            r.position == position,
            r.scouts@.len() == 0,
            r.workers@.len() == 0,
            r.spawn_rate == DEFAULT_COLONY_SPAWN_RATE,
    {
        Colony { position, scouts: Vec::new(), workers: Vec::new(), spawn_rate: DEFAULT_COLONY_SPAWN_RATE }
    }

    /// Builds a new empty colony with the given spawn rate.
    pub fn new_with_spawn_rate(position: Coordinates, spawn_rate: u16) -> (r: Colony)
        requires
            position.wf(),
        ensures
            r.wf(),
            r.position == position,
            r.scouts@.len() == 0,
            r.workers@.len() == 0,
            r.spawn_rate == spawn_rate,
    {
        Colony { position, scouts: Vec::new(), workers: Vec::new(), spawn_rate }
    }

    /// Returns a copy of the colony position.
    pub fn get_position(&self) -> (r: Coordinates)
        ensures
            r == self.position,
    {
        self.position
    }

    /// The number of ants of the given kind.
    pub fn ant_count(&self, kind: AntType) -> (r: usize)
        ensures
            r == self.spec_count(kind),
    {
        match kind {
            AntType::Scout => self.scouts.len(),
            AntType::Worker => self.workers.len(),
        }
    }

    /// One kind's share of this tick's spawn budget.
    fn spawn_share(required: u16, rate: u16, total: u32) -> (r: u16)
        requires
            total > 0,
        ensures
            r == spec_quota(required as int, rate as int, total as int),
            r <= required,
    {
        if required == 0 {
            return 0;
        }
        proof {
            assert(required as int * rate as int <= 65535 * 65535) by (nonlinear_arith)
                requires
                    required as int <= 65535,
                    rate as int <= 65535,
            ;
        }
        let product: u64 = required as u64 * rate as u64;
        let share: u64 = product / total as u64;
        if share < required as u64 {
            share as u16
        } else {
            required
        }
    }

    /// Spawns this tick's quota of ants: the spawn rate is split across the
    /// under-filled kinds in proportion to each kind's missing count, each
    /// new ant starting fresh at the colony position. A kind at or above
    /// its cap receives nothing, so spawning never lifts a count above the
    /// cap.
    fn spawn_ants(&mut self, config: &Config)
        requires
            old(self).wf(),
            config.wf(),
        ensures
            final(self).wf(),
            final(self).position == old(self).position,
            final(self).spawn_rate == old(self).spawn_rate,
            ({
                let req_s = spec_required(old(self).spec_count(AntType::Scout),
                    config.scout_cap as int);
                let req_w = spec_required(old(self).spec_count(AntType::Worker),
                    config.worker_cap as int);
                let total = req_s + req_w;
                &&& final(self).spec_count(AntType::Scout)
                    == old(self).spec_count(AntType::Scout)
                        + spec_quota(req_s, old(self).spawn_rate as int, total)
                &&& final(self).spec_count(AntType::Worker)
                    == old(self).spec_count(AntType::Worker)
                        + spec_quota(req_w, old(self).spawn_rate as int, total)
            }),
            forall|i: int| 0 <= i < old(self).scouts@.len()
                ==> #[trigger] final(self).scouts@[i] == old(self).scouts@[i],
            forall|i: int| 0 <= i < old(self).workers@.len()
                ==> #[trigger] final(self).workers@[i] == old(self).workers@[i],
            forall|i: int| old(self).scouts@.len() <= i < final(self).scouts@.len()
                ==> (#[trigger] final(self).scouts@[i]).position == old(self).position
                    && final(self).scouts@[i].steps_on_journey == 0
                    && !final(self).scouts@[i].is_returning
                    && !final(self).scouts@[i].found_food
                    && final(self).scouts@[i].colony_anchor == old(self).position,
            forall|i: int| old(self).workers@.len() <= i < final(self).workers@.len()
                ==> (#[trigger] final(self).workers@[i]).position == old(self).position
                    && final(self).workers@[i].steps_on_journey == 0
                    && !final(self).workers@[i].is_returning
                    && !final(self).workers@[i].found_food
                    && final(self).workers@[i].colony_anchor == old(self).position,
            old(self).spec_count(AntType::Scout) <= config.scout_cap
                ==> final(self).spec_count(AntType::Scout) <= config.scout_cap,
            old(self).spec_count(AntType::Worker) <= config.worker_cap
                ==> final(self).spec_count(AntType::Worker) <= config.worker_cap,
    {
        let required_scouts: u16 = if self.scouts.len() < config.scout_cap as usize {
            config.scout_cap - self.scouts.len() as u16
        } else {
            0
        };
        let required_workers: u16 = if self.workers.len() < config.worker_cap as usize {
            config.worker_cap - self.workers.len() as u16
        } else {
            0
        };
        let total: u32 = required_scouts as u32 + required_workers as u32;
        if total == 0 {
            return;
        }
        let quota_scouts = Self::spawn_share(required_scouts, self.spawn_rate, total);
        let quota_workers = Self::spawn_share(required_workers, self.spawn_rate, total);
        let ghost after_spawn_math = *self;
        let mut spawned: u16 = 0;
        while spawned < quota_scouts
            invariant
                spawned <= quota_scouts,
                self.position == after_spawn_math.position,
                self.position.wf(),
                self.spawn_rate == after_spawn_math.spawn_rate,
                self.workers == after_spawn_math.workers,
                self.scouts@.len() == after_spawn_math.scouts@.len() + spawned,
                forall|i: int| 0 <= i < after_spawn_math.scouts@.len()
                    ==> #[trigger] self.scouts@[i] == after_spawn_math.scouts@[i],
                forall|i: int| after_spawn_math.scouts@.len() <= i < self.scouts@.len()
                    ==> (#[trigger] self.scouts@[i]).wf()
                        && self.scouts@[i].ant_type is Scout
                        && self.scouts@[i].position == after_spawn_math.position
                        && self.scouts@[i].colony_anchor == after_spawn_math.position
                        && self.scouts@[i].steps_on_journey == 0
                        && !self.scouts@[i].is_returning
                        && !self.scouts@[i].found_food,
            decreases quota_scouts - spawned,
        {
            let ant = Ant::new(AntType::Scout, self.position, self.position);
            self.scouts.push(ant);
            spawned = spawned + 1;
        }
        let ghost after_scouts = *self;
        let mut spawned_workers: u16 = 0;
        while spawned_workers < quota_workers
            invariant
                spawned_workers <= quota_workers,
                self.position == after_scouts.position,
                self.position.wf(),
                self.spawn_rate == after_scouts.spawn_rate,
                self.scouts == after_scouts.scouts,
                self.workers@.len() == after_scouts.workers@.len() + spawned_workers,
                forall|i: int| 0 <= i < after_scouts.workers@.len()
                    ==> #[trigger] self.workers@[i] == after_scouts.workers@[i],
                forall|i: int| after_scouts.workers@.len() <= i < self.workers@.len()
                    ==> (#[trigger] self.workers@[i]).wf()
                        && self.workers@[i].ant_type is Worker
                        && self.workers@[i].position == after_scouts.position
                        && self.workers@[i].colony_anchor == after_scouts.position
                        && self.workers@[i].steps_on_journey == 0
                        && !self.workers@[i].is_returning
                        && !self.workers@[i].found_food,
            decreases quota_workers - spawned_workers,
        {
            let ant = Ant::new(AntType::Worker, self.position, self.position);
            self.workers.push(ant);
            spawned_workers = spawned_workers + 1;
        }
    }

    /// Executes one tick for this colony: spawns this tick's quota of new
    /// ants, then runs one step for every ant of every kind, the ants
    /// spawned this tick included. The whole per-tick effect on the colony
    /// is [`spec_colony_ticked`]: position and spawn rate kept, each kind
    /// grown by exactly its quota and never past its cap, and every ant —
    /// old or new — standing exactly one tile from where it started, kind
    /// and anchor intact. Food is only ever eaten, and no pheromone
    /// anywhere weakens: the agent phase lays and refreshes markers, never
    /// decays them.
    pub fn update(
        &mut self,
        resources: &mut ResourceField,
        pheromones: &mut PheromoneField,
        config: &Config,
    )
        requires
            old(self).wf(),
            old(resources).wf(),
            old(pheromones).wf(),
            config.wf(),
        ensures
            final(self).wf(),
            final(resources).wf(),
            final(pheromones).wf(),
            spec_colony_ticked(*old(self), *final(self), *config),
            forall|c2: Coordinates| c2.wf()
                ==> spec_cell_le(#[trigger] final(resources).spec_get(c2),
                    old(resources).spec_get(c2)),
            forall|c2: Coordinates, k2: PheromoneType| c2.wf()
                ==> spec_marker_ge(#[trigger] final(pheromones).spec_get(c2, k2),
                    old(pheromones).spec_get(c2, k2)),
    {
        let ghost orig_res = *old(resources);
        let ghost orig_phe = *old(pheromones);
        self.spawn_ants(config);
        let ghost after_spawn = *self;
        let mut i: usize = 0;
        while i < self.scouts.len()
            invariant
                after_spawn.wf(),
                resources.wf(),
                pheromones.wf(),
                config.wf(),
                i <= self.scouts@.len(),
                self.position == after_spawn.position,
                self.position.wf(),
                self.spawn_rate == after_spawn.spawn_rate,
                self.workers == after_spawn.workers,
                self.scouts@.len() == after_spawn.scouts@.len(),
                forall|j: int| 0 <= j < self.scouts@.len()
                    ==> (#[trigger] self.scouts@[j]).wf()
                        && self.scouts@[j].ant_type is Scout,
                forall|j: int| 0 <= j < i
                    ==> (#[trigger] self.scouts@[j]).ant_type
                            == after_spawn.scouts@[j].ant_type
                        && self.scouts@[j].colony_anchor
                            == after_spawn.scouts@[j].colony_anchor
                        && after_spawn.scouts@[j].position.spec_manhattan(
                            self.scouts@[j].position) == 1,
                forall|j: int| i <= j < self.scouts@.len()
                    ==> #[trigger] self.scouts@[j] == after_spawn.scouts@[j],
                forall|c2: Coordinates| c2.wf()
                    ==> spec_cell_le(#[trigger] resources.spec_get(c2),
                        orig_res.spec_get(c2)),
                forall|c2: Coordinates, k2: PheromoneType| c2.wf()
                    ==> spec_marker_ge(#[trigger] pheromones.spec_get(c2, k2),
                        orig_phe.spec_get(c2, k2)),
            decreases self.scouts@.len() - i,
        {
            let ghost res_pre = *resources;
            let ghost phe_pre = *pheromones;
            let mut ant = self.scouts[i];
            ant.update(resources, pheromones, config);
            self.scouts.set(i, ant);
            proof {
                assert forall|c2: Coordinates| c2.wf()
                    implies spec_cell_le(#[trigger] resources.spec_get(c2),
                        orig_res.spec_get(c2)) by {
                    assert(spec_cell_le(resources.spec_get(c2), res_pre.spec_get(c2)));
                    assert(spec_cell_le(res_pre.spec_get(c2), orig_res.spec_get(c2)));
                }
                assert forall|c2: Coordinates, k2: PheromoneType| c2.wf()
                    implies spec_marker_ge(#[trigger] pheromones.spec_get(c2, k2),
                        orig_phe.spec_get(c2, k2)) by {
                    assert(spec_marker_ge(pheromones.spec_get(c2, k2),
                        phe_pre.spec_get(c2, k2)));
                    assert(spec_marker_ge(phe_pre.spec_get(c2, k2),
                        orig_phe.spec_get(c2, k2)));
                }
            }
            i = i + 1;
        }
        let ghost after_scout_moves = *self;
        let mut i: usize = 0;
        while i < self.workers.len()
            invariant
                after_scout_moves.wf(),
                resources.wf(),
                pheromones.wf(),
                config.wf(),
                i <= self.workers@.len(),
                self.position == after_scout_moves.position,
                self.position.wf(),
                self.spawn_rate == after_scout_moves.spawn_rate,
                self.scouts == after_scout_moves.scouts,
                self.workers@.len() == after_scout_moves.workers@.len(),
                forall|j: int| 0 <= j < self.workers@.len()
                    ==> (#[trigger] self.workers@[j]).wf()
                        && self.workers@[j].ant_type is Worker,
                forall|j: int| 0 <= j < i
                    ==> (#[trigger] self.workers@[j]).ant_type
                            == after_scout_moves.workers@[j].ant_type
                        && self.workers@[j].colony_anchor
                            == after_scout_moves.workers@[j].colony_anchor
                        && after_scout_moves.workers@[j].position.spec_manhattan(
                            self.workers@[j].position) == 1,
                forall|j: int| i <= j < self.workers@.len()
                    ==> #[trigger] self.workers@[j] == after_scout_moves.workers@[j],
                forall|c2: Coordinates| c2.wf()
                    ==> spec_cell_le(#[trigger] resources.spec_get(c2),
                        orig_res.spec_get(c2)),
                forall|c2: Coordinates, k2: PheromoneType| c2.wf()
                    ==> spec_marker_ge(#[trigger] pheromones.spec_get(c2, k2),
                        orig_phe.spec_get(c2, k2)),
            decreases self.workers@.len() - i,
        {
            let ghost res_pre = *resources;
            let ghost phe_pre = *pheromones;
            let mut ant = self.workers[i];
            ant.update(resources, pheromones, config);
            self.workers.set(i, ant);
            proof {
                assert forall|c2: Coordinates| c2.wf()
                    implies spec_cell_le(#[trigger] resources.spec_get(c2),
                        orig_res.spec_get(c2)) by {
                    assert(spec_cell_le(resources.spec_get(c2), res_pre.spec_get(c2)));
                    assert(spec_cell_le(res_pre.spec_get(c2), orig_res.spec_get(c2)));
                }
                assert forall|c2: Coordinates, k2: PheromoneType| c2.wf()
                    implies spec_marker_ge(#[trigger] pheromones.spec_get(c2, k2),
                        orig_phe.spec_get(c2, k2)) by {
                    assert(spec_marker_ge(pheromones.spec_get(c2, k2),
                        phe_pre.spec_get(c2, k2)));
                    assert(spec_marker_ge(phe_pre.spec_get(c2, k2),
                        orig_phe.spec_get(c2, k2)));
                }
            }
            i = i + 1;
        }
        proof {
            assert forall|j: int| 0 <= j < old(self).scouts@.len()
                implies (#[trigger] self.scouts@[j]).ant_type == old(self).scouts@[j].ant_type
                    && self.scouts@[j].colony_anchor == old(self).scouts@[j].colony_anchor
                    && old(self).scouts@[j].position.spec_manhattan(
                        self.scouts@[j].position) == 1 by {
                assert(after_spawn.scouts@[j] == old(self).scouts@[j]);
            }
            assert forall|j: int| old(self).scouts@.len() <= j < self.scouts@.len()
                implies (#[trigger] self.scouts@[j]).ant_type is Scout
                    && self.scouts@[j].colony_anchor == old(self).position
                    && old(self).position.spec_manhattan(self.scouts@[j].position) == 1 by {
                assert(after_spawn.scouts@[j].colony_anchor == old(self).position);
                assert(after_spawn.scouts@[j].position == old(self).position);
            }
            assert forall|j: int| 0 <= j < old(self).workers@.len()
                implies (#[trigger] self.workers@[j]).ant_type == old(self).workers@[j].ant_type
                    && self.workers@[j].colony_anchor == old(self).workers@[j].colony_anchor
                    && old(self).workers@[j].position.spec_manhattan(
                        self.workers@[j].position) == 1 by {
                assert(after_spawn.workers@[j] == old(self).workers@[j]);
                assert(after_scout_moves.workers@[j] == after_spawn.workers@[j]);
            }
            assert forall|j: int| old(self).workers@.len() <= j < self.workers@.len()
                implies (#[trigger] self.workers@[j]).ant_type is Worker
                    && self.workers@[j].colony_anchor == old(self).position
                    && old(self).position.spec_manhattan(self.workers@[j].position) == 1 by {
                assert(after_spawn.workers@[j].colony_anchor == old(self).position);
                assert(after_spawn.workers@[j].position == old(self).position);
                assert(after_scout_moves.workers@[j] == after_spawn.workers@[j]);
            }
        }
    }

    /// Returns a snapshot of all ants in the colony, grouped by kind.
    pub fn iter_ants(&self) -> (r: Vec<(AntType, Vec<Ant>)>)
        ensures
            r@.len() == 2,
            r@[0].0 is Scout,
            r@[0].1@ == self.scouts@,
            r@[1].0 is Worker,
            r@[1].1@ == self.workers@,
    {
        let mut groups: Vec<(AntType, Vec<Ant>)> = Vec::new();
        groups.push((AntType::Scout, Self::copy_ants(&self.scouts)));
        groups.push((AntType::Worker, Self::copy_ants(&self.workers)));
        groups
    }

    /// Copies a list of ants element by element.
    fn copy_ants(ants: &Vec<Ant>) -> (r: Vec<Ant>)
        ensures
            r@ == ants@,
    {
        let mut copied: Vec<Ant> = Vec::new();
        let mut i: usize = 0;
        while i < ants.len()
            invariant
                i <= ants@.len(),
                copied@ == ants@.subrange(0, i as int),
            decreases ants@.len() - i,
        {
            copied.push(ants[i]);
            proof {
                assert(copied@ =~= ants@.subrange(0, i as int + 1));
            }
            i = i + 1;
        }
        proof {
            assert(ants@.subrange(0, ants@.len() as int) =~= ants@);
        }
        copied
    }
}

impl Default for Colony {
    /// An empty colony at the grid centre with the default spawn rate.
    fn default() -> (r: Self)
        ensures
            r.wf(),
            r.position.x_position == WORLD_WIDTH / 2,
            r.position.y_position == WORLD_HEIGHT / 2,
            r.scouts@.len() == 0,
            r.workers@.len() == 0,
            r.spawn_rate == DEFAULT_COLONY_SPAWN_RATE,
    {
        let position = Coordinates::new(WORLD_WIDTH / 2, WORLD_HEIGHT / 2).unwrap();
        Colony { position, scouts: Vec::new(), workers: Vec::new(), spawn_rate: DEFAULT_COLONY_SPAWN_RATE }
    }
}

} // verus!
