//! The full grid state and the per-tick orchestration.
//!
//! A world owns the resource field, the pheromone field, the colonies and
//! the configuration. One `update` call advances exactly one tick: every
//! colony spawns and moves its ants first — acting on last tick's pheromone
//! state — and only then do the pheromones decay, so a trail is visible for
//! a full tick before it weakens.

use vstd::prelude::*;

use crate::ant::AntType;
use crate::ant_settings::{WORLD_HEIGHT, WORLD_WIDTH};
use crate::colony::{spec_colony_ticked, Colony};
use crate::config::Config;
use crate::coords::Coordinates;
use crate::ant_settings::DEFAULT_COLONY_SPAWN_RATE;
use crate::grid::{spec_decayed, spec_tick_pheromone_phases, PheromoneField, ResourceField};
use crate::pheromone::{spec_decayed_once, spec_marker_ge, spec_trail_kept, PheromoneType};
use crate::resource::{spec_cell_le, Resource};

verus! {

/// Every entity in the world; all state is accessed through this.
pub struct World {
    /// All active resources, with their sparse index.
    pub resources: ResourceField,
    /// All active colonies.
    pub colonies: Vec<Colony>,
    /// All active pheromones, with their sparse index.
    pub pheromones: PheromoneField,
    /// The parameters fixed at construction.
    pub config: Config,
}

impl World {
    /// Every colony's population of each kind is within its configured cap.
    /// This holds of a fresh world and is preserved by every tick, whatever
    /// the spawn rates: spawning only ever fills a kind up to its cap.
    pub open spec fn spec_populations_capped(self) -> bool {
        forall|i: int| 0 <= i < self.colonies@.len()
            ==> (#[trigger] self.colonies@[i]).spec_count(AntType::Scout)
                    <= self.config.scout_cap
                && self.colonies@[i].spec_count(AntType::Worker) <= self.config.worker_cap
    }

    /// Both fields, every colony, and the configuration are well formed.
    pub open spec fn wf(self) -> bool {
        &&& self.resources.wf()
        &&& self.pheromones.wf()
        &&& self.config.wf()
        &&& forall|i: int| 0 <= i < self.colonies@.len() ==> (#[trigger] self.colonies@[i]).wf()
    }

    /// Creates a new world holding the given food and colonies, with the
    /// given configuration and no pheromones. Food tiles must be distinct:
    /// one tile holds at most one resource.
    pub fn new_with_config(
        food: Vec<(Coordinates, Resource)>,
        colonies: Vec<Colony>,
        config: Config,
    ) -> (r: World)
        requires
            config.wf(),
            forall|i: int| 0 <= i < food@.len()
                ==> (#[trigger] food@[i]).0.wf() && food@[i].1.resources_remaining >= 1,
            forall|i: int, j: int| 0 <= i < j < food@.len() ==> food@[i].0 != food@[j].0,
            forall|i: int| 0 <= i < colonies@.len() ==> (#[trigger] colonies@[i]).wf(),
        ensures
            r.wf(),
            r.colonies@ == colonies@,
            r.config == config,
            r.pheromones.lookup@.len() == 0,
            forall|i: int| 0 <= i < food@.len()
                ==> r.resources.spec_get((#[trigger] food@[i]).0) == Some(food@[i].1),
            forall|c: Coordinates| c.wf()
                && (forall|i: int| 0 <= i < food@.len() ==> (#[trigger] food@[i]).0 != c)
                ==> r.resources.spec_get(c) is None,
            r.resources.lookup@.len() == food@.len(),
    {
        let mut resources = ResourceField::new();
        let mut i: usize = 0;
        while i < food.len()
            invariant
                resources.wf(),
                i <= food@.len(),
                forall|j: int| 0 <= j < food@.len()
                    ==> (#[trigger] food@[j]).0.wf() && food@[j].1.resources_remaining >= 1,
                forall|j: int, k: int| 0 <= j < k < food@.len() ==> food@[j].0 != food@[k].0,
                forall|j: int| 0 <= j < i
                    ==> resources.spec_get((#[trigger] food@[j]).0) == Some(food@[j].1),
                forall|c: Coordinates| c.wf()
                    && (forall|j: int| 0 <= j < i ==> (#[trigger] food@[j]).0 != c)
                    ==> resources.spec_get(c) is None,
                resources.lookup@.len() == i,
            decreases food@.len() - i,
        {
            let entry = food[i];
            let placed = resources.place(entry.0, entry.1.resources_remaining);
            proof {
                assert(placed);
            }
            i = i + 1;
        }
        World { resources, colonies, pheromones: PheromoneField::new(), config }
    }

    /// Creates a new world holding the given food and colonies, with the
    /// default configuration.
    pub fn new(food: Vec<(Coordinates, Resource)>, colonies: Vec<Colony>) -> (r: World)
        requires
            forall|i: int| 0 <= i < food@.len()
                ==> (#[trigger] food@[i]).0.wf() && food@[i].1.resources_remaining >= 1,
            forall|i: int, j: int| 0 <= i < j < food@.len() ==> food@[i].0 != food@[j].0,
            forall|i: int| 0 <= i < colonies@.len() ==> (#[trigger] colonies@[i]).wf(),
        ensures
            r.wf(),
            r.colonies@ == colonies@,
            r.config == Config::spec_default(),
            r.pheromones.lookup@.len() == 0,
            forall|i: int| 0 <= i < food@.len()
                ==> r.resources.spec_get((#[trigger] food@[i]).0) == Some(food@[i].1),
            forall|c: Coordinates| c.wf()
                && (forall|i: int| 0 <= i < food@.len() ==> (#[trigger] food@[i]).0 != c)
                ==> r.resources.spec_get(c) is None,
            r.resources.lookup@.len() == food@.len(),
    {
        World::new_with_config(food, colonies, Config::default())
    }

    /// Adds a new default colony at the grid centre.
    pub fn new_colony(&mut self)
        requires
            old(self).wf(),
        ensures
            final(self).wf(),
            final(self).colonies@.len() == old(self).colonies@.len() + 1,
            forall|i: int| 0 <= i < old(self).colonies@.len()
                ==> #[trigger] final(self).colonies@[i] == old(self).colonies@[i],
            final(self).colonies@.last().position.x_position == WORLD_WIDTH / 2,
            final(self).colonies@.last().position.y_position == WORLD_HEIGHT / 2,
            final(self).colonies@.last().scouts@.len() == 0,
            final(self).colonies@.last().workers@.len() == 0,
            final(self).colonies@.last().spawn_rate == DEFAULT_COLONY_SPAWN_RATE,
            final(self).resources == old(self).resources,
            final(self).pheromones == old(self).pheromones,
            final(self).config == old(self).config,
    {
        self.colonies.push(Colony::default());
    }

    /// Spawns a new resource of the configured size at a random unoccupied
    /// tile. After a bounded number of random draws it falls back to a
    /// deterministic scan, so it fails only when every tile is occupied —
    /// in which case it reports `false` and changes nothing.
    pub fn new_resource(&mut self) -> (placed: bool)
        requires
            old(self).wf(),
        ensures
            final(self).wf(),
            final(self).colonies@ == old(self).colonies@,
            final(self).pheromones == old(self).pheromones,
            final(self).config == old(self).config,
            forall|c: Coordinates| c.wf() && old(self).resources.spec_get(c) is Some
                ==> #[trigger] final(self).resources.spec_get(c)
                    == old(self).resources.spec_get(c),
            forall|c: Coordinates| c.wf() && old(self).resources.spec_get(c) is None
                && (#[trigger] final(self).resources.spec_get(c)) is Some
                ==> final(self).resources.spec_get(c)
                    == Some(Resource { resources_remaining: old(self).config.resource_size }),
            placed ==> final(self).resources.lookup@.len()
                == old(self).resources.lookup@.len() + 1,
            !placed ==> final(self).resources == old(self).resources
                && (forall|c: Coordinates| c.wf()
                    ==> (#[trigger] old(self).resources.spec_get(c)) is Some),
    {
        let mut attempts: u16 = 0;
        while attempts < 64
            invariant
                self == old(self),
                old(self).wf(),
            decreases 64 - attempts,
        {
            let coords = Coordinates::new_random();
            if self.resources.get(coords).is_none() {
                self.resources.place(coords, self.config.resource_size);
                return true;
            }
            attempts = attempts + 1;
        }
        let mut x: u16 = 0;
        while x < WORLD_WIDTH
            invariant
                self == old(self),
                old(self).wf(),
                x <= WORLD_WIDTH,
                forall|c: Coordinates| c.wf() && c.x_position < x
                    ==> (#[trigger] self.resources.spec_get(c)) is Some,
            decreases WORLD_WIDTH - x,
        {
            let mut y: u16 = 0;
            while y < WORLD_HEIGHT
                invariant
                    self == old(self),
                    old(self).wf(),
                    x < WORLD_WIDTH,
                    y <= WORLD_HEIGHT,
                    forall|c: Coordinates| c.wf() && c.x_position < x
                        ==> (#[trigger] self.resources.spec_get(c)) is Some,
                    forall|c: Coordinates| c.wf() && c.x_position == x && c.y_position < y
                        ==> (#[trigger] self.resources.spec_get(c)) is Some,
                decreases WORLD_HEIGHT - y,
            {
                let coords = Coordinates { x_position: x, y_position: y };
                if self.resources.get(coords).is_none() {
                    self.resources.place(coords, self.config.resource_size);
                    return true;
                }
                y = y + 1;
            }
            x = x + 1;
        }
        proof {
            assert forall|c: Coordinates| c.wf()
                implies (#[trigger] self.resources.spec_get(c)) is Some by {
                assert(c.x_position < WORLD_WIDTH);
            }
        }
        false
    }

    /// Advances the simulation by exactly one tick, in two phases. First
    /// every colony spawns its quota and runs one step for every one of its
    /// ants — reading the pheromone state as left by the previous tick and
    /// by earlier ants of this tick, and only laying and refreshing markers
    /// — and then every pheromone decays exactly once, with markers that
    /// reach zero evicted from grid and index in the same sweep. Each
    /// colony's whole effect is [`spec_colony_ticked`]: position and spawn
    /// rate kept, counts grown by exactly their quotas and never past a
    /// cap, every ant one tile from where it stood. Food is only ever
    /// eaten. The two-phase order is visible in the contract: the final
    /// pheromone field is exactly the decay sweep of an intermediate field
    /// that carries at least every marker the tick began with — so a marker
    /// that outweighs its decay rate survives the tick, and every surviving
    /// marker is live and sits at least one decay step under the cap.
    pub fn update(&mut self)
        requires
            old(self).wf(),
        ensures
            final(self).wf(),
            final(self).config == old(self).config,
            final(self).colonies@.len() == old(self).colonies@.len(),
            forall|i: int| 0 <= i < old(self).colonies@.len()
                ==> spec_colony_ticked(old(self).colonies@[i],
                    #[trigger] final(self).colonies@[i], old(self).config),
            old(self).spec_populations_capped() ==> final(self).spec_populations_capped(),
            forall|c2: Coordinates| c2.wf()
                ==> spec_cell_le(#[trigger] final(self).resources.spec_get(c2),
                    old(self).resources.spec_get(c2)),
            exists|mid: PheromoneField| #[trigger] spec_tick_pheromone_phases(
                old(self).pheromones, mid, final(self).pheromones),
            forall|c2: Coordinates, k2: PheromoneType| c2.wf()
                ==> spec_trail_kept(old(self).pheromones.spec_get(c2, k2),
                    #[trigger] final(self).pheromones.spec_get(c2, k2)),
            forall|c2: Coordinates, k2: PheromoneType| c2.wf()
                ==> spec_decayed_once(#[trigger] final(self).pheromones.spec_get(c2, k2)),
    {
        let ghost orig = *old(self);
        let mut updated: Vec<Colony> = Vec::new();
        while self.colonies.len() > 0
            invariant
                orig.wf(),
                self.resources.wf(),
                self.pheromones.wf(),
                self.config == orig.config,
                updated@.len() + self.colonies@.len() == orig.colonies@.len(),
                forall|i: int| 0 <= i < self.colonies@.len()
                    ==> #[trigger] self.colonies@[i]
                        == orig.colonies@[i + updated@.len()],
                forall|i: int| 0 <= i < updated@.len()
                    ==> (#[trigger] updated@[i]).wf()
                        && spec_colony_ticked(orig.colonies@[i], updated@[i], orig.config),
                forall|c2: Coordinates| c2.wf()
                    ==> spec_cell_le(#[trigger] self.resources.spec_get(c2),
                        orig.resources.spec_get(c2)),
                forall|c2: Coordinates, k2: PheromoneType| c2.wf()
                    ==> spec_marker_ge(#[trigger] self.pheromones.spec_get(c2, k2),
                        orig.pheromones.spec_get(c2, k2)),
            decreases self.colonies@.len(),
        {
            let ghost res_pre = self.resources;
            let ghost phe_pre = self.pheromones;
            let mut colony = self.colonies.remove(0);
            colony.update(&mut self.resources, &mut self.pheromones, &self.config);
            updated.push(colony);
            proof {
                assert forall|c2: Coordinates| c2.wf()
                    implies spec_cell_le(#[trigger] self.resources.spec_get(c2),
                        orig.resources.spec_get(c2)) by {
                    assert(spec_cell_le(self.resources.spec_get(c2), res_pre.spec_get(c2)));
                    assert(spec_cell_le(res_pre.spec_get(c2), orig.resources.spec_get(c2)));
                }
                assert forall|c2: Coordinates, k2: PheromoneType| c2.wf()
                    implies spec_marker_ge(#[trigger] self.pheromones.spec_get(c2, k2),
                        orig.pheromones.spec_get(c2, k2)) by {
                    assert(spec_marker_ge(self.pheromones.spec_get(c2, k2),
                        phe_pre.spec_get(c2, k2)));
                    assert(spec_marker_ge(phe_pre.spec_get(c2, k2),
                        orig.pheromones.spec_get(c2, k2)));
                }
            }
        }
        self.colonies = updated;
        let ghost pre_decay = self.pheromones;
        self.pheromones.decay_tick();
        proof {
            assert forall|c2: Coordinates, k2: PheromoneType| c2.wf()
                implies spec_trail_kept(orig.pheromones.spec_get(c2, k2),
                    #[trigger] self.pheromones.spec_get(c2, k2)) by {
                assert(spec_marker_ge(pre_decay.spec_get(c2, k2),
                    orig.pheromones.spec_get(c2, k2)));
                assert(self.pheromones.spec_get(c2, k2)
                    == spec_decayed(pre_decay.spec_get(c2, k2)));
            }
            assert forall|c2: Coordinates, k2: PheromoneType| c2.wf()
                implies spec_decayed_once(#[trigger] self.pheromones.spec_get(c2, k2)) by {
                assert(spec_marker_ge(pre_decay.spec_get(c2, k2),
                    orig.pheromones.spec_get(c2, k2)));
                if pre_decay.spec_get(c2, k2) is Some {
                    assert(pre_decay.spec_get(c2, k2)->0.wf());
                }
                assert(self.pheromones.spec_get(c2, k2)
                    == spec_decayed(pre_decay.spec_get(c2, k2)));
            }
            assert(spec_tick_pheromone_phases(orig.pheromones, pre_decay, self.pheromones));
        }
    }
}

impl Default for World {
    /// A fresh world: one default colony at the grid centre and the
    /// configured number of resources at random unoccupied tiles.
    fn default() -> (r: Self)
        ensures
            r.wf(),
            r.config == Config::spec_default(),
            r.colonies@.len() == 1,
            r.colonies@[0].scouts@.len() == 0,
            r.colonies@[0].workers@.len() == 0,
            r.pheromones.lookup@.len() == 0,
            r.resources.lookup@.len() == r.config.resource_count,
            r.spec_populations_capped(),
    {
        let mut world = World::new(Vec::new(), Vec::new());
        world.new_colony();
        let mut i: u8 = 0;
        while i < world.config.resource_count
            invariant
                world.wf(),
                i <= world.config.resource_count,
                world.config == Config::spec_default(),
                world.colonies@.len() == 1,
                world.colonies@[0].scouts@.len() == 0,
                world.colonies@[0].workers@.len() == 0,
                world.pheromones.lookup@.len() == 0,
                world.resources.lookup@.len() == i,
            decreases world.config.resource_count - i,
        {
            let ghost before = world.resources;
            let placed = world.new_resource();
            proof {
                if !placed {
                    // Impossible: far fewer resources were placed than there
                    // are tiles, so some tile must still be free.
                    crate::grid::lemma_full_grid_fills_lookup(&before);
                }
            }
            i = i + 1;
        }
        world
    }
}

} // verus!
