//! A single mobile agent with a movement and foraging state machine.
//!
//! An ant is either exploring (`is_returning == false`) or returning
//! (`is_returning == true`). It switches to returning when it finds food or
//! when its journey times out, and resets to exploring the moment it stands
//! on its colony anchor. Each tick it consumes food under itself, moves one
//! tile, and lays or refreshes a pheromone at its new position.

use vstd::prelude::*;

use crate::ant_settings::{
    DEFAULT_COLONY_SCOUT_SIZE, DEFAULT_COLONY_WORKER_SIZE, MAXIMUM_PHEROMONE_STRENGTH, PERMILLE,
    WORLD_HEIGHT, WORLD_WIDTH,
};
use crate::config::Config;
use crate::coords::{spec_clamp, Coordinates};
use crate::grid::{PheromoneField, ResourceField};
use crate::pheromone::{spec_marker_ge, Pheromone, PheromoneType};
use crate::resource::{spec_cell_le, Resource};
use crate::rng::{random_permille, shuffle_steps};

verus! {

/// The possible roles an ant can take.
///
/// * `Scout` — explores to find new resources.
/// * `Worker` — carries found resources back to the colony.
#[derive(Copy, Clone, PartialEq, Eq, Structural, Debug, Hash)]
pub enum AntType {
    Scout,
    Worker,
}

impl AntType {
    /// Returns the default maximum number of ants of this kind per colony.
    pub fn get_maximum_number_of_ants(&self) -> (r: u16)
        ensures
            self is Scout ==> r == DEFAULT_COLONY_SCOUT_SIZE,
            self is Worker ==> r == DEFAULT_COLONY_WORKER_SIZE,
    {
        match self {
            AntType::Scout => DEFAULT_COLONY_SCOUT_SIZE,
            AntType::Worker => DEFAULT_COLONY_WORKER_SIZE,
        }
    }
}

/// Whether taking step `s` from `p` stays inside the grid: exactly the
/// condition under which `Coordinates::modify` succeeds.
pub open spec fn spec_step_stays_inside(p: Coordinates, s: (i32, i32)) -> bool {
    &&& 0 <= p.x_position + s.0 < WORLD_WIDTH
    &&& 0 <= p.y_position + s.1 < WORLD_HEIGHT
}

/// The look-ahead tile one clamped cardinal step `s` away from `p`.
pub open spec fn spec_clamped_step(p: Coordinates, s: (i32, i32)) -> Coordinates {
    Coordinates {
        x_position: spec_clamp(p.x_position + s.0, WORLD_WIDTH as int) as u16,
        y_position: spec_clamp(p.y_position + s.1, WORLD_HEIGHT as int) as u16,
    }
}

/// Whether `c` is one of the four look-ahead neighbours of `p`.
pub open spec fn spec_lookahead_neighbor(p: Coordinates, c: Coordinates) -> bool {
    exists|s: (i32, i32)| spec_cardinal_steps().contains(s) && c == spec_clamped_step(p, s)
}

/// The four cardinal steps an ant can take in one tick.
pub open spec fn spec_cardinal_steps() -> Seq<(i32, i32)> {
    seq![(-1i32, 0i32), (1i32, 0i32), (0i32, -1i32), (0i32, 1i32)]
}

/// A cardinal step moves exactly one tile along one axis.
pub proof fn lemma_cardinal_step(s: (i32, i32))
    requires
        spec_cardinal_steps().contains(s),
    ensures
        vstd::math::abs(s.0 as int) + vstd::math::abs(s.1 as int) == 1,
{
    let j = choose|j: int| 0 <= j < spec_cardinal_steps().len() && spec_cardinal_steps()[j] == s;
    if j == 0 {
        assert(s == ((-1i32, 0i32)));
    } else if j == 1 {
        assert(s == ((1i32, 0i32)));
    } else if j == 2 {
        assert(s == ((0i32, -1i32)));
    } else {
        assert(s == ((0i32, 1i32)));
    }
}

/// Returns the four cardinal steps in a uniformly random order.
fn shuffled_directions() -> (r: Vec<(i32, i32)>)
    ensures
        r@.len() == 4,
        forall|i: int| 0 <= i < r@.len() ==> spec_cardinal_steps().contains(#[trigger] r@[i]),
        forall|s: (i32, i32)| #[trigger] spec_cardinal_steps().contains(s) ==> r@.contains(s),
{
    let mut steps: Vec<(i32, i32)> = Vec::new();
    steps.push((-1, 0));
    steps.push((1, 0));
    steps.push((0, -1));
    steps.push((0, 1));
    proof {
        assert(steps@ =~= spec_cardinal_steps());
    }
    let shuffled = shuffle_steps(steps);
    proof {
        spec_cardinal_steps().to_multiset_ensures();
        shuffled@.to_multiset_ensures();
        assert forall|s: (i32, i32)| #[trigger] spec_cardinal_steps().contains(s)
            implies shuffled@.contains(s) by {
            assert(spec_cardinal_steps().to_multiset().count(s) > 0);
            assert(shuffled@.to_multiset().count(s) > 0);
        }
    }
    shuffled
}

/// One territory unit of distance scales the chance by 368/1000, the
/// fixed-point value of 1/e.
pub open spec fn spec_decay_pow(n: nat) -> int
    decreases n,
{
    if n == 0 {
        1000
    } else {
        spec_decay_pow((n - 1) as nat) * 368 / 1000
    }
}

/// The chance (per-mille) of an exploring scout following pheromones:
/// a fixed-point approximation of `1000 * exp(-distance / territory)`,
/// interpolated linearly between whole territory units. A territory of
/// zero means no home range at all: such a scout always moves randomly.
pub open spec fn spec_explore_chance(distance: u16, territory: u16) -> int {
    if territory == 0 {
        0
    } else {
        spec_decay_pow((distance / territory) as nat)
            * (1000 - 632 * (distance % territory) / (territory as int)) / 1000
    }
}

/// Computes [`spec_explore_chance`] exactly.
pub fn explore_chance(distance: u16, territory: u16) -> (r: u16)
    ensures
        r == spec_explore_chance(distance, territory),
        r <= PERMILLE,
{
    if territory == 0 {
        return 0;
    }
    let quotient: u16 = distance / territory;
    let remainder: u16 = distance % territory;
    let mut val: u32 = 1000;
    let mut i: u16 = 0;
    while i < quotient
        invariant
            i <= quotient,
            val == spec_decay_pow(i as nat),
            0 <= val <= 1000,
        decreases quotient - i,
    {
        proof {
            assert(val * 368 <= 368000 && val * 368 / 1000 <= 1000) by (nonlinear_arith)
                requires
                    0 <= val <= 1000,
            ;
        }
        val = val * 368 / 1000;
        i = i + 1;
    }
    proof {
        assert(632 * remainder <= 632 * 65535) by (nonlinear_arith)
            requires
                remainder <= 65535,
        ;
        assert(632 * (remainder as int) / (territory as int) <= 632) by (nonlinear_arith)
            requires
                0 <= remainder < territory,
        ;
    }
    let fraction: u32 = 632 * remainder as u32 / territory as u32;
    let factor: u32 = 1000 - fraction;
    proof {
        assert(val * factor <= 1000000 && val * factor / 1000 <= 1000) by (nonlinear_arith)
            requires
                0 <= val <= 1000,
                0 <= factor <= 1000,
        ;
    }
    let result: u32 = val * factor / 1000;
    result as u16
}

/// A single ant.
#[derive(Copy, Clone, PartialEq, Eq, Structural, Debug)]
pub struct Ant {
    /// The ant's role; never changes.
    pub ant_type: AntType,
    /// The tile the ant stands on.
    pub position: Coordinates,
    /// The coordinates of the home colony; never changes.
    pub colony_anchor: Coordinates,
    /// Steps taken since the current journey began.
    pub steps_on_journey: u16,
    /// Whether the ant is heading home rather than exploring.
    pub is_returning: bool,
    /// Whether the ant found food on this journey.
    pub found_food: bool,
    /// The cached Manhattan distance from `position` to `colony_anchor`,
    /// recomputed after every move.
    pub distance_from_colony: u16,
}

impl Ant {
    /// Holds when both positions are on the grid and the cached distance is
    /// the actual Manhattan distance to the anchor.
    pub open spec fn wf(self) -> bool {
        &&& self.position.wf()
        &&& self.colony_anchor.wf()
        &&& self.distance_from_colony == self.position.spec_manhattan(self.colony_anchor)
    }

    /// The ant after the per-tick state evaluation: standing on the anchor
    /// resets the journey; exceeding the step budget turns the ant home.
    pub open spec fn spec_evaluated(self, config: Config) -> Ant {
        if self.position == self.colony_anchor {
            Ant { steps_on_journey: 0, is_returning: false, found_food: false, ..self }
        } else if self.steps_on_journey > config.max_ant_steps {
            Ant { steps_on_journey: 0, is_returning: true, ..self }
        } else {
            self
        }
    }

    /// Whether a step to `new_position` heads the semantically correct way:
    /// closer to the colony when returning, farther when exploring.
    pub open spec fn spec_correct_direction(self, new_position: Coordinates) -> bool {
        if self.is_returning {
            new_position.spec_manhattan(self.colony_anchor) < self.distance_from_colony
        } else {
            new_position.spec_manhattan(self.colony_anchor) > self.distance_from_colony
        }
    }

    /// Creates a new ant of the given kind, freshly exploring.
    pub fn new(ant_type: AntType, position: Coordinates, colony_anchor: Coordinates) -> (r: Ant)
        requires
            position.wf(),
            colony_anchor.wf(),
        ensures
            r.ant_type == ant_type,
            r.position == position,
            r.colony_anchor == colony_anchor,
            r.steps_on_journey == 0,
            !r.is_returning,
            !r.found_food,
            r.wf(),
    {
        let distance_from_colony = position.manhattan_distance(colony_anchor);
        Ant {
            ant_type,
            position,
            colony_anchor,
            steps_on_journey: 0,
            is_returning: false,
            found_food: false,
            distance_from_colony,
        }
    }

    /// Applies the journey-state transition rules for the current position:
    /// an ant standing exactly on its colony anchor resets to a fresh
    /// exploring state, and an ant past its step budget turns home.
    pub fn evaluate_state(&mut self, config: &Config)
        ensures
            *final(self) == old(self).spec_evaluated(*config),
            old(self).position == old(self).colony_anchor ==> !final(self).is_returning
                && final(self).steps_on_journey == 0,
    {
        if self.position == self.colony_anchor {
            self.steps_on_journey = 0;
            self.is_returning = false;
            self.found_food = false;
        } else if self.steps_on_journey > config.max_ant_steps {
            self.steps_on_journey = 0;
            self.is_returning = true;
        }
    }

    /// Checks whether `new_position` heads the semantically correct way for
    /// the ant's current journey state.
    pub fn is_correct_direction(&self, new_position: Coordinates) -> (r: bool)
        requires
            self.wf(),
            new_position.wf(),
        ensures
            r == self.spec_correct_direction(new_position),
    {
        let new_distance = new_position.manhattan_distance(self.colony_anchor);
        if self.is_returning {
            new_distance < self.distance_from_colony
        } else {
            new_distance > self.distance_from_colony
        }
    }

    /// The chance (per-mille) of this ant following pheromones rather than
    /// moving randomly: a constant for workers and returning scouts, and a
    /// distance-decaying value for exploring scouts.
    pub open spec fn spec_follow_chance(self, config: Config) -> int {
        match self.ant_type {
            AntType::Worker => config.worker_chance as int,
            AntType::Scout => if self.is_returning {
                config.scout_return_chance as int
            } else {
                spec_explore_chance(self.distance_from_colony, config.territory_size)
            },
        }
    }

    /// Computes the chance (per-mille) of this ant following pheromones.
    pub fn pheromone_follow_chance(&self, config: &Config) -> (r: u16)
        requires
            config.wf(),
        ensures
            r == self.spec_follow_chance(*config),
            r <= PERMILLE,
    {
        match self.ant_type {
            AntType::Worker => config.worker_chance,
            AntType::Scout => {
                if self.is_returning {
                    config.scout_return_chance
                } else {
                    explore_chance(self.distance_from_colony, config.territory_size)
                }
            },
        }
    }

    /// Moves the ant one tile in a random cardinal direction, preferring
    /// directions that head the semantically correct way unless a backwards
    /// step was rolled. A step that would leave the grid is never taken, and on
    /// this grid some step always remains, so the ant moves exactly one
    /// tile. Only the position (and its cached distance) changes.
    pub fn move_using_random(&mut self, config: &Config)
        requires
            old(self).wf(),
            config.wf(),
        ensures
            final(self).wf(),
            final(self).ant_type == old(self).ant_type,
            final(self).colony_anchor == old(self).colony_anchor,
            final(self).steps_on_journey == old(self).steps_on_journey,
            final(self).is_returning == old(self).is_returning,
            final(self).found_food == old(self).found_food,
            old(self).position.spec_manhattan(final(self).position) == 1,
    {
        let dirs = shuffled_directions();
        let roll = random_permille();
        let mut allow_backwards: bool = roll < config.backwards_chance;
        let mut candidate: Option<Coordinates> = None;
        let mut chosen: Option<Coordinates> = None;
        let mut i: usize = 0;
        while i < dirs.len() && chosen.is_none()
            invariant
                *self == *old(self),
                old(self).wf(),
                dirs@.len() == 4,
                i <= 4,
                forall|j: int| 0 <= j < dirs@.len()
                    ==> spec_cardinal_steps().contains(#[trigger] dirs@[j]),
                forall|s: (i32, i32)| #[trigger] spec_cardinal_steps().contains(s)
                    ==> dirs@.contains(s),
                candidate matches Some(p) ==> p.wf()
                    && old(self).position.spec_manhattan(p) == 1,
                chosen matches Some(p) ==> p.wf()
                    && old(self).position.spec_manhattan(p) == 1,
                candidate is None ==> forall|j: int| 0 <= j < i
                    ==> !spec_step_stays_inside(old(self).position, #[trigger] dirs@[j]),
            decreases dirs@.len() - i,
        {
            let step = dirs[i];
            proof {
                lemma_cardinal_step(dirs@[i as int]);
            }
            match self.position.modify(step.0, step.1) {
                Some(test_position) => {
                    candidate = Some(test_position);
                    if allow_backwards || self.is_correct_direction(test_position) {
                        chosen = Some(test_position);
                    }
                },
                None => {
                    allow_backwards = true;
                },
            }
            i = i + 1;
        }
        proof {
            if chosen is None && candidate is None {
                // Every direction would have left the grid; yet a grid at
                // least two tiles wide always admits a step west or east.
                let west = ((-1i32, 0i32));
                let east = ((1i32, 0i32));
                assert(spec_cardinal_steps().contains(west)) by {
                    assert(spec_cardinal_steps()[0] == west);
                }
                assert(spec_cardinal_steps().contains(east)) by {
                    assert(spec_cardinal_steps()[1] == east);
                }
                let jw = choose|j: int| 0 <= j < dirs@.len() && dirs@[j] == west;
                let je = choose|j: int| 0 <= j < dirs@.len() && dirs@[j] == east;
                assert(!spec_step_stays_inside(old(self).position, west));
                assert(!spec_step_stays_inside(old(self).position, east));
            }
        }
        let new_position = match chosen {
            Some(p) => p,
            None => match candidate {
                Some(p) => p,
                None => self.position,
            },
        };
        self.position = new_position;
        let distance = self.position.manhattan_distance(self.colony_anchor);
        self.distance_from_colony = distance;
    }

    /// The pheromone strength this ant reads at tile `c`: scouts consult
    /// both layers and take the stronger, workers only the resource layer.
    pub open spec fn spec_consulted_strength(
        self,
        pheromones: PheromoneField,
        c: Coordinates,
    ) -> int {
        let resource = match pheromones.spec_get(c, PheromoneType::Resource) {
            Option::Some(p) => p.strength as int,
            Option::None => 0,
        };
        let exploration = match pheromones.spec_get(c, PheromoneType::Exploration) {
            Option::Some(p) => p.strength as int,
            Option::None => 0,
        };
        if self.ant_type is Scout {
            if exploration > resource {
                exploration
            } else {
                resource
            }
        } else {
            resource
        }
    }

    /// Whether some look-ahead neighbour in the semantically correct
    /// direction carries pheromone this ant consults.
    pub open spec fn spec_sees_trail(self, pheromones: PheromoneField) -> bool {
        exists|c: Coordinates| spec_lookahead_neighbor(self.position, c)
            && self.spec_correct_direction(c)
            && #[trigger] self.spec_consulted_strength(pheromones, c) > 0
    }

    /// Whether `target` is a best pheromone-following move: a look-ahead
    /// neighbour in the correct direction whose consulted strength is
    /// positive and maximal among all such neighbours.
    pub open spec fn spec_best_trail_move(
        self,
        pheromones: PheromoneField,
        target: Coordinates,
    ) -> bool {
        &&& spec_lookahead_neighbor(self.position, target)
        &&& self.spec_correct_direction(target)
        &&& self.spec_consulted_strength(pheromones, target) > 0
        &&& forall|c: Coordinates| spec_lookahead_neighbor(self.position, c)
            && self.spec_correct_direction(c)
            ==> #[trigger] self.spec_consulted_strength(pheromones, c)
                <= self.spec_consulted_strength(pheromones, target)
    }

    /// Moves the ant toward the strongest pheromone among the neighbours
    /// lying in the semantically correct direction; scouts consult both
    /// layers, workers only the resource layer. Ties go to the first seen
    /// in shuffle order. With no qualifying pheromone anywhere, falls back
    /// to the random move. Only the position (and its cached distance)
    /// changes.
    pub fn move_using_pheromones(&mut self, pheromones: &PheromoneField, config: &Config)
        requires
            old(self).wf(),
            pheromones.wf(),
            config.wf(),
        ensures
            final(self).wf(),
            final(self).ant_type == old(self).ant_type,
            final(self).colony_anchor == old(self).colony_anchor,
            final(self).steps_on_journey == old(self).steps_on_journey,
            final(self).is_returning == old(self).is_returning,
            final(self).found_food == old(self).found_food,
            old(self).position.spec_manhattan(final(self).position) == 1,
            old(self).spec_sees_trail(*pheromones)
                ==> old(self).spec_best_trail_move(*pheromones, final(self).position),
    {
        let dirs = shuffled_directions();
        let mut strongest: u16 = 0;
        let mut best: Option<Coordinates> = None;
        let mut i: usize = 0;
        while i < dirs.len()
            invariant
                *self == *old(self),
                old(self).wf(),
                pheromones.wf(),
                dirs@.len() == 4,
                i <= 4,
                forall|j: int| 0 <= j < dirs@.len()
                    ==> spec_cardinal_steps().contains(#[trigger] dirs@[j]),
                forall|s: (i32, i32)| #[trigger] spec_cardinal_steps().contains(s)
                    ==> dirs@.contains(s),
                best is Some <==> strongest > 0,
                best matches Some(p) ==> p.wf()
                    && old(self).position.spec_manhattan(p) == 1
                    && spec_lookahead_neighbor(old(self).position, p)
                    && old(self).spec_correct_direction(p)
                    && old(self).spec_consulted_strength(*pheromones, p) >= strongest,
                forall|j: int| 0 <= j < i
                    ==> (old(self).spec_correct_direction(
                            spec_clamped_step(old(self).position, #[trigger] dirs@[j]))
                        ==> old(self).spec_consulted_strength(*pheromones,
                            spec_clamped_step(old(self).position, dirs@[j])) <= strongest),
            decreases dirs@.len() - i,
        {
            let step = dirs[i];
            proof {
                lemma_cardinal_step(dirs@[i as int]);
            }
            let new_position = self.position.safe_modify(step.0, step.1);
            proof {
                assert(new_position == spec_clamped_step(old(self).position, dirs@[i as int]));
                assert(self.position.spec_manhattan(new_position) <= 1);
                if self.spec_correct_direction(new_position) {
                    // A look-ahead tile in the correct direction is never the
                    // current tile, so it is exactly one step away.
                    assert(new_position != self.position);
                    assert(self.position.spec_manhattan(new_position) == 1);
                }
            }
            if self.is_correct_direction(new_position) {
                if self.ant_type == AntType::Scout {
                    if let Some(marker) = pheromones.get(new_position, PheromoneType::Exploration) {
                        if marker.get_strength() > strongest {
                            strongest = marker.get_strength();
                            best = Some(new_position);
                        }
                    }
                }
                if let Some(marker) = pheromones.get(new_position, PheromoneType::Resource) {
                    if marker.get_strength() > strongest {
                        strongest = marker.get_strength();
                        best = Some(new_position);
                    }
                }
                proof {
                    assert(old(self).spec_consulted_strength(*pheromones, new_position)
                        <= strongest);
                }
            }
            i = i + 1;
        }
        if strongest == 0 {
            proof {
                if old(self).spec_sees_trail(*pheromones) {
                    let c = choose|c: Coordinates| spec_lookahead_neighbor(
                        old(self).position, c)
                        && old(self).spec_correct_direction(c)
                        && #[trigger] old(self).spec_consulted_strength(*pheromones, c) > 0;
                    let s = choose|s: (i32, i32)| spec_cardinal_steps().contains(s)
                        && c == spec_clamped_step(old(self).position, s);
                    assert(dirs@.contains(s));
                    let j = choose|j: int| 0 <= j < dirs@.len() && dirs@[j] == s;
                    assert(old(self).spec_consulted_strength(*pheromones,
                        spec_clamped_step(old(self).position, dirs@[j])) <= strongest);
                }
            }
            self.move_using_random(config);
            return;
        }
        proof {
            let target = best->0;
            assert forall|c: Coordinates| spec_lookahead_neighbor(old(self).position, c)
                && old(self).spec_correct_direction(c)
                implies #[trigger] old(self).spec_consulted_strength(*pheromones, c)
                    <= old(self).spec_consulted_strength(*pheromones, target) by {
                let s = choose|s: (i32, i32)| spec_cardinal_steps().contains(s)
                    && c == spec_clamped_step(old(self).position, s);
                assert(dirs@.contains(s));
                let j = choose|j: int| 0 <= j < dirs@.len() && dirs@[j] == s;
                assert(old(self).spec_consulted_strength(*pheromones,
                    spec_clamped_step(old(self).position, dirs@[j])) <= strongest);
            }
        }
        let new_position = best.unwrap();
        self.position = new_position;
        let distance = self.position.manhattan_distance(self.colony_anchor);
        self.distance_from_colony = distance;
    }

    /// Runs the journey-state transition, then moves the ant: with the
    /// state-dependent chance it follows pheromones, otherwise it moves
    /// randomly. The journey flags end exactly as the transition rules say;
    /// the position moves at most one tile.
    pub fn move_ant(&mut self, pheromones: &PheromoneField, config: &Config)
        requires
            old(self).wf(),
            pheromones.wf(),
            config.wf(),
        ensures
            final(self).wf(),
            final(self).ant_type == old(self).ant_type,
            final(self).colony_anchor == old(self).colony_anchor,
            final(self).steps_on_journey
                == old(self).spec_evaluated(*config).steps_on_journey,
            final(self).is_returning == old(self).spec_evaluated(*config).is_returning,
            final(self).found_food == old(self).spec_evaluated(*config).found_food,
            old(self).position.spec_manhattan(final(self).position) == 1,
    {
        self.evaluate_state(config);
        let chance = self.pheromone_follow_chance(config);
        let roll = random_permille();
        if roll < chance {
            self.move_using_pheromones(pheromones, config);
        } else {
            self.move_using_random(config);
        }
    }

    /// The pheromone kind this ant lays at its position: a resource marker
    /// once it has found food, an exploration marker for a scout still
    /// exploring, and none otherwise.
    pub open spec fn spec_laid_kind(self) -> Option<PheromoneType> {
        if self.found_food {
            Some(PheromoneType::Resource)
        } else if self.ant_type is Scout && !self.is_returning {
            Some(PheromoneType::Exploration)
        } else {
            None
        }
    }

    /// Lays or refreshes this ant's pheromone at its current position: an
    /// existing marker of the kind is refreshed by its own strength, an
    /// empty layer gets a fresh full-strength marker with the configured
    /// decay rate, and an ant with nothing to report lays nothing.
    pub fn update_pheromone(&self, pheromones: &mut PheromoneField, config: &Config)
        requires
            self.wf(),
            old(pheromones).wf(),
            config.wf(),
        ensures
            final(pheromones).wf(),
            self.spec_laid_kind() matches Some(kind) ==> {
                &&& final(pheromones).spec_get(self.position, kind)
                    == (match old(pheromones).spec_get(self.position, kind) {
                        Some(p) => Some(Pheromone {
                            strength: p.spec_refreshed_strength(p.strength as int) as u16,
                            ..p
                        }),
                        None => Some(Pheromone {
                            strength: MAXIMUM_PHEROMONE_STRENGTH,
                            decay_rate: config.spec_decay_rate(kind),
                            kind,
                        }),
                    })
                &&& forall|c2: Coordinates, k2: PheromoneType|
                    c2.wf() && !(c2 == self.position && k2 == kind)
                        ==> #[trigger] final(pheromones).spec_get(c2, k2)
                            == old(pheromones).spec_get(c2, k2)
                &&& final(pheromones).lookup@
                    == if old(pheromones).spec_get(self.position, kind) is Some {
                        old(pheromones).lookup@
                    } else {
                        old(pheromones).lookup@.push((self.position, kind))
                    }
            },
            self.spec_laid_kind() is None ==> *final(pheromones) == *old(pheromones),
    {
        let kind = if self.found_food {
            PheromoneType::Resource
        } else if self.ant_type == AntType::Scout && !self.is_returning {
            PheromoneType::Exploration
        } else {
            return;
        };
        let decay_rate = match kind {
            PheromoneType::Exploration => config.exploration_decay_rate,
            PheromoneType::Resource => config.resource_decay_rate,
        };
        pheromones.deposit(self.position, kind, decay_rate);
    }

    /// The ant after its step counter ticks up (saturating, so the counter
    /// is total; the journey timeout fires long before saturation).
    pub open spec fn spec_stepped(self) -> Ant {
        Ant {
            steps_on_journey: if self.steps_on_journey < u16::MAX {
                (self.steps_on_journey + 1) as u16
            } else {
                u16::MAX
            },
            ..self
        }
    }

    /// The ant after checking its tile for food: finding some turns it home.
    pub open spec fn spec_fed(self, has_food: bool) -> Ant {
        if has_food {
            Ant { is_returning: true, found_food: true, ..self }
        } else {
            self
        }
    }

    /// What one consumption by an ant makes of a resource tile.
    pub open spec fn spec_consumed(cell: Option<Resource>) -> Option<Resource> {
        match cell {
            Some(r) => if r.resources_remaining > 1 {
                Some(Resource { resources_remaining: (r.resources_remaining - 1) as u8 })
            } else {
                None
            },
            None => None,
        }
    }

    /// Executes one tick for this ant: counts the step, consumes food under
    /// itself (evicting a depleted tile), runs the journey-state rules,
    /// moves exactly one tile, and lays or refreshes its pheromone at the new
    /// position. The journey flags end exactly as those rules compose; the
    /// tile the ant stood on loses exactly one unit of food if it had any;
    /// no pheromone anywhere weakens or vanishes; and only the cell of the
    /// laid kind at the ant's final tile changes, with at most that one
    /// entry appended to the index — an ant with nothing to report leaves
    /// the pheromone field untouched.
    pub fn update(
        &mut self,
        resources: &mut ResourceField,
        pheromones: &mut PheromoneField,
        config: &Config,
    )
        requires
            old(self).wf(),
            old(resources).wf(),
            old(pheromones).wf(),
            config.wf(),
        ensures
            final(self).wf(),
            final(resources).wf(),
            final(pheromones).wf(),
            final(self).ant_type == old(self).ant_type,
            final(self).colony_anchor == old(self).colony_anchor,
            old(self).position.spec_manhattan(final(self).position) == 1,
            ({
                let mid = old(self).spec_stepped().spec_fed(
                    old(resources).spec_get(old(self).position) is Some,
                ).spec_evaluated(*config);
                &&& final(self).steps_on_journey == mid.steps_on_journey
                &&& final(self).is_returning == mid.is_returning
                &&& final(self).found_food == mid.found_food
            }),
            final(resources).spec_get(old(self).position)
                == Ant::spec_consumed(old(resources).spec_get(old(self).position)),
            forall|c2: Coordinates| c2.wf() && c2 != old(self).position
                ==> #[trigger] final(resources).spec_get(c2) == old(resources).spec_get(c2),
            forall|c2: Coordinates| c2.wf()
                ==> spec_cell_le(#[trigger] final(resources).spec_get(c2),
                    old(resources).spec_get(c2)),
            forall|c2: Coordinates, k2: PheromoneType| c2.wf()
                ==> spec_marker_ge(#[trigger] final(pheromones).spec_get(c2, k2),
                    old(pheromones).spec_get(c2, k2)),
            final(self).spec_laid_kind() matches Some(kind) ==> {
                &&& final(pheromones).spec_get(final(self).position, kind)
                    == (match old(pheromones).spec_get(final(self).position, kind) {
                        Some(p) => Some(Pheromone {
                            strength: p.spec_refreshed_strength(p.strength as int) as u16,
                            ..p
                        }),
                        None => Some(Pheromone {
                            strength: MAXIMUM_PHEROMONE_STRENGTH,
                            decay_rate: config.spec_decay_rate(kind),
                            kind,
                        }),
                    })
                &&& forall|c2: Coordinates, k2: PheromoneType|
                    c2.wf() && !(c2 == final(self).position && k2 == kind)
                        ==> #[trigger] final(pheromones).spec_get(c2, k2)
                            == old(pheromones).spec_get(c2, k2)
                &&& final(pheromones).lookup@
                    == if old(pheromones).spec_get(final(self).position, kind) is Some {
                        old(pheromones).lookup@
                    } else {
                        old(pheromones).lookup@.push((final(self).position, kind))
                    }
            },
            final(self).spec_laid_kind() is None ==> *final(pheromones) == *old(pheromones),
    {
        if self.steps_on_journey < u16::MAX {
            self.steps_on_journey = self.steps_on_journey + 1;
        }
        let food = resources.get(self.position);
        if food.is_some() {
            self.is_returning = true;
            self.found_food = true;
            resources.consume_at(self.position);
        }
        self.move_ant(pheromones, config);
        self.update_pheromone(pheromones, config);
        proof {
            assert forall|c2: Coordinates, k2: PheromoneType| c2.wf()
                implies spec_marker_ge(#[trigger] final(pheromones).spec_get(c2, k2),
                    old(pheromones).spec_get(c2, k2)) by {
                if old(pheromones).spec_get(c2, k2) is Some {
                    assert(old(pheromones).spec_get(c2, k2)->0.wf());
                }
            }
        }
    }
}

} // verus!
