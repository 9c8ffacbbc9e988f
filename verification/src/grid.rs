//! The world's tile stores: a dense grid for O(1) point lookup, paired with
//! a sparse index list for iteration over the few active tiles.
//!
//! Each pairing is kept behind mutation helpers that update grid and index
//! together, so the consistency invariant — a tile entry exists in the grid
//! iff its key is in the index, exactly once — holds at every step.

use vstd::prelude::*;

use crate::ant_settings::{
    MAXIMUM_PHEROMONE_STRENGTH, PHEROMONE_TYPES_COUNT, WORLD_HEIGHT, WORLD_WIDTH,
};
use crate::coords::Coordinates;
use crate::pheromone::{Pheromone, PheromoneType};
use crate::resource::Resource;

verus! {

/// The flat-grid slot of a tile: row-major by x, then y.
pub open spec fn spec_tile_index(c: Coordinates) -> int {
    c.x_position * WORLD_HEIGHT + c.y_position
}

/// The flat-grid slot of an in-bounds tile lies inside the grid vector.
pub proof fn lemma_tile_index_bounds(c: Coordinates)
    requires
        c.wf(),
    ensures
        0 <= spec_tile_index(c) < WORLD_WIDTH * WORLD_HEIGHT,
{
    assert(0 <= c.x_position * WORLD_HEIGHT + c.y_position
        < WORLD_WIDTH * WORLD_HEIGHT) by (nonlinear_arith)
        requires
            c.x_position < WORLD_WIDTH,
            c.y_position < WORLD_HEIGHT,
    ;
}

/// Distinct in-bounds tiles occupy distinct flat-grid slots.
pub proof fn lemma_tile_index_injective(a: Coordinates, b: Coordinates)
    requires
        a.wf(),
        b.wf(),
        a != b,
    ensures
        spec_tile_index(a) != spec_tile_index(b),
{
    assert(a.x_position * WORLD_HEIGHT + a.y_position
        != b.x_position * WORLD_HEIGHT + b.y_position) by (nonlinear_arith)
        requires
            a.y_position < WORLD_HEIGHT,
            b.y_position < WORLD_HEIGHT,
            !(a.x_position == b.x_position && a.y_position == b.y_position),
    ;
}

/// Pushing an element changes nothing about membership of other values.
pub proof fn lemma_push_contains<A>(s: Seq<A>, x: A, y: A)
    ensures
        s.push(x).contains(y) <==> (s.contains(y) || x == y),
{
    if s.contains(y) {
        let i = choose|i: int| 0 <= i < s.len() && s[i] == y;
        assert(s.push(x)[i] == y);
    }
    if x == y {
        assert(s.push(x)[s.len() as int] == y);
    }
    if s.push(x).contains(y) && x != y {
        let i = choose|i: int| 0 <= i < s.push(x).len() && s.push(x)[i] == y;
        assert(0 <= i < s.len() + 1);
        if i < s.len() {
            assert(s[i] == y);
        } else {
            assert(s.push(x)[i] == x);
        }
    }
}

/// Removing one position changes nothing about membership of other values.
pub proof fn lemma_remove_contains<A>(s: Seq<A>, i: int, y: A)
    requires
        0 <= i < s.len(),
        s[i] != y,
    ensures
        s.remove(i).contains(y) <==> s.contains(y),
{
    s.remove_ensures(i);
    if s.contains(y) {
        let j = choose|j: int| 0 <= j < s.len() && s[j] == y;
        if j < i {
            assert(s.remove(i)[j] == y);
        } else {
            assert(s.remove(i)[j - 1] == y);
        }
    }
    if s.remove(i).contains(y) {
        let j = choose|j: int| 0 <= j < s.remove(i).len() && s.remove(i)[j] == y;
        if j < i {
            assert(s[j] == y);
        } else {
            assert(s[j + 1] == y);
        }
    }
}

/// Pushing a fresh element keeps a duplicate-free sequence duplicate free.
pub proof fn lemma_push_no_duplicates<A>(s: Seq<A>, x: A)
    requires
        s.no_duplicates(),
        !s.contains(x),
    ensures
        s.push(x).no_duplicates(),
{
    assert forall|i: int, j: int|
        0 <= i < s.push(x).len() && 0 <= j < s.push(x).len() && i != j
        implies s.push(x)[i] != s.push(x)[j] by {
        if i < s.len() && j < s.len() {
            assert(s[i] != s[j]);
        } else if i < s.len() {
            assert(s.push(x)[j] == x);
            assert(s.contains(s[i]) ==> true);
            assert(s.push(x)[i] == s[i]);
            if s[i] == x {
                assert(s.contains(x));
            }
        } else {
            assert(s.push(x)[i] == x);
            assert(s.push(x)[j] == s[j]);
            if s[j] == x {
                assert(s.contains(x));
            }
        }
    }
}

/// Removing a position keeps a duplicate-free sequence duplicate free.
pub proof fn lemma_remove_no_duplicates<A>(s: Seq<A>, i: int)
    requires
        0 <= i < s.len(),
        s.no_duplicates(),
    ensures
        s.remove(i).no_duplicates(),
{
    s.remove_ensures(i);
}

/// A depletable food store per tile, with a sparse index of occupied tiles.
pub struct ResourceField {
    /// One optional resource per tile, indexed by [`spec_tile_index`].
    pub grid: Vec<Option<Resource>>,
    /// The coordinates of every occupied tile, each exactly once.
    pub lookup: Vec<Coordinates>,
}

impl ResourceField {
    /// The resource stored at tile `c`.
    pub open spec fn spec_get(self, c: Coordinates) -> Option<Resource> {
        self.grid@[spec_tile_index(c)]
    }

    /// The grid covers the world, every stored resource still has food in
    /// it, and the grid agrees with the duplicate-free index.
    pub open spec fn wf(self) -> bool {
        &&& self.grid@.len() == WORLD_WIDTH * WORLD_HEIGHT
        &&& forall|c: Coordinates| c.wf() ==> (#[trigger] self.spec_get(c) matches Some(r)
            ==> r.resources_remaining >= 1)
        &&& forall|c: Coordinates| c.wf() ==> ((#[trigger] self.spec_get(c)) is Some
            <==> self.lookup@.contains(c))
        &&& forall|i: int| 0 <= i < self.lookup@.len() ==> (#[trigger] self.lookup@[i]).wf()
        &&& self.lookup@.no_duplicates()
    }

    /// Creates an empty field.
    pub fn new() -> (r: ResourceField)
        ensures
            r.wf(),
            forall|c: Coordinates| c.wf() ==> (#[trigger] r.spec_get(c)) is None,
            r.lookup@.len() == 0,
    {
        let total: usize = WORLD_WIDTH as usize * WORLD_HEIGHT as usize;
        let mut grid: Vec<Option<Resource>> = Vec::new();
        while grid.len() < total
            invariant
                grid@.len() <= total,
                forall|i: int| 0 <= i < grid@.len() ==> (#[trigger] grid@[i]) is None,
            decreases total - grid@.len(),
        {
            grid.push(None);
        }
        let field = ResourceField { grid, lookup: Vec::new() };
        proof {
            assert forall|c: Coordinates| c.wf()
                implies (#[trigger] field.spec_get(c)) is None by {
                lemma_tile_index_bounds(c);
            }
        }
        field
    }

    /// The flat-grid slot of tile `c`.
    fn tile_index(c: Coordinates) -> (r: usize)
        requires
            c.wf(),
        ensures
            r == spec_tile_index(c),
            r < WORLD_WIDTH * WORLD_HEIGHT,
    {
        proof {
            lemma_tile_index_bounds(c);
        }
        c.x_position as usize * WORLD_HEIGHT as usize + c.y_position as usize
    }

    /// Returns the resource at tile `c`, if any.
    pub fn get(&self, c: Coordinates) -> (r: Option<Resource>)
        requires
            self.wf(),
            c.wf(),
        ensures
            r == self.spec_get(c),
    {
        let idx = Self::tile_index(c);
        self.grid[idx]
    }

    /// Places a fresh resource of `size` units at tile `c`, unless the tile
    /// is already occupied. Updates grid and index together.
    pub fn place(&mut self, c: Coordinates, size: u8) -> (placed: bool)
        requires
            old(self).wf(),
            c.wf(),
            size >= 1,
        ensures
            final(self).wf(),
            placed == (old(self).spec_get(c) is None),
            final(self).spec_get(c) == if placed {
                Some(Resource { resources_remaining: size })
            } else {
                old(self).spec_get(c)
            },
            forall|c2: Coordinates| c2.wf() && c2 != c
                ==> #[trigger] final(self).spec_get(c2) == old(self).spec_get(c2),
            final(self).lookup@ == if placed {
                old(self).lookup@.push(c)
            } else {
                old(self).lookup@
            },
    {
        let idx = Self::tile_index(c);
        if self.grid[idx].is_some() {
            return false;
        }
        self.grid.set(idx, Some(Resource { resources_remaining: size }));
        self.lookup.push(c);
        proof {
            assert forall|c2: Coordinates| c2.wf() && c2 != c
                implies #[trigger] self.spec_get(c2) == old(self).spec_get(c2) by {
                lemma_tile_index_bounds(c2);
                lemma_tile_index_injective(c, c2);
            }
            assert forall|c2: Coordinates| c2.wf()
                implies ((#[trigger] self.spec_get(c2)) is Some
                    <==> self.lookup@.contains(c2)) by {
                lemma_tile_index_bounds(c2);
                lemma_push_contains(old(self).lookup@, c, c2);
                if c2 != c {
                    lemma_tile_index_injective(c, c2);
                }
            }
            assert(!old(self).lookup@.contains(c));
            assert(self.lookup@.no_duplicates());
        }
        true
    }

    /// Takes one unit of food from the resource at tile `c`. When the last
    /// unit goes, returns `None` and clears the tile from grid and index.
    pub fn consume_at(&mut self, c: Coordinates) -> (r: Option<u8>)
        requires
            old(self).wf(),
            c.wf(),
            old(self).spec_get(c) is Some,
        ensures
            final(self).wf(),
            ({
                let remaining = old(self).spec_get(c)->0.resources_remaining;
                &&& r == if remaining > 1 { Some((remaining - 1) as u8) } else { Option::<u8>::None }
                &&& final(self).spec_get(c) == if remaining > 1 {
                    Some(Resource { resources_remaining: (remaining - 1) as u8 })
                } else {
                    Option::<Resource>::None
                }
            }),
            forall|c2: Coordinates| c2.wf() && c2 != c
                ==> #[trigger] final(self).spec_get(c2) == old(self).spec_get(c2),
            r is Some ==> final(self).lookup@ == old(self).lookup@,
            r is None ==> final(self).lookup@.len() == old(self).lookup@.len() - 1
                && !final(self).lookup@.contains(c),
    {
        let idx = Self::tile_index(c);
        let cell = self.grid[idx];
        let mut resource = cell.unwrap();
        let outcome = resource.consume();
        if outcome.is_some() {
            self.grid.set(idx, Some(resource));
            proof {
                assert forall|c2: Coordinates| c2.wf() && c2 != c
                    implies #[trigger] self.spec_get(c2) == old(self).spec_get(c2) by {
                    lemma_tile_index_injective(c, c2);
                }
            }
        } else {
            self.grid.set(idx, None);
            self.remove_lookup_entry(c);
            proof {
                assert forall|c2: Coordinates| c2.wf() && c2 != c
                    implies #[trigger] self.spec_get(c2) == old(self).spec_get(c2) by {
                    lemma_tile_index_injective(c, c2);
                }
            }
        }
        outcome
    }

    /// Removes the (unique) index entry for tile `c`.
    fn remove_lookup_entry(&mut self, c: Coordinates)
        requires
            old(self).lookup@.contains(c),
            old(self).lookup@.no_duplicates(),
            forall|i: int| 0 <= i < old(self).lookup@.len()
                ==> (#[trigger] old(self).lookup@[i]).wf(),
        ensures
            final(self).grid == old(self).grid,
            final(self).lookup@.len() == old(self).lookup@.len() - 1,
            !final(self).lookup@.contains(c),
            forall|c2: Coordinates| c2 != c ==> (final(self).lookup@.contains(c2)
                <==> old(self).lookup@.contains(c2)),
            forall|i: int| 0 <= i < final(self).lookup@.len()
                ==> (#[trigger] final(self).lookup@[i]).wf(),
            final(self).lookup@.no_duplicates(),
    {
        let ghost old_lookup = self.lookup@;
        let mut i: usize = 0;
        while i < self.lookup.len() && !(self.lookup[i] == c)
            invariant
                self.lookup@ == old_lookup,
                0 <= i <= old_lookup.len(),
                forall|j: int| 0 <= j < i ==> old_lookup[j] != c,
                old_lookup.contains(c),
            decreases old_lookup.len() - i,
        {
            i += 1;
        }
        proof {
            let w = choose|w: int| 0 <= w < old_lookup.len() && old_lookup[w] == c;
            assert(i < old_lookup.len());
            assert(old_lookup[i as int] == c);
        }
        self.lookup.remove(i);
        proof {
            old_lookup.remove_ensures(i as int);
            lemma_remove_no_duplicates(old_lookup, i as int);
            assert forall|c2: Coordinates| c2 != c
                implies (self.lookup@.contains(c2) <==> old_lookup.contains(c2)) by {
                lemma_remove_contains(old_lookup, i as int, c2);
            }
            if self.lookup@.contains(c) {
                let j = choose|j: int| 0 <= j < self.lookup@.len() && self.lookup@[j] == c;
                old_lookup.remove_ensures(i as int);
                if j < i {
                    assert(old_lookup[j] == c);
                } else {
                    assert(old_lookup[j + 1] == c);
                }
            }
        }
    }

    /// The number of occupied tiles.
    pub fn lookup_len(&self) -> (r: usize)
        ensures
            r == self.lookup@.len(),
    {
        self.lookup.len()
    }

    /// The coordinates of the `i`-th occupied tile.
    pub fn lookup_at(&self, i: usize) -> (r: Coordinates)
        requires
            i < self.lookup@.len(),
        ensures
            r == self.lookup@[i as int],
    {
        self.lookup[i]
    }
}


/// The flat-grid slot of one pheromone layer of a tile.
pub open spec fn spec_layer_index(c: Coordinates, kind: PheromoneType) -> int {
    spec_tile_index(c) * PHEROMONE_TYPES_COUNT + kind.spec_index()
}

/// The layer slot of an in-bounds tile lies inside the layered grid vector.
pub proof fn lemma_layer_index_bounds(c: Coordinates, kind: PheromoneType)
    requires
        c.wf(),
    ensures
        0 <= spec_layer_index(c, kind) < WORLD_WIDTH * WORLD_HEIGHT * PHEROMONE_TYPES_COUNT,
{
    lemma_tile_index_bounds(c);
    assert(0 <= kind.spec_index() < PHEROMONE_TYPES_COUNT);
    assert(0 <= spec_tile_index(c) * PHEROMONE_TYPES_COUNT + kind.spec_index()
        < WORLD_WIDTH * WORLD_HEIGHT * PHEROMONE_TYPES_COUNT) by (nonlinear_arith)
        requires
            0 <= spec_tile_index(c) < WORLD_WIDTH * WORLD_HEIGHT,
            0 <= kind.spec_index() < PHEROMONE_TYPES_COUNT,
    ;
}

/// Distinct (tile, kind) pairs occupy distinct layer slots.
pub proof fn lemma_layer_index_injective(
    a: Coordinates,
    ak: PheromoneType,
    b: Coordinates,
    bk: PheromoneType,
)
    requires
        a.wf(),
        b.wf(),
        !(a == b && ak == bk),
    ensures
        spec_layer_index(a, ak) != spec_layer_index(b, bk),
{
    if a != b {
        lemma_tile_index_injective(a, b);
        assert(spec_tile_index(a) * PHEROMONE_TYPES_COUNT + ak.spec_index()
            != spec_tile_index(b) * PHEROMONE_TYPES_COUNT + bk.spec_index()) by (nonlinear_arith)
            requires
                spec_tile_index(a) != spec_tile_index(b),
                0 <= ak.spec_index() < PHEROMONE_TYPES_COUNT,
                0 <= bk.spec_index() < PHEROMONE_TYPES_COUNT,
        ;
    } else {
        assert(ak.spec_index() != bk.spec_index());
    }
}

/// What one world tick makes of a pheromone layer cell: the strength drops
/// by the decay rate, and a cell that reaches zero is evicted.
pub open spec fn spec_decayed(cell: Option<Pheromone>) -> Option<Pheromone> {
    match cell {
        Some(p) => if p.spec_ticked_strength() > 0 {
            Some(Pheromone { strength: p.spec_ticked_strength() as u16, ..p })
        } else {
            None
        },
        None => None,
    }
}

/// The two phases a tick puts the pheromone field through: first the agent
/// phase, in which markers are only laid and refreshed — every cell of the
/// intermediate field carries at least the marker it had before — and then
/// the decay sweep, which takes every cell to exactly its decayed value,
/// evicting the markers that reach zero. Running the phases the other way
/// round, or skipping the sweep, admits no such intermediate field: a
/// well-formed intermediate cannot exceed the strength cap, so no cell of
/// the final field can sit within one decay step of the cap.
pub open spec fn spec_tick_pheromone_phases(
    before: PheromoneField,
    mid: PheromoneField,
    after: PheromoneField,
) -> bool {
    &&& mid.wf()
    &&& forall|c: Coordinates, k: PheromoneType| c.wf()
        ==> crate::pheromone::spec_marker_ge(#[trigger] mid.spec_get(c, k),
            before.spec_get(c, k))
    &&& forall|c: Coordinates, k: PheromoneType| c.wf()
        ==> #[trigger] after.spec_get(c, k) == spec_decayed(mid.spec_get(c, k))
}

/// The two pheromone layers of every tile, with a sparse index of the live
/// markers.
pub struct PheromoneField {
    /// One optional pheromone per tile and layer, indexed by
    /// [`spec_layer_index`].
    pub grid: Vec<Option<Pheromone>>,
    /// The (tile, kind) key of every live marker, each exactly once.
    pub lookup: Vec<(Coordinates, PheromoneType)>,
}

impl PheromoneField {
    /// The pheromone stored in layer `kind` of tile `c`.
    pub open spec fn spec_get(self, c: Coordinates, kind: PheromoneType) -> Option<Pheromone> {
        self.grid@[spec_layer_index(c, kind)]
    }

    /// The grid covers the world, every stored marker is well formed and
    /// lies in its own kind's layer, and the grid agrees with the
    /// duplicate-free index.
    pub open spec fn wf(self) -> bool {
        &&& self.grid@.len() == WORLD_WIDTH * WORLD_HEIGHT * PHEROMONE_TYPES_COUNT
        &&& forall|c: Coordinates, k: PheromoneType| c.wf()
            ==> (#[trigger] self.spec_get(c, k) matches Some(p) ==> p.wf() && p.kind == k)
        &&& forall|c: Coordinates, k: PheromoneType| c.wf()
            ==> ((#[trigger] self.spec_get(c, k)) is Some <==> self.lookup@.contains((c, k)))
        &&& forall|i: int| 0 <= i < self.lookup@.len() ==> (#[trigger] self.lookup@[i]).0.wf()
        &&& self.lookup@.no_duplicates()
    }

    /// Creates an empty field.
    pub fn new() -> (r: PheromoneField)
        ensures
            r.wf(),
            forall|c: Coordinates, k: PheromoneType| c.wf()
                ==> (#[trigger] r.spec_get(c, k)) is None,
            r.lookup@.len() == 0,
    {
        proof {
            assert(WORLD_WIDTH as usize * WORLD_HEIGHT as usize == 4096
                && WORLD_WIDTH as usize * WORLD_HEIGHT as usize * PHEROMONE_TYPES_COUNT == 8192)
                by (nonlinear_arith)
                requires
                    WORLD_WIDTH == 64,
                    WORLD_HEIGHT == 64,
                    PHEROMONE_TYPES_COUNT == 2,
            ;
        }
        let total: usize = WORLD_WIDTH as usize * WORLD_HEIGHT as usize * PHEROMONE_TYPES_COUNT;
        let mut grid: Vec<Option<Pheromone>> = Vec::new();
        while grid.len() < total
            invariant
                grid@.len() <= total,
                forall|i: int| 0 <= i < grid@.len() ==> (#[trigger] grid@[i]) is None,
            decreases total - grid@.len(),
        {
            grid.push(None);
        }
        let field = PheromoneField { grid, lookup: Vec::new() };
        proof {
            assert forall|c: Coordinates, k: PheromoneType| c.wf()
                implies (#[trigger] field.spec_get(c, k)) is None by {
                lemma_layer_index_bounds(c, k);
            }
        }
        field
    }

    /// The flat-grid slot of layer `kind` of tile `c`.
    fn layer_index(c: Coordinates, kind: PheromoneType) -> (r: usize)
        requires
            c.wf(),
        ensures
            r == spec_layer_index(c, kind),
            r < WORLD_WIDTH * WORLD_HEIGHT * PHEROMONE_TYPES_COUNT,
    {
        proof {
            lemma_layer_index_bounds(c, kind);
        }
        (c.x_position as usize * WORLD_HEIGHT as usize + c.y_position as usize)
            * PHEROMONE_TYPES_COUNT + kind.as_pheromone_index()
    }

    /// Returns the pheromone in layer `kind` of tile `c`, if any.
    pub fn get(&self, c: Coordinates, kind: PheromoneType) -> (r: Option<Pheromone>)
        requires
            self.wf(),
            c.wf(),
        ensures
            r == self.spec_get(c, kind),
    {
        let idx = Self::layer_index(c, kind);
        self.grid[idx]
    }

    /// Lays a marker of the given kind at tile `c`: an existing marker is
    /// refreshed by its own current strength (rapid reinforcement), and an
    /// empty layer gets a fresh full-strength marker with the given decay
    /// rate, registered in the index. Updates grid and index together.
    pub fn deposit(&mut self, c: Coordinates, kind: PheromoneType, decay_rate: u16)
        requires
            old(self).wf(),
            c.wf(),
            decay_rate <= MAXIMUM_PHEROMONE_STRENGTH,
        ensures
            final(self).wf(),
            final(self).spec_get(c, kind) == (match old(self).spec_get(c, kind) {
                Some(p) => Some(Pheromone {
                    strength: p.spec_refreshed_strength(p.strength as int) as u16,
                    ..p
                }),
                None => Some(Pheromone {
                    strength: MAXIMUM_PHEROMONE_STRENGTH,
                    decay_rate,
                    kind,
                }),
            }),
            forall|c2: Coordinates, k2: PheromoneType| c2.wf() && !(c2 == c && k2 == kind)
                ==> #[trigger] final(self).spec_get(c2, k2) == old(self).spec_get(c2, k2),
            final(self).lookup@ == if old(self).spec_get(c, kind) is Some {
                old(self).lookup@
            } else {
                old(self).lookup@.push((c, kind))
            },
    {
        let idx = Self::layer_index(c, kind);
        let cell = self.grid[idx];
        match cell {
            Some(existing) => {
                let mut refreshed = existing;
                let amount = existing.get_strength();
                refreshed.refresh(amount);
                self.grid.set(idx, Some(refreshed));
                proof {
                    assert forall|c2: Coordinates, k2: PheromoneType|
                        c2.wf() && !(c2 == c && k2 == kind)
                        implies #[trigger] self.spec_get(c2, k2) == old(self).spec_get(c2, k2) by {
                        lemma_layer_index_bounds(c2, k2);
                        lemma_layer_index_injective(c, kind, c2, k2);
                    }
                }
            },
            None => {
                self.grid.set(idx, Some(Pheromone::default_with_rate(kind, decay_rate)));
                self.lookup.push((c, kind));
                proof {
                    assert forall|c2: Coordinates, k2: PheromoneType|
                        c2.wf() && !(c2 == c && k2 == kind)
                        implies #[trigger] self.spec_get(c2, k2) == old(self).spec_get(c2, k2) by {
                        lemma_layer_index_bounds(c2, k2);
                        lemma_layer_index_injective(c, kind, c2, k2);
                    }
                    assert forall|c2: Coordinates, k2: PheromoneType| c2.wf()
                        implies ((#[trigger] self.spec_get(c2, k2)) is Some
                            <==> self.lookup@.contains((c2, k2))) by {
                        lemma_layer_index_bounds(c2, k2);
                        lemma_push_contains(old(self).lookup@, (c, kind), (c2, k2));
                        if !(c2 == c && k2 == kind) {
                            lemma_layer_index_injective(c, kind, c2, k2);
                        }
                    }
                    assert(!old(self).lookup@.contains((c, kind)));
                    lemma_push_no_duplicates(old(self).lookup@, (c, kind));
                }
            },
        }
    }

    /// Decays every live marker by one tick, evicting the ones whose
    /// strength reaches zero from grid and index together.
    pub fn decay_tick(&mut self)
        requires
            old(self).wf(),
        ensures
            final(self).wf(),
            forall|c2: Coordinates, k2: PheromoneType| c2.wf()
                ==> #[trigger] final(self).spec_get(c2, k2)
                    == spec_decayed(old(self).spec_get(c2, k2)),
    {
        let ghost orig = *old(self);
        let mut retained: Vec<(Coordinates, PheromoneType)> = Vec::new();
        let mut i: usize = 0;
        while i < self.lookup.len()
            invariant
                orig.wf(),
                self.lookup@ == orig.lookup@,
                0 <= i <= orig.lookup@.len(),
                self.grid@.len() == orig.grid@.len(),
                forall|c2: Coordinates, k2: PheromoneType| c2.wf()
                    ==> #[trigger] self.spec_get(c2, k2)
                        == if orig.lookup@.subrange(0, i as int).contains((c2, k2)) {
                            spec_decayed(orig.spec_get(c2, k2))
                        } else {
                            orig.spec_get(c2, k2)
                        },
                forall|e: (Coordinates, PheromoneType)| #[trigger] retained@.contains(e)
                    <==> (orig.lookup@.subrange(0, i as int).contains(e)
                        && spec_decayed(orig.spec_get(e.0, e.1)) is Some),
                retained@.no_duplicates(),
                forall|j: int| 0 <= j < retained@.len() ==> (#[trigger] retained@[j]).0.wf(),
            decreases orig.lookup@.len() - i,
        {
            let ghost pre = *self;
            let ghost retained_pre = retained@;
            let ghost prefix = orig.lookup@.subrange(0, i as int);
            let ghost prefix1 = orig.lookup@.subrange(0, i as int + 1);
            let entry = self.lookup[i];
            let c = entry.0;
            let kind = entry.1;
            proof {
                assert(orig.lookup@[i as int] == entry);
                assert(c.wf());
                assert(orig.lookup@.contains(entry));
                if prefix.contains(entry) {
                    let j = choose|j: int| 0 <= j < prefix.len() && prefix[j] == entry;
                    assert(orig.lookup@[j] == entry);
                }
                assert(!prefix.contains(entry));
                assert(pre.spec_get(c, kind) == orig.spec_get(c, kind));
                assert(orig.spec_get(c, kind) is Some);
                lemma_layer_index_bounds(c, kind);
            }
            let idx = Self::layer_index(c, kind);
            let cell = self.grid[idx];
            proof {
                assert(cell == pre.spec_get(c, kind));
            }
            let mut marker = cell.unwrap();
            let alive = marker.update();
            if alive {
                self.grid.set(idx, Some(marker));
                proof {
                    assert(!retained_pre.contains(entry));
                    lemma_push_no_duplicates(retained_pre, entry);
                }
                retained.push(entry);
            } else {
                self.grid.set(idx, None);
            }
            proof {
                assert(prefix1 =~= prefix.push(entry));
                assert(spec_decayed(orig.spec_get(c, kind)) == if alive {
                    Some(marker)
                } else {
                    Option::<Pheromone>::None
                });
                assert forall|c2: Coordinates, k2: PheromoneType| c2.wf()
                    implies #[trigger] self.spec_get(c2, k2)
                        == if prefix1.contains((c2, k2)) {
                            spec_decayed(orig.spec_get(c2, k2))
                        } else {
                            orig.spec_get(c2, k2)
                        } by {
                    lemma_layer_index_bounds(c2, k2);
                    lemma_push_contains(prefix, entry, (c2, k2));
                    assert(pre.spec_get(c2, k2) == if prefix.contains((c2, k2)) {
                        spec_decayed(orig.spec_get(c2, k2))
                    } else {
                        orig.spec_get(c2, k2)
                    });
                    if c2 == c && k2 == kind {
                        assert(self.spec_get(c2, k2) == if alive {
                            Some(marker)
                        } else {
                            Option::<Pheromone>::None
                        });
                    } else {
                        lemma_layer_index_injective(c, kind, c2, k2);
                        assert(self.spec_get(c2, k2) == pre.spec_get(c2, k2));
                    }
                }
                assert forall|e: (Coordinates, PheromoneType)| #[trigger] retained@.contains(e)
                    <==> (prefix1.contains(e)
                        && spec_decayed(orig.spec_get(e.0, e.1)) is Some) by {
                    lemma_push_contains(prefix, entry, e);
                    assert(retained_pre.contains(e) <==> (prefix.contains(e)
                        && spec_decayed(orig.spec_get(e.0, e.1)) is Some));
                    if alive {
                        assert(retained@ == retained_pre.push(entry));
                        lemma_push_contains(retained_pre, entry, e);
                    } else {
                        assert(retained@ == retained_pre);
                    }
                }
                assert forall|j: int| 0 <= j < retained@.len()
                    implies (#[trigger] retained@[j]).0.wf() by {
                    if alive && j == retained@.len() - 1 {
                        assert(retained@[j] == entry);
                    } else {
                        assert(retained@[j] == retained_pre[j]);
                    }
                }
            }
            i += 1;
        }
        let ghost done = *self;
        self.lookup = retained;
        proof {
            assert(orig.lookup@.subrange(0, orig.lookup@.len() as int) =~= orig.lookup@);
            assert forall|c2: Coordinates, k2: PheromoneType| c2.wf()
                implies #[trigger] self.spec_get(c2, k2)
                    == spec_decayed(orig.spec_get(c2, k2)) by {
                lemma_layer_index_bounds(c2, k2);
                assert(done.spec_get(c2, k2) == if orig.lookup@.contains((c2, k2)) {
                    spec_decayed(orig.spec_get(c2, k2))
                } else {
                    orig.spec_get(c2, k2)
                });
                assert(self.spec_get(c2, k2) == done.spec_get(c2, k2));
            }
            assert forall|c2: Coordinates, k2: PheromoneType| c2.wf()
                implies ((#[trigger] self.spec_get(c2, k2)) is Some
                    <==> self.lookup@.contains((c2, k2))) by {
                lemma_layer_index_bounds(c2, k2);
                assert(self.spec_get(c2, k2) == spec_decayed(orig.spec_get(c2, k2)));
                assert(retained@.contains((c2, k2)) <==> (orig.lookup@.contains((c2, k2))
                    && spec_decayed(orig.spec_get(c2, k2)) is Some));
            }
        }
    }

    /// The number of live markers.
    pub fn lookup_len(&self) -> (r: usize)
        ensures
            r == self.lookup@.len(),
    {
        self.lookup.len()
    }

    /// The (tile, kind) key of the `i`-th live marker.
    pub fn lookup_at(&self, i: usize) -> (r: (Coordinates, PheromoneType))
        requires
            i < self.lookup@.len(),
        ensures
            r == self.lookup@[i as int],
    {
        self.lookup[i]
    }
}


/// Law: the pheromone grid and its sparse index always agree — a tile's
/// layer holds no marker exactly when the (tile, kind) key is absent from
/// the index. Construction establishes `wf` and every mutating operation
/// preserves it, so this holds after any number of ticks.
pub proof fn lemma_pheromone_index_consistent(
    field: &PheromoneField,
    c: Coordinates,
    kind: PheromoneType,
)
    requires
        field.wf(),
        c.wf(),
    ensures
        field.spec_get(c, kind) is None <==> !field.lookup@.contains((c, kind)),
{
}

/// Law: the resource grid and its sparse index agree in the same way.
pub proof fn lemma_resource_index_consistent(field: &ResourceField, c: Coordinates)
    requires
        field.wf(),
        c.wf(),
    ensures
        field.spec_get(c) is None <==> !field.lookup@.contains(c),
{
}

/// A resource grid with every tile occupied has one index entry per tile.
pub proof fn lemma_full_grid_fills_lookup(field: &ResourceField)
    requires
        field.wf(),
        forall|c: Coordinates| c.wf() ==> (#[trigger] field.spec_get(c)) is Some,
    ensures
        field.lookup@.len() >= WORLD_WIDTH * WORLD_HEIGHT,
{
    broadcast use vstd::seq_lib::seq_to_set_is_finite;

    let all = Seq::new((WORLD_WIDTH * WORLD_HEIGHT) as nat, |i: int| Coordinates {
        x_position: (i / (WORLD_HEIGHT as int)) as u16,
        y_position: (i % (WORLD_HEIGHT as int)) as u16,
    });
    assert forall|i: int| 0 <= i < all.len()
        implies (#[trigger] all[i]).wf() && field.lookup@.contains(all[i]) by {
        assert(0 <= i / (WORLD_HEIGHT as int) < WORLD_WIDTH
            && 0 <= i % (WORLD_HEIGHT as int) < WORLD_HEIGHT) by (nonlinear_arith)
            requires
                0 <= i < WORLD_WIDTH * WORLD_HEIGHT,
                WORLD_HEIGHT > 0,
        ;
        assert(field.spec_get(all[i]) is Some);
    }
    assert(all.no_duplicates()) by {
        assert forall|i: int, j: int| 0 <= i < all.len() && 0 <= j < all.len() && i != j
            implies all[i] != all[j] by {
            assert(!(i / (WORLD_HEIGHT as int) == j / (WORLD_HEIGHT as int)
                && i % (WORLD_HEIGHT as int) == j % (WORLD_HEIGHT as int))) by (nonlinear_arith)
                requires
                    0 <= i < WORLD_WIDTH * WORLD_HEIGHT,
                    0 <= j < WORLD_WIDTH * WORLD_HEIGHT,
                    i != j,
                    WORLD_HEIGHT > 0,
            ;
            assert(0 <= i / (WORLD_HEIGHT as int) < WORLD_WIDTH
                && 0 <= i % (WORLD_HEIGHT as int) < WORLD_HEIGHT
                && 0 <= j / (WORLD_HEIGHT as int) < WORLD_WIDTH
                && 0 <= j % (WORLD_HEIGHT as int) < WORLD_HEIGHT) by (nonlinear_arith)
                requires
                    0 <= i < WORLD_WIDTH * WORLD_HEIGHT,
                    0 <= j < WORLD_WIDTH * WORLD_HEIGHT,
                    WORLD_HEIGHT > 0,
            ;
        }
    }
    all.unique_seq_to_set();
    field.lookup@.lemma_cardinality_of_set();
    assert(all.to_set().subset_of(field.lookup@.to_set()));
    vstd::set_lib::lemma_len_subset(all.to_set(), field.lookup@.to_set());
}
} // verus!
