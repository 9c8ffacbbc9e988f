use ant_sim::ant::AntType;
use ant_sim::ant_settings::{
    DEFAULT_RESOURCE_COUNT, MAXIMUM_PHEROMONE_STRENGTH, WORLD_HEIGHT, WORLD_WIDTH,
};
use ant_sim::colony::Colony;
use ant_sim::config::Config;
use ant_sim::coords::Coordinates;
use ant_sim::resource::Resource;
use ant_sim::world::World;

#[test]
fn new_world_places_the_given_food_and_colonies() {
    let tile_a = Coordinates::new(1, 2).unwrap();
    let tile_b = Coordinates::new(3, 4).unwrap();
    let food = vec![
        (tile_a, Resource::new(5).unwrap()),
        (tile_b, Resource::new(9).unwrap()),
    ];
    let colonies = vec![Colony::default()];
    let world = World::new(food, colonies);
    assert_eq!(world.resources.get(tile_a).unwrap().get_remaining(), 5);
    assert_eq!(world.resources.get(tile_b).unwrap().get_remaining(), 9);
    assert_eq!(world.resources.lookup_len(), 2);
    assert_eq!(world.colonies.len(), 1);
    assert_eq!(world.pheromones.lookup_len(), 0);
}

#[test]
fn default_world_has_one_colony_and_the_configured_resources() {
    let world = World::default();
    assert_eq!(world.colonies.len(), 1);
    assert_eq!(world.resources.lookup_len(), DEFAULT_RESOURCE_COUNT as usize);
    assert_eq!(world.pheromones.lookup_len(), 0);
}

#[test]
fn new_colony_appends_a_default_colony() {
    let mut world = World::new(Vec::new(), Vec::new());
    world.new_colony();
    world.new_colony();
    assert_eq!(world.colonies.len(), 2);
    assert_eq!(
        world.colonies[1].get_position().get_x_position_u16(),
        WORLD_WIDTH / 2
    );
}

#[test]
fn new_resource_lands_on_a_free_tile() {
    let mut world = World::new(Vec::new(), Vec::new());
    for expected in 1..=20usize {
        assert!(world.new_resource());
        assert_eq!(world.resources.lookup_len(), expected);
    }
    // Every placed resource has the configured size.
    for i in 0..world.resources.lookup_len() {
        let tile = world.resources.lookup_at(i);
        let resource = world.resources.get(tile).unwrap();
        assert_eq!(resource.get_remaining(), world.config.resource_size);
    }
}

#[test]
fn fifty_ticks_keep_every_invariant() {
    let mut world = World::default();
    let config = world.config;
    for _ in 0..50 {
        world.update();

        // Every ant stands inside the grid, and no kind exceeds its cap.
        for colony in world.colonies.iter() {
            let groups = colony.iter_ants();
            for (kind, ants) in groups.iter() {
                let cap = match kind {
                    AntType::Scout => config.scout_cap,
                    AntType::Worker => config.worker_cap,
                };
                assert!(ants.len() <= cap as usize);
                for ant in ants.iter() {
                    assert!(ant.position.get_x_position_u16() < WORLD_WIDTH);
                    assert!(ant.position.get_y_position_u16() < WORLD_HEIGHT);
                }
            }
        }

        // Every pheromone index entry points at a live grid cell of its
        // kind, decayed this tick: at least one decay step under the cap.
        for i in 0..world.pheromones.lookup_len() {
            let (tile, kind) = world.pheromones.lookup_at(i);
            let marker = world.pheromones.get(tile, kind);
            assert!(marker.is_some());
            let marker = marker.unwrap();
            assert!(marker.kind == kind);
            assert!(marker.get_strength() > 0);
            assert!(
                marker.get_strength() as u32 + marker.decay_rate as u32
                    <= MAXIMUM_PHEROMONE_STRENGTH as u32
            );
        }

        // Every resource index entry points at a non-empty grid cell.
        for i in 0..world.resources.lookup_len() {
            let tile = world.resources.lookup_at(i);
            let resource = world.resources.get(tile);
            assert!(resource.is_some());
            assert!(resource.unwrap().get_remaining() >= 1);
        }
    }
    assert_eq!(world.colonies.len(), 1);
}

#[test]
fn ticks_keep_grid_and_index_consistent_on_every_tile() {
    let mut world = World::default();
    for _ in 0..10 {
        world.update();
        // Collect the index once, then check both directions of the
        // consistency invariant over the full grid.
        let mut indexed = vec![vec![[false; 2]; WORLD_HEIGHT as usize]; WORLD_WIDTH as usize];
        for i in 0..world.pheromones.lookup_len() {
            let (tile, kind) = world.pheromones.lookup_at(i);
            indexed[tile.get_x_position_usize()][tile.get_y_position_usize()]
                [kind.as_pheromone_index()] = true;
        }
        for x in 0..WORLD_WIDTH {
            for y in 0..WORLD_HEIGHT {
                let tile = Coordinates::new(x, y).unwrap();
                for kind in [
                    ant_sim::pheromone::PheromoneType::Exploration,
                    ant_sim::pheromone::PheromoneType::Resource,
                ] {
                    let in_grid = world.pheromones.get(tile, kind).is_some();
                    let in_index =
                        indexed[x as usize][y as usize][kind.as_pheromone_index()];
                    assert_eq!(in_grid, in_index);
                }
            }
        }
    }
}

#[test]
fn a_live_trail_survives_every_tick() {
    let mut world = World::default();
    for _ in 0..20 {
        // Remember every marker strong enough to outlast one decay step.
        let mut strong: Vec<(Coordinates, ant_sim::pheromone::PheromoneType, u16, u16)> =
            Vec::new();
        for i in 0..world.pheromones.lookup_len() {
            let (tile, kind) = world.pheromones.lookup_at(i);
            let marker = world.pheromones.get(tile, kind).unwrap();
            if marker.get_strength() > marker.decay_rate {
                strong.push((tile, kind, marker.get_strength(), marker.decay_rate));
            }
        }
        world.update();
        for (tile, kind, strength, rate) in strong {
            let marker = world.pheromones.get(tile, kind);
            assert!(marker.is_some());
            assert!(marker.unwrap().get_strength() >= strength - rate);
        }
    }
}

#[test]
fn a_custom_configuration_is_respected() {
    let mut config = Config::default();
    config.scout_cap = 3;
    config.worker_cap = 2;
    config.territory_size = 8;
    let mut world = World::new_with_config(Vec::new(), vec![Colony::default()], config);
    for _ in 0..20 {
        world.update();
        assert!(world.colonies[0].ant_count(AntType::Scout) <= 3);
        assert!(world.colonies[0].ant_count(AntType::Worker) <= 2);
    }
    assert_eq!(world.colonies[0].ant_count(AntType::Scout), 3);
    assert_eq!(world.colonies[0].ant_count(AntType::Worker), 2);
}
