use ant_sim::ant::AntType;
use ant_sim::ant_settings::{DEFAULT_COLONY_SPAWN_RATE, WORLD_HEIGHT, WORLD_WIDTH};
use ant_sim::colony::Colony;
use ant_sim::config::Config;
use ant_sim::coords::Coordinates;
use ant_sim::grid::{PheromoneField, ResourceField};

#[test]
fn new_colony_is_empty_with_the_default_spawn_rate() {
    let position = Coordinates::new(12, 34).unwrap();
    let colony = Colony::new(position);
    assert_eq!(colony.get_position().get_x_position_u16(), 12);
    assert_eq!(colony.get_position().get_y_position_u16(), 34);
    assert_eq!(colony.ant_count(AntType::Scout), 0);
    assert_eq!(colony.ant_count(AntType::Worker), 0);
    assert_eq!(colony.spawn_rate, DEFAULT_COLONY_SPAWN_RATE);
}

#[test]
fn default_colony_sits_at_the_grid_centre() {
    let colony = Colony::default();
    assert_eq!(colony.get_position().get_x_position_u16(), WORLD_WIDTH / 2);
    assert_eq!(colony.get_position().get_y_position_u16(), WORLD_HEIGHT / 2);
}

#[test]
fn spawning_distributes_the_rate_proportionally() {
    let config = Config::default();
    let mut resources = ResourceField::new();
    let mut pheromones = PheromoneField::new();
    let mut colony = Colony::default();

    // Default caps 25 and 10: both kinds are missing everything, so the
    // total requirement is 35 and the per-tick rate of 2 splits as
    // floor(25*2/35) = 1 scout and floor(10*2/35) = 0 workers.
    colony.update(&mut resources, &mut pheromones, &config);
    assert_eq!(colony.ant_count(AntType::Scout), 1);
    assert_eq!(colony.ant_count(AntType::Worker), 0);

    // Next tick: 24 + 10 = 34 required; floor(24*2/34) = 1, floor(20/34) = 0.
    colony.update(&mut resources, &mut pheromones, &config);
    assert_eq!(colony.ant_count(AntType::Scout), 2);
    assert_eq!(colony.ant_count(AntType::Worker), 0);
}

#[test]
fn a_generous_spawn_rate_fills_both_kinds_without_overshoot() {
    let config = Config::default();
    let mut resources = ResourceField::new();
    let mut pheromones = PheromoneField::new();
    let position = Coordinates::new(32, 32).unwrap();
    let mut colony = Colony::new_with_spawn_rate(position, u16::MAX);

    colony.update(&mut resources, &mut pheromones, &config);
    assert_eq!(colony.ant_count(AntType::Scout), config.scout_cap as usize);
    assert_eq!(colony.ant_count(AntType::Worker), config.worker_cap as usize);

    // Further ticks never push either kind above its cap.
    for _ in 0..5 {
        colony.update(&mut resources, &mut pheromones, &config);
        assert!(colony.ant_count(AntType::Scout) <= config.scout_cap as usize);
        assert!(colony.ant_count(AntType::Worker) <= config.worker_cap as usize);
    }
}

#[test]
fn population_never_exceeds_the_cap_over_many_ticks() {
    let config = Config::default();
    let mut resources = ResourceField::new();
    let mut pheromones = PheromoneField::new();
    let mut colony = Colony::default();
    for _ in 0..60 {
        colony.update(&mut resources, &mut pheromones, &config);
        assert!(colony.ant_count(AntType::Scout) <= config.scout_cap as usize);
        assert!(colony.ant_count(AntType::Worker) <= config.worker_cap as usize);
    }
}

#[test]
fn a_zero_spawn_rate_spawns_nothing() {
    let config = Config::default();
    let mut resources = ResourceField::new();
    let mut pheromones = PheromoneField::new();
    let position = Coordinates::new(32, 32).unwrap();
    let mut colony = Colony::new_with_spawn_rate(position, 0);
    for _ in 0..3 {
        colony.update(&mut resources, &mut pheromones, &config);
        assert_eq!(colony.ant_count(AntType::Scout), 0);
        assert_eq!(colony.ant_count(AntType::Worker), 0);
    }
}

#[test]
fn iter_ants_groups_by_kind() {
    let config = Config::default();
    let mut resources = ResourceField::new();
    let mut pheromones = PheromoneField::new();
    let position = Coordinates::new(32, 32).unwrap();
    let mut colony = Colony::new_with_spawn_rate(position, u16::MAX);
    colony.update(&mut resources, &mut pheromones, &config);

    let groups = colony.iter_ants();
    assert_eq!(groups.len(), 2);
    assert!(groups[0].0 == AntType::Scout);
    assert_eq!(groups[0].1.len(), config.scout_cap as usize);
    assert!(groups[1].0 == AntType::Worker);
    assert_eq!(groups[1].1.len(), config.worker_cap as usize);
    for ant in groups[0].1.iter() {
        assert!(ant.ant_type == AntType::Scout);
    }
    for ant in groups[1].1.iter() {
        assert!(ant.ant_type == AntType::Worker);
    }
}
