use ant_sim::ant::{explore_chance, Ant, AntType};
use ant_sim::ant_settings::{
    DEFAULT_COLONY_SCOUT_SIZE, DEFAULT_COLONY_WORKER_SIZE, WORLD_HEIGHT, WORLD_WIDTH,
};
use ant_sim::config::Config;
use ant_sim::coords::Coordinates;
use ant_sim::grid::{PheromoneField, ResourceField};
use ant_sim::pheromone::PheromoneType;

#[test]
fn new_ant_starts_fresh_at_its_position() {
    let anchor = Coordinates::new(10, 10).unwrap();
    let ant = Ant::new(AntType::Scout, anchor, anchor);
    assert!(ant.ant_type == AntType::Scout);
    assert_eq!(ant.position.get_x_position_u16(), 10);
    assert_eq!(ant.steps_on_journey, 0);
    assert!(!ant.is_returning);
    assert!(!ant.found_food);
    assert_eq!(ant.distance_from_colony, 0);
}

#[test]
fn an_ant_on_its_anchor_resets_after_state_evaluation() {
    let config = Config::default();
    let anchor = Coordinates::new(10, 10).unwrap();
    let mut ant = Ant::new(AntType::Worker, anchor, anchor);
    ant.is_returning = true;
    ant.found_food = true;
    ant.steps_on_journey = 250;
    ant.evaluate_state(&config);
    assert!(!ant.is_returning);
    assert!(!ant.found_food);
    assert_eq!(ant.steps_on_journey, 0);
}

#[test]
fn a_timed_out_journey_turns_the_ant_home() {
    let config = Config::default();
    let anchor = Coordinates::new(10, 10).unwrap();
    let away = Coordinates::new(20, 10).unwrap();
    let mut ant = Ant::new(AntType::Scout, away, anchor);
    ant.steps_on_journey = config.max_ant_steps + 1;
    ant.evaluate_state(&config);
    assert!(ant.is_returning);
    assert_eq!(ant.steps_on_journey, 0);

    // Just at the budget, nothing changes.
    let mut patient = Ant::new(AntType::Scout, away, anchor);
    patient.steps_on_journey = config.max_ant_steps;
    patient.evaluate_state(&config);
    assert!(!patient.is_returning);
    assert_eq!(patient.steps_on_journey, config.max_ant_steps);
}

#[test]
fn correct_direction_depends_on_the_journey_state() {
    let anchor = Coordinates::new(10, 10).unwrap();
    let position = Coordinates::new(15, 10).unwrap();
    let closer = Coordinates::new(14, 10).unwrap();
    let farther = Coordinates::new(16, 10).unwrap();

    let mut ant = Ant::new(AntType::Scout, position, anchor);
    assert!(!ant.is_correct_direction(closer));
    assert!(ant.is_correct_direction(farther));

    ant.is_returning = true;
    assert!(ant.is_correct_direction(closer));
    assert!(!ant.is_correct_direction(farther));
}

#[test]
fn explore_chance_decays_with_distance() {
    // No home range: always move randomly.
    assert_eq!(explore_chance(5, 0), 0);
    // At the anchor the chance is certainty.
    assert_eq!(explore_chance(0, 10), 1000);
    // One full territory unit out: 368/1000, the fixed-point 1/e.
    assert_eq!(explore_chance(10, 10), 368);
    // Half a unit out: 1000 * (1000 - 632/2) / 1000.
    assert_eq!(explore_chance(5, 10), 684);
    // Two units out: 368 * 368 / 1000.
    assert_eq!(explore_chance(20, 10), 135);
    // The chance never leaves the per-mille scale.
    for distance in 0..200 {
        assert!(explore_chance(distance, 7) <= 1000);
    }
}

#[test]
fn follow_chance_matches_the_ant_kind_and_state() {
    let config = Config::default();
    let anchor = Coordinates::new(10, 10).unwrap();
    let mut worker = Ant::new(AntType::Worker, anchor, anchor);
    assert_eq!(worker.pheromone_follow_chance(&config), config.worker_chance);
    worker.is_returning = true;
    assert_eq!(worker.pheromone_follow_chance(&config), config.worker_chance);

    let mut scout = Ant::new(AntType::Scout, anchor, anchor);
    scout.is_returning = true;
    assert_eq!(scout.pheromone_follow_chance(&config), config.scout_return_chance);
    scout.is_returning = false;
    // Default territory size is zero: an exploring scout never follows.
    assert_eq!(scout.pheromone_follow_chance(&config), 0);
}

#[test]
fn pheromone_following_picks_the_strongest_correct_neighbour() {
    let config = Config::default();
    let mut field = PheromoneField::new();
    let anchor = Coordinates::new(0, 0).unwrap();
    let position = Coordinates::new(10, 10).unwrap();
    // Two resource trails toward home, one stronger: after one decay tick
    // the (9,10) marker holds 900 and the (10,9) marker holds 700.
    field.deposit(Coordinates::new(9, 10).unwrap(), PheromoneType::Resource, 100);
    field.deposit(Coordinates::new(10, 9).unwrap(), PheromoneType::Resource, 300);
    field.decay_tick();

    let mut ant = Ant::new(AntType::Worker, position, anchor);
    ant.is_returning = true;
    ant.move_using_pheromones(&field, &config);
    assert_eq!(ant.position.get_x_position_u16(), 9);
    assert_eq!(ant.position.get_y_position_u16(), 10);
}

#[test]
fn a_worker_ignores_exploration_markers() {
    let config = Config::default();
    let mut field = PheromoneField::new();
    let anchor = Coordinates::new(0, 0).unwrap();
    let position = Coordinates::new(10, 10).unwrap();
    // The only correct-direction resource trail is weak; a strong
    // exploration marker sits on the other correct-direction neighbour.
    field.deposit(Coordinates::new(9, 10).unwrap(), PheromoneType::Exploration, 5);
    field.deposit(Coordinates::new(10, 9).unwrap(), PheromoneType::Resource, 800);
    field.decay_tick();

    let mut worker = Ant::new(AntType::Worker, position, anchor);
    worker.is_returning = true;
    worker.move_using_pheromones(&field, &config);
    assert_eq!(worker.position.get_x_position_u16(), 10);
    assert_eq!(worker.position.get_y_position_u16(), 9);

    // A scout consults both layers and prefers the stronger exploration one.
    let mut scout = Ant::new(AntType::Scout, position, anchor);
    scout.is_returning = true;
    scout.move_using_pheromones(&field, &config);
    assert_eq!(scout.position.get_x_position_u16(), 9);
    assert_eq!(scout.position.get_y_position_u16(), 10);
}

#[test]
fn pheromone_following_without_a_trail_still_moves_one_tile() {
    let config = Config::default();
    let field = PheromoneField::new();
    let anchor = Coordinates::new(0, 0).unwrap();
    let position = Coordinates::new(10, 10).unwrap();
    for _ in 0..50 {
        let mut ant = Ant::new(AntType::Worker, position, anchor);
        ant.move_using_pheromones(&field, &config);
        assert_eq!(position.manhattan_distance(ant.position), 1);
    }
}

#[test]
fn update_moves_one_tile_and_stays_on_the_grid() {
    let config = Config::default();
    let mut resources = ResourceField::new();
    let mut pheromones = PheromoneField::new();
    let anchor = Coordinates::new(32, 32).unwrap();
    let mut ant = Ant::new(AntType::Scout, anchor, anchor);
    for _ in 0..500 {
        let before = ant.position;
        ant.update(&mut resources, &mut pheromones, &config);
        assert!(ant.position.get_x_position_u16() < WORLD_WIDTH);
        assert!(ant.position.get_y_position_u16() < WORLD_HEIGHT);
        assert_eq!(before.manhattan_distance(ant.position), 1);
        assert_eq!(
            ant.distance_from_colony,
            ant.position.manhattan_distance(anchor)
        );
    }
}

#[test]
fn update_consumes_food_and_turns_the_ant_home() {
    let config = Config::default();
    let mut resources = ResourceField::new();
    let mut pheromones = PheromoneField::new();
    let anchor = Coordinates::new(5, 5).unwrap();
    let position = Coordinates::new(20, 20).unwrap();
    assert!(resources.place(position, 2));

    let mut ant = Ant::new(AntType::Worker, position, anchor);
    ant.update(&mut resources, &mut pheromones, &config);
    assert!(ant.found_food);
    assert!(ant.is_returning);
    assert_eq!(resources.get(position).unwrap().get_remaining(), 1);

    // An ant that has found food lays a resource marker at its new tile.
    let marker = pheromones.get(ant.position, PheromoneType::Resource);
    assert!(marker.is_some());
}

#[test]
fn update_clears_a_depleted_tile() {
    let config = Config::default();
    let mut resources = ResourceField::new();
    let mut pheromones = PheromoneField::new();
    let anchor = Coordinates::new(5, 5).unwrap();
    let position = Coordinates::new(20, 20).unwrap();
    assert!(resources.place(position, 1));

    let mut ant = Ant::new(AntType::Worker, position, anchor);
    ant.update(&mut resources, &mut pheromones, &config);
    assert!(resources.get(position).is_none());
    assert_eq!(resources.lookup_len(), 0);
}

#[test]
fn an_exploring_scout_lays_exploration_markers() {
    let config = Config::default();
    let mut resources = ResourceField::new();
    let mut pheromones = PheromoneField::new();
    let anchor = Coordinates::new(32, 32).unwrap();
    let mut scout = Ant::new(AntType::Scout, anchor, anchor);
    scout.update(&mut resources, &mut pheromones, &config);
    let marker = pheromones.get(scout.position, PheromoneType::Exploration);
    assert!(marker.is_some());
    assert!(pheromones.get(scout.position, PheromoneType::Resource).is_none());
}

#[test]
fn default_population_caps_per_kind() {
    assert_eq!(
        AntType::Scout.get_maximum_number_of_ants(),
        DEFAULT_COLONY_SCOUT_SIZE
    );
    assert_eq!(
        AntType::Worker.get_maximum_number_of_ants(),
        DEFAULT_COLONY_WORKER_SIZE
    );
}
