use ant_sim::ant_settings::MAXIMUM_PHEROMONE_STRENGTH;
use ant_sim::coords::Coordinates;
use ant_sim::grid::PheromoneField;
use ant_sim::pheromone::PheromoneType;

#[test]
fn deposit_creates_a_full_strength_marker_and_registers_it() {
    let mut field = PheromoneField::new();
    let tile = Coordinates::new(10, 20).unwrap();
    assert!(field.get(tile, PheromoneType::Exploration).is_none());
    assert!(field.get(tile, PheromoneType::Resource).is_none());

    field.deposit(tile, PheromoneType::Exploration, 5);
    let marker = field.get(tile, PheromoneType::Exploration).unwrap();
    assert_eq!(marker.get_strength(), MAXIMUM_PHEROMONE_STRENGTH);
    assert_eq!(marker.decay_rate, 5);
    // The two layers are independent.
    assert!(field.get(tile, PheromoneType::Resource).is_none());
    assert_eq!(field.lookup_len(), 1);
    let (coords, kind) = field.lookup_at(0);
    assert_eq!(coords.get_x_position_u16(), 10);
    assert_eq!(coords.get_y_position_u16(), 20);
    assert!(kind == PheromoneType::Exploration);
}

#[test]
fn deposit_refreshes_an_existing_marker_without_a_new_index_entry() {
    let mut field = PheromoneField::new();
    let tile = Coordinates::new(1, 2).unwrap();
    field.deposit(tile, PheromoneType::Resource, 10);
    // Decay it below the cap first, so the refresh is visible.
    field.decay_tick();
    field.decay_tick();
    let weakened = field.get(tile, PheromoneType::Resource).unwrap().get_strength();
    assert_eq!(weakened, MAXIMUM_PHEROMONE_STRENGTH - 20);
    // A revisit refreshes the marker by its own strength: it doubles.
    field.deposit(tile, PheromoneType::Resource, 10);
    let refreshed = field.get(tile, PheromoneType::Resource).unwrap().get_strength();
    assert_eq!(refreshed, MAXIMUM_PHEROMONE_STRENGTH);
    assert_eq!(field.lookup_len(), 1);

    let mut far_field = PheromoneField::new();
    let far = Coordinates::new(0, 0).unwrap();
    far_field.deposit(far, PheromoneType::Resource, 200);
    for _ in 0..4 {
        far_field.decay_tick();
    }
    // 1000 decayed to 200; a refresh by its own strength doubles it.
    assert_eq!(far_field.get(far, PheromoneType::Resource).unwrap().get_strength(), 200);
    far_field.deposit(far, PheromoneType::Resource, 200);
    assert_eq!(far_field.get(far, PheromoneType::Resource).unwrap().get_strength(), 400);
}

#[test]
fn decay_tick_reduces_strength_by_the_marker_rate() {
    let mut field = PheromoneField::new();
    let tile = Coordinates::new(3, 4).unwrap();
    field.deposit(tile, PheromoneType::Exploration, 5);
    field.deposit(tile, PheromoneType::Resource, 10);
    field.decay_tick();
    assert_eq!(
        field.get(tile, PheromoneType::Exploration).unwrap().get_strength(),
        MAXIMUM_PHEROMONE_STRENGTH - 5
    );
    assert_eq!(
        field.get(tile, PheromoneType::Resource).unwrap().get_strength(),
        MAXIMUM_PHEROMONE_STRENGTH - 10
    );
    assert_eq!(field.lookup_len(), 2);
}

#[test]
fn decay_tick_evicts_a_dead_marker_from_grid_and_index() {
    let mut field = PheromoneField::new();
    let tile = Coordinates::new(8, 8).unwrap();
    field.deposit(tile, PheromoneType::Resource, MAXIMUM_PHEROMONE_STRENGTH);
    assert_eq!(field.lookup_len(), 1);
    // One tick takes the full-strength marker straight to zero.
    field.decay_tick();
    assert!(field.get(tile, PheromoneType::Resource).is_none());
    assert_eq!(field.lookup_len(), 0);
    // A further tick on the empty field changes nothing.
    field.decay_tick();
    assert!(field.get(tile, PheromoneType::Resource).is_none());
    assert_eq!(field.lookup_len(), 0);
}

#[test]
fn an_empty_tile_is_absent_from_grid_and_index_after_any_ticks() {
    let mut field = PheromoneField::new();
    let occupied = Coordinates::new(30, 30).unwrap();
    let empty = Coordinates::new(31, 30).unwrap();
    field.deposit(occupied, PheromoneType::Exploration, 200);
    for _ in 0..7 {
        assert!(field.get(empty, PheromoneType::Exploration).is_none());
        assert!(field.get(empty, PheromoneType::Resource).is_none());
        for i in 0..field.lookup_len() {
            let (coords, _) = field.lookup_at(i);
            assert!(
                coords.get_x_position_u16() != empty.get_x_position_u16()
                    || coords.get_y_position_u16() != empty.get_y_position_u16()
            );
        }
        field.decay_tick();
    }
    // The occupied tile died on the fifth tick and left both stores.
    assert!(field.get(occupied, PheromoneType::Exploration).is_none());
    assert_eq!(field.lookup_len(), 0);
}
