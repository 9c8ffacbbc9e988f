use ant_sim::ant_settings::DEFAULT_RESOURCE_SIZE;
use ant_sim::coords::Coordinates;
use ant_sim::grid::ResourceField;
use ant_sim::resource::Resource;

#[test]
fn new_rejects_an_empty_resource() {
    assert!(Resource::new(0).is_none());
    assert_eq!(Resource::new(3).unwrap().get_remaining(), 3);
}

#[test]
fn default_resource_has_the_default_size() {
    let resource = Resource::default();
    assert_eq!(resource.get_remaining(), DEFAULT_RESOURCE_SIZE);
}

#[test]
fn consume_counts_down_and_signals_depletion_on_the_last_unit() {
    let mut resource = Resource::new(3).unwrap();
    assert_eq!(resource.consume(), Some(2));
    assert_eq!(resource.consume(), Some(1));
    assert_eq!(resource.consume(), None);
    assert_eq!(resource.get_remaining(), 0);
}

#[test]
fn consume_with_one_unit_left_signals_depletion() {
    let mut resource = Resource::new(1).unwrap();
    assert_eq!(resource.consume(), None);
    assert_eq!(resource.get_remaining(), 0);
}

#[test]
fn consume_never_underflows() {
    let mut resource = Resource::new(1).unwrap();
    assert_eq!(resource.consume(), None);
    assert_eq!(resource.consume(), None);
    assert_eq!(resource.get_remaining(), 0);
}

#[test]
fn field_place_and_get_round_trip() {
    let mut field = ResourceField::new();
    let tile = Coordinates::new(4, 9).unwrap();
    assert!(field.get(tile).is_none());
    assert!(field.place(tile, 2));
    assert_eq!(field.get(tile).unwrap().get_remaining(), 2);
    assert_eq!(field.lookup_len(), 1);
    assert_eq!(field.lookup_at(0).get_x_position_u16(), 4);
    assert_eq!(field.lookup_at(0).get_y_position_u16(), 9);
    // A second placement on the same tile is refused.
    assert!(!field.place(tile, 5));
    assert_eq!(field.get(tile).unwrap().get_remaining(), 2);
}

#[test]
fn field_consume_clears_a_depleted_tile_from_grid_and_index() {
    let mut field = ResourceField::new();
    let tile = Coordinates::new(4, 9).unwrap();
    let other = Coordinates::new(5, 9).unwrap();
    assert!(field.place(tile, 2));
    assert!(field.place(other, 7));

    assert_eq!(field.consume_at(tile), Some(1));
    assert_eq!(field.get(tile).unwrap().get_remaining(), 1);
    assert_eq!(field.lookup_len(), 2);

    assert_eq!(field.consume_at(tile), None);
    assert!(field.get(tile).is_none());
    assert_eq!(field.lookup_len(), 1);
    assert_eq!(field.lookup_at(0).get_x_position_u16(), 5);

    // The untouched tile keeps its food.
    assert_eq!(field.get(other).unwrap().get_remaining(), 7);
}
