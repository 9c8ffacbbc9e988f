use ant_sim::ant_settings::{WORLD_HEIGHT, WORLD_WIDTH};
use ant_sim::coords::Coordinates;

#[test]
fn create_inside_bounds_returns_exact_values() {
    let position = Coordinates::new(5, 5);
    assert!(position.is_some());
    let position = position.unwrap();
    assert_eq!(position.get_x_position_u16(), 5);
    assert_eq!(position.get_y_position_u16(), 5);
    assert_eq!(position.get_x_position_usize(), 5);
    assert_eq!(position.get_y_position_usize(), 5);
}

#[test]
fn create_every_valid_tile_succeeds() {
    for x in 0..WORLD_WIDTH {
        for y in 0..WORLD_HEIGHT {
            let position = Coordinates::new(x, y).unwrap();
            assert_eq!(position.get_x_position_u16(), x);
            assert_eq!(position.get_y_position_u16(), y);
        }
    }
}

#[test]
fn create_outside_bounds_fails() {
    assert!(Coordinates::new(WORLD_WIDTH, 0).is_none());
    assert!(Coordinates::new(0, WORLD_HEIGHT).is_none());
    assert!(Coordinates::new(WORLD_WIDTH, WORLD_HEIGHT).is_none());
    assert!(Coordinates::new(u16::MAX, u16::MAX).is_none());
}

#[test]
fn new_random_stays_inside_bounds() {
    for _ in 0..200 {
        let position = Coordinates::new_random();
        assert!(position.get_x_position_u16() < WORLD_WIDTH);
        assert!(position.get_y_position_u16() < WORLD_HEIGHT);
    }
}

#[test]
fn safe_modify_inside_bounds_moves_exactly() {
    let position = Coordinates::new(5, 5).unwrap();
    let moved = position.safe_modify(-2, 7);
    assert_eq!(moved.get_x_position_u16(), 3);
    assert_eq!(moved.get_y_position_u16(), 12);
}

#[test]
fn safe_modify_saturates_at_edges() {
    let position = Coordinates::new(WORLD_WIDTH - 1, WORLD_HEIGHT - 1).unwrap();
    let moved = position.safe_modify(1, 1);
    assert_eq!(moved.get_x_position_u16(), WORLD_WIDTH - 1);
    assert_eq!(moved.get_y_position_u16(), WORLD_HEIGHT - 1);

    let origin = Coordinates::new(0, 0).unwrap();
    let moved = origin.safe_modify(-1, -1);
    assert_eq!(moved.get_x_position_u16(), 0);
    assert_eq!(moved.get_y_position_u16(), 0);
}

#[test]
fn safe_modify_handles_extreme_amounts() {
    let position = Coordinates::new(30, 30).unwrap();
    let moved = position.safe_modify(i32::MAX, i32::MIN);
    assert_eq!(moved.get_x_position_u16(), WORLD_WIDTH - 1);
    assert_eq!(moved.get_y_position_u16(), 0);
}

#[test]
fn modify_inside_bounds_succeeds() {
    let position = Coordinates::new(5, 5).unwrap();
    let moved = position.modify(-2, 7).unwrap();
    assert_eq!(moved.get_x_position_u16(), 3);
    assert_eq!(moved.get_y_position_u16(), 12);
}

#[test]
fn modify_rejects_leaving_the_grid() {
    let corner = Coordinates::new(WORLD_WIDTH - 1, WORLD_HEIGHT - 1).unwrap();
    assert!(corner.modify(1, 0).is_none());
    assert!(corner.modify(0, 1).is_none());
    let origin = Coordinates::new(0, 0).unwrap();
    assert!(origin.modify(-1, 0).is_none());
    assert!(origin.modify(0, -1).is_none());
    assert!(origin.modify(i32::MAX, 0).is_none());
}

#[test]
fn manhattan_distance_sums_both_axes() {
    let position = Coordinates::new(5, 5).unwrap();
    let other = Coordinates::new(7, 7).unwrap();
    assert_eq!(position.manhattan_distance(other), 4);
    assert_eq!(other.manhattan_distance(position), 4);

    let a = Coordinates::new(0, 10).unwrap();
    let b = Coordinates::new(10, 0).unwrap();
    assert_eq!(a.manhattan_distance(b), 20);
    assert_eq!(a.manhattan_distance(a), 0);

    // The y term comes from the y coordinates, not the x ones.
    let c = Coordinates::new(3, 9).unwrap();
    let d = Coordinates::new(3, 1).unwrap();
    assert_eq!(c.manhattan_distance(d), 8);
}

#[test]
fn default_is_the_origin() {
    let position = Coordinates::default();
    assert_eq!(position.get_x_position_u16(), 0);
    assert_eq!(position.get_y_position_u16(), 0);
}
