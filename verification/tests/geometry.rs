use viper::utils::{centered, half_gap, Direction, Position};

#[test]
fn opposite_is_an_involution() {
    for d in [Direction::TOP, Direction::BOTTOM, Direction::LEFT, Direction::RIGHT] {
        assert_eq!(d.opposite().opposite(), d);
        assert_ne!(d.opposite(), d);
    }
}

#[test]
fn opposite_pairs() {
    assert_eq!(Direction::TOP.opposite(), Direction::BOTTOM);
    assert_eq!(Direction::BOTTOM.opposite(), Direction::TOP);
    assert_eq!(Direction::LEFT.opposite(), Direction::RIGHT);
    assert_eq!(Direction::RIGHT.opposite(), Direction::LEFT);
}

#[test]
fn next_moves_one_cell() {
    let p = Position::new(5, 5);
    assert_eq!(p.next(Direction::RIGHT), Position::new(6, 5));
    assert_eq!(p.next(Direction::LEFT), Position::new(4, 5));
    assert_eq!(p.next(Direction::TOP), Position::new(5, 4));
    assert_eq!(p.next(Direction::BOTTOM), Position::new(5, 6));
    assert_eq!(p, Position::new(5, 5));
}

#[test]
fn next_then_opposite_returns() {
    let p = Position::new(-3, 7);
    for d in [Direction::TOP, Direction::BOTTOM, Direction::LEFT, Direction::RIGHT] {
        assert_eq!(p.next(d).next(d.opposite()), p);
    }
}

#[test]
fn hash_weights_the_column() {
    assert_eq!(Position::new(3, 7).hash(), 3007);
    assert_eq!(Position::new(0, 0).hash(), 0);
    assert_eq!(Position::new(-1, 5).hash(), -995);
    assert_eq!(Position::new(40, 12).hash(), 40012);
}

#[test]
fn hash_tells_grid_cells_apart() {
    let mut seen = std::collections::HashSet::new();
    for x in 0..40 {
        for y in 0..25 {
            assert!(seen.insert(Position::new(x, y).hash()));
        }
    }
}

#[test]
fn hash_collides_outside_the_grid_rows() {
    assert_eq!(Position::new(0, 1000).hash(), Position::new(1, 0).hash());
}

#[test]
fn checked_next_at_the_edges() {
    assert_eq!(Position::new(i32::MAX, 0).checked_next(Direction::RIGHT), None);
    assert_eq!(Position::new(i32::MIN, 0).checked_next(Direction::LEFT), None);
    assert_eq!(Position::new(0, i32::MIN).checked_next(Direction::TOP), None);
    assert_eq!(Position::new(0, i32::MAX).checked_next(Direction::BOTTOM), None);
    assert_eq!(
        Position::new(i32::MAX, 0).checked_next(Direction::LEFT),
        Some(Position::new(i32::MAX - 1, 0))
    );
    assert_eq!(
        Position::new(1, 1).checked_next(Direction::TOP),
        Some(Position::new(1, 0))
    );
}

#[test]
fn checked_hash_at_the_edges() {
    assert_eq!(Position::new(2_147_483, 647).checked_hash(), Some(i32::MAX));
    assert_eq!(Position::new(2_147_483, 648).checked_hash(), None);
    assert_eq!(Position::new(2_147_484, 0).checked_hash(), None);
    assert_eq!(Position::new(2_147_484, -1000).checked_hash(), None);
    assert_eq!(Position::new(-2_147_483, -648).checked_hash(), Some(i32::MIN));
    assert_eq!(Position::new(-2_147_483, -649).checked_hash(), None);
    assert_eq!(Position::new(7, 9).checked_hash(), Some(7009));
}

#[test]
fn half_gap_rounds_towards_zero() {
    assert_eq!(half_gap(24, 6), 9);
    assert_eq!(half_gap(80, 30), 25);
    assert_eq!(half_gap(30, 35), -2);
    assert_eq!(half_gap(30, 33), -1);
    assert_eq!(half_gap(7, 0), 3);
    assert_eq!(half_gap(i32::MAX, i32::MIN), i32::MAX);
    assert_eq!(half_gap(i32::MIN, i32::MAX), -i32::MAX);
}

#[test]
fn centered_column() {
    assert_eq!(centered(30, 5), 12);
    assert_eq!(centered(30, 4), 13);
    assert_eq!(centered(30, 0), 15);
    assert_eq!(centered(4, 9), -2);
    assert_eq!(centered(0, usize::MAX), -(i32::MAX / 2));
}
