use viper::snake::{Part, SelfCollision, Snake, SnakeBodyPart, BASE_DELAY, IDLE_SPEED, TURN_SPEED};
use viper::utils::{Direction, Position, Style};

fn texture() -> (String, String, String) {
    ("@".to_string(), "O".to_string(), "o".to_string())
}

fn cells(s: &Snake) -> Vec<Position> {
    let mut out = Vec::new();
    for i in 0..s.len() {
        out.push(s.segment(i).unwrap().pos);
    }
    out
}

fn roles(s: &Snake) -> Vec<Part> {
    let mut out = Vec::new();
    for i in 0..s.len() {
        out.push(s.segment(i).unwrap().part);
    }
    out
}

fn coiled() -> Snake {
    // Five segments, bent so that the cell above the head is the snake's own.
    let mut s = Snake::new(Position::new(10, 10), texture());
    s.extend_back();
    s.extend_back();
    assert!(s.turn(Direction::BOTTOM));
    assert!(s.propagate().is_ok());
    assert!(s.turn(Direction::LEFT));
    assert!(s.propagate().is_ok());
    s
}

#[test]
fn new_snake_layout() {
    let s = Snake::new(Position::new(10, 10), texture());
    assert_eq!(s.len(), 3);
    assert_eq!(s.occupied_len(), 3);
    assert_eq!(
        cells(&s),
        vec![Position::new(10, 10), Position::new(9, 10), Position::new(8, 10)]
    );
    assert_eq!(roles(&s), vec![Part::HEAD, Part::BODY, Part::TAIL]);
    assert_eq!(s.direction(), Direction::RIGHT);
    assert_eq!(s.speed(), IDLE_SPEED);
    assert_eq!(s.head(), Position::new(10, 10));
    assert_eq!(s.tail(), Position::new(8, 10));
    assert!(s.occupies(10010));
    assert!(s.occupies(9010));
    assert!(s.occupies(8010));
    assert!(!s.occupies(11010));
    assert_eq!(s.segment(3), None);
}

#[test]
fn body_part_new_keeps_its_arguments() {
    let p = SnakeBodyPart::new(Position::new(1, 2), Part::TAIL);
    assert_eq!(p.pos, Position::new(1, 2));
    assert_eq!(p.part, Part::TAIL);
}

#[test]
fn two_ticks_to_the_right() {
    let start = Position::new(10, 10);
    let mut s = Snake::new(start, texture());
    assert_eq!(s.propagate(), Ok(()));
    assert_eq!(s.propagate(), Ok(()));
    assert_eq!(s.head(), Position::new(start.posx + 2, start.posy));
    assert_eq!(s.len(), 3);
    assert_eq!(s.occupied_len(), 3);
    assert_eq!(
        cells(&s),
        vec![Position::new(12, 10), Position::new(11, 10), Position::new(10, 10)]
    );
    assert_eq!(roles(&s), vec![Part::HEAD, Part::BODY, Part::TAIL]);
    assert!(!s.occupies(9010));
    assert!(!s.occupies(8010));
    assert!(s.occupies(12010));
}

#[test]
fn propagate_keeps_length_and_set_size() {
    let mut s = Snake::new(Position::new(20, 20), texture());
    let turns = [
        Direction::TOP,
        Direction::TOP,
        Direction::LEFT,
        Direction::LEFT,
        Direction::BOTTOM,
        Direction::BOTTOM,
        Direction::BOTTOM,
        Direction::RIGHT,
    ];
    for d in turns {
        s.turn(d);
        let ahead = s.head().next(s.direction());
        assert!(!s.occupies(ahead.hash()));
        assert_eq!(s.propagate(), Ok(()));
        assert_eq!(s.head(), ahead);
        assert_eq!(s.len(), 3);
        assert_eq!(s.occupied_len(), 3);
        for c in cells(&s) {
            assert!(s.occupies(c.hash()));
        }
    }
}

#[test]
fn propagate_in_each_direction() {
    for (d, gone) in [
        (Direction::TOP, Position::new(10, 9)),
        (Direction::BOTTOM, Position::new(10, 11)),
        (Direction::RIGHT, Position::new(11, 10)),
    ] {
        let mut s = Snake::new(Position::new(10, 10), texture());
        assert!(s.turn(d));
        assert_eq!(s.propagate(), Ok(()));
        assert_eq!(cells(&s), vec![gone, Position::new(10, 10), Position::new(9, 10)]);
    }
}

#[test]
fn collision_is_refused_and_changes_nothing() {
    let mut s = coiled();
    assert_eq!(
        cells(&s),
        vec![
            Position::new(9, 11),
            Position::new(10, 11),
            Position::new(10, 10),
            Position::new(9, 10),
            Position::new(8, 10)
        ]
    );
    assert!(s.turn(Direction::TOP));
    let before_cells = cells(&s);
    let before_roles = roles(&s);
    assert!(s.occupies(9010));
    assert_eq!(s.propagate(), Err(SelfCollision { hash: 9010 }));
    assert_eq!(cells(&s), before_cells);
    assert_eq!(roles(&s), before_roles);
    assert_eq!(s.len(), 5);
    assert_eq!(s.occupied_len(), 5);
    assert_eq!(s.direction(), Direction::TOP);
    assert_eq!(s.speed(), TURN_SPEED);
    for c in before_cells {
        assert!(s.occupies(c.hash()));
    }
    // The refusal repeats as long as nothing else changes.
    assert_eq!(s.propagate(), Err(SelfCollision { hash: 9010 }));
    assert_eq!(s.len(), 5);
}

#[test]
fn extend_front_reports_the_same_collision() {
    let mut s = coiled();
    assert!(s.turn(Direction::TOP));
    let before = cells(&s);
    assert_eq!(s.extend_front(), Err(SelfCollision { hash: 9010 }));
    assert_eq!(cells(&s), before);
    assert_eq!(s.occupied_len(), 5);
}

#[test]
fn extend_front_adds_a_head() {
    let mut s = Snake::new(Position::new(10, 10), texture());
    assert_eq!(s.extend_front(), Ok(()));
    assert_eq!(
        cells(&s),
        vec![
            Position::new(11, 10),
            Position::new(10, 10),
            Position::new(9, 10),
            Position::new(8, 10)
        ]
    );
    assert_eq!(roles(&s), vec![Part::HEAD, Part::BODY, Part::BODY, Part::TAIL]);
    assert_eq!(s.occupied_len(), 4);
}

#[test]
fn moving_onto_the_tail_is_a_collision() {
    // Four segments in a square: the cell ahead is the one the tail is in.
    let mut s = Snake::new(Position::new(10, 10), texture());
    s.extend_back();
    assert!(s.turn(Direction::BOTTOM));
    assert_eq!(s.propagate(), Ok(()));
    assert!(s.turn(Direction::LEFT));
    assert_eq!(s.propagate(), Ok(()));
    assert!(s.turn(Direction::TOP));
    assert_eq!(s.tail(), Position::new(9, 10));
    assert_eq!(s.propagate(), Err(SelfCollision { hash: 9010 }));
    assert_eq!(s.len(), 4);
}

#[test]
fn extend_back_adds_one_segment() {
    let mut s = Snake::new(Position::new(10, 10), texture());
    s.extend_back();
    assert_eq!(s.len(), 4);
    assert_eq!(s.occupied_len(), 4);
    assert_eq!(
        cells(&s),
        vec![
            Position::new(10, 10),
            Position::new(9, 10),
            Position::new(8, 10),
            Position::new(7, 10)
        ]
    );
    assert_eq!(roles(&s), vec![Part::HEAD, Part::BODY, Part::BODY, Part::TAIL]);
    assert!(s.occupies(7010));
    assert_eq!(s.direction(), Direction::RIGHT);
    assert_eq!(s.speed(), IDLE_SPEED);
}

#[test]
fn extend_back_follows_the_direction_of_travel() {
    let mut s = Snake::new(Position::new(10, 10), texture());
    assert!(s.turn(Direction::TOP));
    s.extend_back();
    // Heading up, the new tail lies below the old one.
    assert_eq!(s.tail(), Position::new(8, 11));
    assert_eq!(s.len(), 4);
    assert_eq!(s.occupied_len(), 4);
}

#[test]
fn extend_back_into_own_cell_still_grows() {
    let mut s = coiled();
    // Heading left, the cell behind the tail at (8, 10) is (9, 10): taken.
    assert_eq!(s.direction(), Direction::LEFT);
    assert_eq!(s.tail(), Position::new(8, 10));
    let mut expected = cells(&s);
    expected.push(Position::new(9, 10));
    s.extend_back();
    assert_eq!(cells(&s), expected);
    assert_eq!(s.len(), 6);
    assert_eq!(s.tail(), Position::new(9, 10));
    assert_eq!(
        roles(&s),
        vec![Part::HEAD, Part::BODY, Part::BODY, Part::BODY, Part::BODY, Part::TAIL]
    );
    // The cell was occupied already: the set has gained nothing.
    assert_eq!(s.occupied_len(), 5);
    assert!(s.occupies(9010));
    assert_eq!(s.direction(), Direction::LEFT);
    assert_eq!(s.speed(), TURN_SPEED);
}

#[test]
fn growth_after_turns_in_play() {
    // Four segments, turned up, ticked, turned left, ticked, then grown.
    let mut s = Snake::new(Position::new(10, 10), texture());
    s.extend_back();
    assert!(s.turn(Direction::TOP));
    assert_eq!(s.propagate(), Ok(()));
    assert!(s.turn(Direction::LEFT));
    assert_eq!(s.propagate(), Ok(()));
    assert_eq!(s.len(), 4);
    let before = cells(&s);
    let behind = s.tail().next(s.direction().opposite());
    s.extend_back();
    assert_eq!(s.len(), 5);
    assert_eq!(s.tail(), behind);
    assert_eq!(cells(&s)[..4], before[..]);
}

#[test]
fn shared_hash_stays_while_a_segment_has_it() {
    let mut s = coiled();
    s.extend_back();
    assert_eq!(s.len(), 6);
    assert_eq!(s.occupied_len(), 5);
    // The doubled tail leaves; the other segment in (9, 10) stays.
    assert_eq!(s.propagate(), Ok(()));
    assert_eq!(
        cells(&s),
        vec![
            Position::new(8, 11),
            Position::new(9, 11),
            Position::new(10, 11),
            Position::new(10, 10),
            Position::new(9, 10),
            Position::new(8, 10)
        ]
    );
    assert_eq!(s.len(), 6);
    assert_eq!(s.occupied_len(), 6);
    for c in cells(&s) {
        assert!(s.occupies(c.hash()));
    }
    // From here on the cells are apart again and the set keeps its size.
    assert_eq!(s.propagate(), Ok(()));
    assert_eq!(s.len(), 6);
    assert_eq!(s.occupied_len(), 6);
    assert!(!s.occupies(8010));
    assert!(s.occupies(9010));
}

#[test]
fn lone_tail_hash_leaves_while_others_are_shared() {
    let mut s = coiled();
    s.extend_back();
    assert!(s.turn(Direction::BOTTOM));
    s.extend_back();
    assert_eq!(s.tail(), Position::new(9, 9));
    assert_eq!(s.len(), 7);
    assert_eq!(s.occupied_len(), 6);
    assert_eq!(s.propagate(), Ok(()));
    assert_eq!(s.head(), Position::new(9, 12));
    assert_eq!(s.len(), 7);
    assert_eq!(s.occupied_len(), 6);
    assert!(!s.occupies(9009));
    assert!(s.occupies(9010));
    assert_eq!(s.tail(), Position::new(9, 10));
    // Now the doubled cell is the tail's: its hash stays for the other.
    assert_eq!(s.propagate(), Ok(()));
    assert_eq!(s.len(), 7);
    assert_eq!(s.occupied_len(), 7);
    assert!(s.occupies(9010));
    for c in cells(&s) {
        assert!(s.occupies(c.hash()));
    }
}

#[test]
fn growing_twice_into_own_cells() {
    let mut s = coiled();
    s.extend_back();
    s.extend_back();
    assert_eq!(s.len(), 7);
    assert_eq!(s.occupied_len(), 5);
    assert_eq!(s.tail(), Position::new(10, 10));
    for _ in 0..2 {
        assert_eq!(s.propagate(), Ok(()));
        assert_eq!(s.len(), 7);
    }
    assert_eq!(s.occupied_len(), 7);
    assert_eq!(
        cells(&s),
        vec![
            Position::new(7, 11),
            Position::new(8, 11),
            Position::new(9, 11),
            Position::new(10, 11),
            Position::new(10, 10),
            Position::new(9, 10),
            Position::new(8, 10)
        ]
    );
}

#[test]
fn every_growth_adds_a_segment() {
    let mut s = Snake::new(Position::new(20, 20), texture());
    let turns = [
        Direction::TOP,
        Direction::LEFT,
        Direction::BOTTOM,
        Direction::BOTTOM,
        Direction::RIGHT,
        Direction::RIGHT,
        Direction::TOP,
        Direction::LEFT,
    ];
    let mut length = 3;
    for d in turns {
        s.turn(d);
        let tail = s.tail();
        let was_taken = s.occupies(tail.next(s.direction().opposite()).hash());
        let set_size = s.occupied_len();
        s.extend_back();
        length += 1;
        assert_eq!(s.len(), length);
        assert_eq!(s.tail(), tail.next(s.direction().opposite()));
        assert_eq!(s.occupied_len(), set_size + if was_taken { 0 } else { 1 });
        assert_eq!(s.segment(length - 2).unwrap().pos, tail);
        assert_eq!(s.segment(length - 2).unwrap().part, Part::BODY);
        assert_eq!(s.segment(length - 1).unwrap().part, Part::TAIL);
        assert_eq!(s.segment(0).unwrap().part, Part::HEAD);
        if s.propagate().is_ok() {
            assert_eq!(s.len(), length);
        }
        for c in cells(&s) {
            assert!(s.occupies(c.hash()));
        }
        assert!(s.occupied_len() <= s.len());
    }
}

#[test]
fn grown_tail_is_collided_with() {
    let mut s = Snake::new(Position::new(10, 10), texture());
    s.extend_back();
    s.extend_back();
    assert_eq!(s.propagate(), Ok(()));
    assert_eq!(s.len(), 5);
    assert_eq!(s.occupied_len(), 5);
    assert_eq!(s.tail(), Position::new(7, 10));
    assert!(!s.occupies(6010));
}

#[test]
fn reversing_is_refused() {
    for d in [Direction::TOP, Direction::BOTTOM, Direction::RIGHT] {
        let mut s = Snake::new(Position::new(10, 10), texture());
        assert!(s.turn(d));
        assert_eq!(s.speed(), TURN_SPEED);
        s.slow_down();
        assert!(!s.turn(d.opposite()));
        assert_eq!(s.direction(), d);
        assert_eq!(s.speed(), IDLE_SPEED);
    }
    let mut s = Snake::new(Position::new(10, 10), texture());
    assert!(!s.turn(Direction::LEFT));
    assert_eq!(s.direction(), Direction::RIGHT);
    assert_eq!(s.speed(), IDLE_SPEED);
}

#[test]
fn every_turn_but_the_reverse_is_taken() {
    let all = [Direction::TOP, Direction::BOTTOM, Direction::LEFT, Direction::RIGHT];
    for from in all {
        for to in all {
            let mut s = Snake::new(Position::new(10, 10), texture());
            if from != Direction::LEFT {
                assert!(s.turn(from));
            } else {
                assert!(s.turn(Direction::TOP));
                assert!(s.turn(Direction::LEFT));
            }
            s.slow_down();
            let taken = s.turn(to);
            assert_eq!(taken, to != from.opposite());
            if taken {
                assert_eq!(s.direction(), to);
                assert_eq!(s.speed(), TURN_SPEED);
            } else {
                assert_eq!(s.direction(), from);
                assert_eq!(s.speed(), IDLE_SPEED);
            }
            assert_eq!(s.len(), 3);
        }
    }
}

#[test]
fn delay_follows_speed() {
    let mut s = Snake::new(Position::new(10, 10), texture());
    assert_eq!(s.tick_delay(), 100);
    assert_eq!(s.tick_delay(), BASE_DELAY);
    s.turn(Direction::TOP);
    assert_eq!(s.tick_delay(), 25);
    s.slow_down();
    assert_eq!(s.speed(), 1);
    assert_eq!(s.tick_delay(), 100);
}

#[test]
fn display_draws_each_segment() {
    let mut s = Snake::new(Position::new(10, 10), texture());
    s.extend_back();
    let out = s.display();
    assert_eq!(out.len(), 4);
    let texts: Vec<&str> = out.iter().map(|g| g.text.as_str()).collect();
    assert_eq!(texts, vec!["@", "O", "O", "o"]);
    for (i, g) in out.iter().enumerate() {
        assert_eq!(g.pos, Position::new(10 - i as i32, 10));
        assert_eq!(g.style, Style::BOLD);
    }
}

#[test]
fn display_uses_the_given_texture() {
    let s = Snake::new(
        Position::new(0, 0),
        ("H".to_string(), "==".to_string(), "t".to_string()),
    );
    let out = s.display();
    let texts: Vec<&str> = out.iter().map(|g| g.text.as_str()).collect();
    assert_eq!(texts, vec!["H", "==", "t"]);
}

#[test]
fn advance_and_growth_limits() {
    let mut s = Snake::new(Position::new(2_147_483, 0), texture());
    assert!(!s.may_advance());
    assert!(s.may_grow());
    assert!(s.turn(Direction::TOP));
    assert!(s.may_advance());
    let s2 = Snake::new(Position::new(10, 10), texture());
    assert!(s2.may_advance());
    assert!(s2.may_grow());
    let mut s3 = Snake::new(Position::new(-2_147_481, 0), texture());
    assert!(!s3.may_grow());
    assert!(s3.turn(Direction::BOTTOM));
    assert!(s3.may_grow());
}

#[test]
fn snake_may_leave_the_first_quadrant() {
    let mut s = Snake::new(Position::new(1, 0), texture());
    assert!(s.turn(Direction::TOP));
    assert_eq!(s.propagate(), Ok(()));
    assert_eq!(s.head(), Position::new(1, -1));
    assert_eq!(s.len(), 3);
}

#[test]
fn collision_message() {
    assert_eq!(SelfCollision { hash: 9010 }.message(), "hash = 9010");
    assert_eq!(SelfCollision { hash: -995 }.message(), "hash = -995");
    assert_eq!(SelfCollision { hash: 0 }.message(), "hash = 0");
    let mut s = coiled();
    assert!(s.turn(Direction::TOP));
    match s.propagate() {
        Err(e) => assert_eq!(e.message(), "hash = 9010"),
        Ok(()) => panic!("the move was taken"),
    }
}

#[test]
fn body_part_display_picks_the_glyph_of_its_role() {
    let t = ("h".to_string(), "b".to_string(), "t".to_string());
    for (part, text) in [(Part::HEAD, "h"), (Part::BODY, "b"), (Part::TAIL, "t")] {
        let g = SnakeBodyPart::new(Position::new(4, 2), part).display(&t);
        assert_eq!(g.text, text);
        assert_eq!(g.pos, Position::new(4, 2));
        assert_eq!(g.style, Style::BOLD);
    }
}
