use snake::board::{Board, KeyInput};
use snake::game::{Directions, Pos, Snake};

fn board_with(size: i32, fruit: Pos, segs: Vec<Pos>, direction: Directions) -> Board {
    Board {
        size,
        fruit_pos: fruit,
        score: 0,
        alive: true,
        direction,
        snake: Snake { segs },
    }
}

fn far_fruit() -> Pos {
    Pos { x: 9, y: 9 }
}

#[test]
fn single_step_each_direction() {
    let cases = [
        (Directions::UP, Pos { x: 2, y: 1 }),
        (Directions::DOWN, Pos { x: 2, y: 3 }),
        (Directions::LEFT, Pos { x: 1, y: 2 }),
        (Directions::RIGHT, Pos { x: 3, y: 2 }),
    ];
    for (d, expected) in cases {
        let mut b = board_with(10, far_fruit(), vec![Pos { x: 2, y: 2 }], d);
        b.move_snake(d);
        assert!(b.alive);
        assert_eq!(b.snake.segs.len(), 1);
        assert_eq!(b.snake.segs[0], expected);
    }
}

#[test]
fn advance_follows_leader() {
    let mut s = Snake {
        segs: vec![Pos { x: 2, y: 2 }, Pos { x: 1, y: 2 }, Pos { x: 0, y: 2 }],
    };
    s.move_direction(Directions::DOWN);
    assert_eq!(
        s.segs,
        vec![Pos { x: 2, y: 3 }, Pos { x: 2, y: 2 }, Pos { x: 1, y: 2 }]
    );
}

#[test]
fn growth_exactly_one_per_fruit() {
    let mut s = Snake::new(4, 4);
    assert_eq!(s.segs.len(), 1);
    s.eat_fruit();
    assert_eq!(s.segs.len(), 2);
    assert_eq!(s.segs[1], Pos { x: 4, y: 4 });
    s.eat_fruit();
    assert_eq!(s.segs.len(), 3);
    assert_eq!(s.segs[2], Pos { x: 4, y: 4 });
}

#[test]
fn eat_fruit_on_empty_chain_is_noop() {
    let mut s = Snake { segs: vec![] };
    s.eat_fruit();
    assert!(s.segs.is_empty());
}

#[test]
fn score_monotonic_and_counts_fruit() {
    let mut b = board_with(
        5,
        Pos { x: 2, y: 1 },
        vec![Pos { x: 2, y: 2 }],
        Directions::UP,
    );
    assert_eq!(b.score, 0);
    b.move_snake(Directions::UP);
    assert_eq!(b.score, 1);
    let mut last = b.score;
    for d in [Directions::UP, Directions::LEFT, Directions::DOWN] {
        b.move_snake(d);
        assert!(b.score >= last);
        last = b.score;
    }
}

#[test]
fn self_collision_right_down_left_up() {
    let segs = vec![
        Pos { x: 4, y: 2 },
        Pos { x: 3, y: 2 },
        Pos { x: 2, y: 2 },
        Pos { x: 1, y: 2 },
        Pos { x: 0, y: 2 },
    ];
    let mut b = board_with(10, far_fruit(), segs, Directions::RIGHT);
    b.move_snake(Directions::RIGHT);
    assert!(b.alive);
    b.move_snake(Directions::DOWN);
    assert!(b.alive);
    b.move_snake(Directions::LEFT);
    assert!(b.alive);
    // The head now re-enters a cell its own body still occupies.
    b.move_snake(Directions::UP);
    assert!(!b.alive);
    assert_eq!(b.snake.segs[0], Pos { x: 4, y: 2 });
}

#[test]
fn reversal_is_immediate_self_collision() {
    let segs = vec![Pos { x: 2, y: 2 }, Pos { x: 1, y: 2 }, Pos { x: 0, y: 2 }];
    let mut b = board_with(10, far_fruit(), segs, Directions::LEFT);
    b.move_snake(Directions::LEFT);
    assert!(!b.alive);
}

#[test]
fn left_wall_death_at_column_zero() {
    let mut b = board_with(
        3,
        Pos { x: 2, y: 2 },
        vec![Pos { x: 0, y: 1 }],
        Directions::LEFT,
    );
    b.move_snake(Directions::LEFT);
    assert!(!b.alive);
    assert_eq!(b.snake.segs[0].x, -1);
}

#[test]
fn walls_on_all_four_sides() {
    let cases = [
        (Pos { x: 0, y: 1 }, Directions::LEFT),
        (Pos { x: 2, y: 1 }, Directions::RIGHT),
        (Pos { x: 1, y: 0 }, Directions::UP),
        (Pos { x: 1, y: 2 }, Directions::DOWN),
    ];
    for (start, d) in cases {
        let mut b = board_with(3, Pos { x: 2, y: 2 }, vec![start], d);
        b.move_snake(d);
        assert!(!b.alive);
    }
}

#[test]
fn dead_board_step_is_idempotent() {
    let mut b = board_with(
        5,
        Pos { x: 3, y: 3 },
        vec![Pos { x: 1, y: 1 }, Pos { x: 2, y: 1 }],
        Directions::RIGHT,
    );
    b.alive = false;
    b.score = 7;
    let segs_before = b.snake.segs.clone();
    b.move_snake(Directions::DOWN);
    assert_eq!(b.size, 5);
    assert_eq!(b.fruit_pos, Pos { x: 3, y: 3 });
    assert_eq!(b.score, 7);
    assert!(!b.alive);
    assert_eq!(b.direction, Directions::RIGHT);
    assert_eq!(b.snake.segs, segs_before);
}

#[test]
fn fruit_scenario_five_by_five() {
    let mut b = board_with(
        5,
        Pos { x: 2, y: 1 },
        vec![Pos { x: 2, y: 2 }],
        Directions::UP,
    );
    b.move_snake(Directions::UP);
    assert!(b.alive);
    assert_eq!(b.snake.segs[0], Pos { x: 2, y: 1 });
    assert_eq!(b.score, 1);
    assert_eq!(b.snake.segs.len(), 2);
    assert!(b.fruit_pos.x >= 0 && b.fruit_pos.x < 5);
    assert!(b.fruit_pos.y >= 0 && b.fruit_pos.y < 5);
}

#[test]
fn two_left_steps_on_three_by_three() {
    let mut b = board_with(
        3,
        Pos { x: 2, y: 2 },
        vec![Pos { x: 1, y: 1 }],
        Directions::LEFT,
    );
    b.move_snake(Directions::LEFT);
    assert_eq!(b.snake.segs[0], Pos { x: 0, y: 1 });
    assert!(b.alive);
    b.move_snake(Directions::LEFT);
    assert_eq!(b.snake.segs[0], Pos { x: -1, y: 1 });
    assert!(!b.alive);
}

#[test]
fn did_self_collide_scans_body_only() {
    let s = Snake {
        segs: vec![Pos { x: 1, y: 1 }, Pos { x: 1, y: 2 }, Pos { x: 2, y: 2 }],
    };
    assert!(s.did_self_collide(1, 2));
    assert!(s.did_self_collide(2, 2));
    // The head's own cell does not count as a collision.
    assert!(!s.did_self_collide(1, 1));
    assert!(!s.did_self_collide(0, 0));
    let single = Snake::new(1, 1);
    assert!(!single.did_self_collide(1, 1));
}

#[test]
fn new_board_defaults() {
    let b = Board::new(25);
    assert_eq!(b.size, 25);
    assert_eq!(b.score, 0);
    assert!(b.alive);
    assert_eq!(b.direction, Directions::RIGHT);
    assert_eq!(b.snake.segs, vec![Pos { x: 12, y: 12 }]);
    assert!(b.fruit_pos.x >= 0 && b.fruit_pos.x < 25);
    assert!(b.fruit_pos.y >= 0 && b.fruit_pos.y < 25);
}

#[test]
fn fruit_always_lands_in_bounds() {
    for _ in 0..200 {
        let b = Board::new(3);
        assert!(b.fruit_pos.x >= 0 && b.fruit_pos.x < 3);
        assert!(b.fruit_pos.y >= 0 && b.fruit_pos.y < 3);
    }
}

#[test]
fn detect_input_maps_arrows_and_escape() {
    let cases = [
        (KeyInput::UpArrow, Directions::UP, false),
        (KeyInput::DownArrow, Directions::DOWN, false),
        (KeyInput::LeftArrow, Directions::LEFT, false),
        (KeyInput::RightArrow, Directions::RIGHT, false),
    ];
    for (key, expected, quit) in cases {
        let mut b = board_with(
            5,
            Pos { x: 3, y: 3 },
            vec![Pos { x: 1, y: 1 }],
            Directions::RIGHT,
        );
        assert_eq!(b.detect_input(key), quit);
        assert_eq!(b.direction, expected);
    }
    let mut b = board_with(
        5,
        Pos { x: 3, y: 3 },
        vec![Pos { x: 1, y: 1 }],
        Directions::DOWN,
    );
    assert!(b.detect_input(KeyInput::Escape));
    assert_eq!(b.direction, Directions::DOWN);
    assert!(!b.detect_input(KeyInput::Other));
    assert_eq!(b.direction, Directions::DOWN);
}
