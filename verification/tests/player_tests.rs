use snake::graphics::{DrawOp, Glyph, Screen};
use snake::player::{Direction, Player};

#[test]
fn moves_one_cell_right_with_empty_trail() {
    // player at (10, 10) moving right with len 0 and an empty trail
    let mut p = Player {
        pos: (10, 10),
        dir: Direction::RIGHT,
        len: 0,
        tail: Vec::new(),
    };
    p.update();
    assert_eq!(p.pos, (11, 10));
    assert_eq!(p.tail, Vec::new());
}

#[test]
fn moves_one_cell_right_with_trail() {
    // player with len 2, trail [(9,10), (10,10)], moving right from (11,10)
    let mut p = Player {
        pos: (11, 10),
        dir: Direction::RIGHT,
        len: 2,
        tail: vec![(9, 10), (10, 10)],
    };
    p.update();
    assert_eq!(p.pos, (12, 10));
    assert_eq!(p.tail, vec![(10, 10), (11, 10)]);
}

#[test]
fn moves_one_cell_each_direction() {
    for (dir, expected) in [
        (Direction::RIGHT, (6, 5)),
        (Direction::DOWN, (5, 6)),
        (Direction::LEFT, (4, 5)),
        (Direction::UP, (5, 4)),
    ] {
        let mut p = Player {
            pos: (5, 5),
            dir,
            len: 0,
            tail: Vec::new(),
        };
        p.update();
        assert_eq!(p.pos, expected);
    }
}

#[test]
fn trail_length_never_exceeds_len() {
    let mut p = Player {
        pos: (1, 5),
        dir: Direction::RIGHT,
        len: 3,
        tail: Vec::new(),
    };
    for i in 0..10 {
        p.update();
        assert!(p.tail.len() <= p.len);
        assert!(p.tail.len() == (i + 1).min(3));
    }
    // the trail is the sliding window of the cells just left, oldest first
    assert_eq!(p.pos, (11, 5));
    assert_eq!(p.tail, vec![(8, 5), (9, 5), (10, 5)]);
}

#[test]
fn render_draws_head_then_trail_in_order() {
    let mut p = Player {
        pos: (5, 5),
        dir: Direction::RIGHT,
        len: 2,
        tail: vec![(3, 5), (4, 5)],
    };
    let mut s = Screen::new();
    p.render(&mut s);
    assert_eq!(
        s.ops,
        vec![
            DrawOp::Put { x: 5, y: 5, glyph: Glyph::Head },
            DrawOp::Put { x: 3, y: 5, glyph: Glyph::Body },
            DrawOp::Put { x: 4, y: 5, glyph: Glyph::Body },
        ]
    );
    // rendering leaves the player unchanged
    assert_eq!(p.pos, (5, 5));
    assert_eq!(p.tail, vec![(3, 5), (4, 5)]);
}
