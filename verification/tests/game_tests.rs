use snake::game::{Game, Key};
use snake::graphics::{DrawOp, Glyph, Screen};
use snake::player::Direction;

fn fresh_game() -> Game {
    let mut g = Game::new((40, 20));
    g.start();
    g
}

#[test]
fn new_game_defaults() {
    let g = Game::new((40, 20));
    assert_eq!(g.screen_size, (40, 20));
    assert_eq!(g.poll_duration, 100);
    assert_eq!(g.player.pos, (10, 10));
    assert_eq!(g.player.len, 0);
    assert!(g.player.tail.is_empty());
    assert_eq!(g.food, (10, 10));
    assert_eq!(g.points, 0);
}

#[test]
fn start_centers_player() {
    let g = fresh_game();
    assert_eq!(g.player.pos, (20, 10));
}

#[test]
fn arrow_keys_set_direction() {
    for (key, dir) in [
        (Key::Right, Direction::RIGHT),
        (Key::Down, Direction::DOWN),
        (Key::Left, Direction::LEFT),
        (Key::Up, Direction::UP),
    ] {
        let mut g = fresh_game();
        // heading UP; turning to LEFT first makes every arrow non-reversing
        g.handle_events(Some(Key::Left));
        if key == Key::Right {
            g.handle_events(Some(Key::Up));
        }
        let cont = g.handle_events(Some(key));
        assert!(cont);
        assert_eq!(g.player.dir, dir);
    }
}

#[test]
fn reverse_direction_is_ignored() {
    for (dir, reverse) in [
        (Direction::RIGHT, Key::Left),
        (Direction::DOWN, Key::Up),
        (Direction::LEFT, Key::Right),
        (Direction::UP, Key::Down),
    ] {
        let mut g = fresh_game();
        g.player.dir = dir;
        let cont = g.handle_events(Some(reverse));
        assert!(cont);
        assert_eq!(g.player.dir, dir);
    }
}

#[test]
fn esc_stops_other_input_continues() {
    let mut g = fresh_game();
    assert!(!g.handle_events(Some(Key::Esc)));
    assert!(g.handle_events(Some(Key::Other)));
    assert!(g.handle_events(None));
    assert_eq!(g.player.dir, Direction::UP);
    assert_eq!(g.player.pos, (20, 10));
}

#[test]
fn update_moves_one_cell_without_food() {
    let mut g = fresh_game();
    g.handle_events(Some(Key::Right));
    g.update();
    assert_eq!(g.player.pos, (21, 10));
    assert_eq!(g.points, 0);
    assert_eq!(g.player.len, 0);
    assert!(g.player.tail.is_empty());
    // food untouched when nothing was eaten
    assert_eq!(g.food, (10, 10));
}

#[test]
fn eating_food_grows_and_scores() {
    let mut g = fresh_game();
    g.player.pos = (20, 10);
    g.player.dir = Direction::UP;
    g.player.len = 2;
    g.player.tail = vec![(20, 11)];
    g.food = (20, 9);
    g.update();
    assert_eq!(g.player.pos, (20, 9));
    assert_eq!(g.points, 1);
    assert_eq!(g.player.len, 3);
    assert_eq!(g.player.tail, vec![(20, 11), (20, 10)]);
    // the new food is inside the inner play-field...
    let (fx, fy) = g.food;
    assert!((1..=38).contains(&fx));
    assert!((1..=17).contains(&fy));
    // ...and never on the trail
    assert!(!g.player.tail.contains(&g.food));
}

#[test]
fn wall_collision_resets_run() {
    // one case per wall: left, right, top, bottom
    for (pos, dir) in [
        ((1, 5), Direction::LEFT),
        ((38, 5), Direction::RIGHT),
        ((5, 1), Direction::UP),
        ((5, 17), Direction::DOWN),
    ] {
        let mut g = fresh_game();
        g.player.pos = pos;
        g.player.dir = dir;
        g.player.len = 2;
        g.player.tail = vec![(30, 15)];
        g.points = 7;
        g.update();
        assert_eq!(g.player.pos, (20, 10));
        assert_eq!(g.player.len, 0);
        assert!(g.player.tail.is_empty());
        assert_eq!(g.points, 0);
    }
}

#[test]
fn self_collision_resets_run() {
    let mut g = fresh_game();
    g.player.pos = (10, 10);
    g.player.dir = Direction::RIGHT;
    g.player.len = 3;
    g.player.tail = vec![(11, 10), (11, 11)];
    g.points = 4;
    g.update();
    assert_eq!(g.player.pos, (20, 10));
    assert_eq!(g.player.len, 0);
    assert!(g.player.tail.is_empty());
    assert_eq!(g.points, 0);
}

#[test]
fn food_lands_on_the_only_free_cell() {
    // a 5x7 screen has a 3x4 inner play-field; occupy every cell but one
    let mut g = Game::new((5, 7));
    g.start();
    let mut tail = Vec::new();
    for x in 1..=3u16 {
        for y in 1..=4u16 {
            if (x, y) != (1, 4) && (x, y) != (2, 2) {
                tail.push((x, y));
            }
        }
    }
    g.player.pos = (2, 2);
    g.player.dir = Direction::RIGHT;
    g.player.len = 20;
    g.player.tail = tail;
    g.food = (3, 2);
    g.update();
    // after the head moved from (2,2), the only cell off the trail is (1,4)
    assert_eq!(g.food, (1, 4));
    // the head landed on its own trail, so the run reset as well
    assert_eq!(g.player.pos, (2, 3));
    assert_eq!(g.points, 0);
    assert_eq!(g.player.len, 0);
    assert!(g.player.tail.is_empty());
}

/// Replays drawing commands and returns what is left visible in one cell.
fn cell(ops: &[DrawOp], x: u16, y: u16) -> Option<Glyph> {
    let mut cur = None;
    for op in ops {
        match op {
            DrawOp::Clear => cur = None,
            DrawOp::Put { x: px, y: py, glyph } => {
                if *px == x && *py == y {
                    cur = Some(*glyph);
                }
            }
        }
    }
    cur
}

#[test]
fn render_records_one_full_frame() {
    let mut g = fresh_game();
    g.player.len = 1;
    g.player.tail = vec![(20, 11)];
    g.food = (7, 7);
    let mut s = Screen::new();
    g.render(&mut s);

    // the frame starts from a clear screen
    assert_eq!(s.ops[0], DrawOp::Clear);
    // the border spans the screen, leaving two rows at the bottom
    assert_eq!(cell(&s.ops, 0, 0), Some(Glyph::TopLeft));
    assert_eq!(cell(&s.ops, 40, 18), Some(Glyph::BottomRight));
    // the score line reads "Points: 0" at the bottom
    let expected = b"Points: 0";
    for (i, b) in expected.iter().enumerate() {
        assert_eq!(cell(&s.ops, i as u16, 20), Some(Glyph::Byte(*b)));
    }
    // the player and the food are drawn
    assert_eq!(cell(&s.ops, 20, 10), Some(Glyph::Head));
    assert_eq!(cell(&s.ops, 20, 11), Some(Glyph::Body));
    assert_eq!(cell(&s.ops, 7, 7), Some(Glyph::Food));
}

#[test]
fn score_line_shows_decimal_points() {
    let mut g = fresh_game();
    g.points = 345;
    let mut s = Screen::new();
    g.render(&mut s);
    let expected = b"Points: 345";
    for (i, b) in expected.iter().enumerate() {
        assert_eq!(cell(&s.ops, i as u16, 20), Some(Glyph::Byte(*b)));
    }
    // no text beyond the number
    assert_eq!(cell(&s.ops, expected.len() as u16, 20), None);
}
