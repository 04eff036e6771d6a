//! The game: screen dimensions, food, score and the player, and the per-frame
//! state transitions. The front end polls the terminal for input, hands the
//! decoded key here, and replays the recorded frame onto the terminal.

use rand::Rng;
use vstd::prelude::*;

use crate::graphics::{clear, draw_char, rect_ops, render_rect, DrawOp, Glyph, Screen};
use crate::player::{
    player_ops, reverse_of, step_of, trail_after, Direction, Player,
};

verus! {

/// A decoded input: one of the keys the game reacts to, or any other key.
#[derive(Clone, Copy, PartialEq, Eq, Structural, Debug)]
pub enum Key {
    Esc,
    Right,
    Down,
    Left,
    Up,
    Other,
}

/// The heading a key requests, if it requests one.
pub open spec fn dir_of_key(k: Key) -> Option<Direction> {
    match k {
        Key::Right => Some(Direction::RIGHT),
        Key::Down => Some(Direction::DOWN),
        Key::Left => Some(Direction::LEFT),
        Key::Up => Some(Direction::UP),
        Key::Esc => None,
        Key::Other => None,
    }
}

/// The heading after one polled input (`None` is a poll timeout): an arrow
/// key sets its heading unless it is the direct reverse of the current one,
/// which is silently ignored; everything else changes nothing.
pub open spec fn dir_after(cur: Direction, key: Option<Key>) -> Direction {
    match key {
        None => cur,
        Some(k) => match dir_of_key(k) {
            None => cur,
            Some(d) => if d == reverse_of(cur) {
                cur
            } else {
                d
            },
        },
    }
}

/// The heading after a whole sequence of polled inputs.
pub open spec fn dirs_after(cur: Direction, keys: Seq<Key>) -> Direction
    decreases keys.len(),
{
    if keys.len() == 0 {
        cur
    } else {
        dir_after(dirs_after(cur, keys.drop_last()), Some(keys.last()))
    }
}

/// A screen large enough to hold the border, the score rows and at least one
/// inner play-field cell.
pub open spec fn screen_ok(screen: (u16, u16)) -> bool {
    screen.0 >= 3 && screen.1 >= 5
}

/// The inner play-field: one cell in from the left, right and top borders,
/// with the bottom border and two score rows excluded.
pub open spec fn in_inner(pos: (u16, u16), screen: (u16, u16)) -> bool {
    &&& 1 <= pos.0
    &&& pos.0 + 2 <= screen.0
    &&& 1 <= pos.1
    &&& pos.1 + 3 <= screen.1
}

/// The cell at the middle of the screen, where the player starts.
pub open spec fn center_of(screen: (u16, u16)) -> (u16, u16) {
    (screen.0 / 2, screen.1 / 2)
}

/// Whether some inner play-field cell is free of the trail.
pub open spec fn has_free_cell(screen: (u16, u16), tail: Seq<(u16, u16)>) -> bool {
    exists|p: (u16, u16)| in_inner(p, screen) && !tail.contains(p)
}

/// The last-set direction wins: after a run of polled inputs whose final one
/// requests a heading `d` that does not reverse the heading the earlier
/// inputs left, the player's heading is `d`, and one update then moves the
/// head by exactly one cell in `d`.
pub proof fn lemma_head_moves_one_cell(
    cur: Direction,
    keys: Seq<Key>,
    d: Direction,
    pos: (u16, u16),
)
    requires
        keys.len() > 0,
        dir_of_key(keys.last()) == Some(d),
        d != reverse_of(dirs_after(cur, keys.drop_last())),
    ensures
        dirs_after(cur, keys) == d,
        d == Direction::RIGHT ==> step_of(pos, d) == (pos.0 + 1, pos.1 as int),
        d == Direction::DOWN ==> step_of(pos, d) == (pos.0 as int, pos.1 + 1),
        d == Direction::LEFT ==> step_of(pos, d) == (pos.0 - 1, pos.1 as int),
        d == Direction::UP ==> step_of(pos, d) == (pos.0 as int, pos.1 - 1),
{
}

/// A requested heading equal to the direct reverse of the current one is
/// silently ignored: the heading stays as it was.
pub proof fn lemma_reverse_request_ignored(cur: Direction, k: Key)
    requires
        dir_of_key(k) == Some(reverse_of(cur)),
    ensures
        dir_after(cur, Some(k)) == cur,
{
}

pub struct Game {
    /// The terminal's dimensions, fixed at start.
    pub screen_size: (u16, u16),
    /// How long the front end waits for input each frame, in milliseconds.
    pub poll_duration: u64,
    pub player: Player,
    /// The food's cell.
    pub food: (u16, u16),
    /// The score: one point per food eaten, reset on collision.
    pub points: u16,
}

impl Game {
    /// The state every frame preserves: a usable screen, the head inside the
    /// inner play-field, and the trail within its length cap.
    pub open spec fn inv(&self) -> bool {
        &&& screen_ok(self.screen_size)
        &&& in_inner(self.player.pos, self.screen_size)
        &&& self.player.tail@.len() <= self.player.len
    }

    /// The head's cell after one step in the current heading.
    pub open spec fn next_head(&self) -> (u16, u16) {
        (
            step_of(self.player.pos, self.player.dir).0 as u16,
            step_of(self.player.pos, self.player.dir).1 as u16,
        )
    }

    /// A fresh game on a `screen_size` terminal: default poll timeout, a
    /// zero-length player at a placeholder cell, food co-located with it,
    /// and no points. `start` then centres the player.
    pub fn new(screen_size: (u16, u16)) -> (game: Game)
        requires
            screen_ok(screen_size),
        ensures
            game.screen_size == screen_size,
            game.poll_duration == 100u64,
            game.player.pos == (10u16, 10u16),
            game.player.dir == Direction::UP,
            game.player.len == 0usize,
            game.player.tail@ == Seq::<(u16, u16)>::empty(),
            game.food == (10u16, 10u16),
            game.points == 0u16,
    {
        Game {
            screen_size,
            poll_duration: 100,
            player: Player { dir: Direction::UP, pos: (10, 10), len: 0, tail: Vec::new() },
            food: (10, 10),
            points: 0,
        }
    }

    /// Centres the player on the screen (the front end hides the cursor).
    pub fn start(&mut self)
        requires
            screen_ok(old(self).screen_size),
            old(self).player.tail@.len() <= old(self).player.len,
        ensures
            final(self).player.pos == center_of(old(self).screen_size),
            final(self).player.dir == old(self).player.dir,
            final(self).player.len == old(self).player.len,
            final(self).player.tail == old(self).player.tail,
            final(self).screen_size == old(self).screen_size,
            final(self).poll_duration == old(self).poll_duration,
            final(self).food == old(self).food,
            final(self).points == old(self).points,
            final(self).inv(),
    {
        self.player.pos = (self.screen_size.0 / 2, self.screen_size.1 / 2);
    }

    /// Applies one polled input: `Esc` asks the loop to stop; an arrow key
    /// sets the heading unless it reverses the current one; any other key,
    /// or no input within the timeout (`None`), changes nothing.
    pub fn handle_events(&mut self, key: Option<Key>) -> (cont: bool)
        ensures
            cont == (key != Some(Key::Esc)),
            final(self).player.dir == dir_after(old(self).player.dir, key),
            final(self).player.pos == old(self).player.pos,
            final(self).player.len == old(self).player.len,
            final(self).player.tail == old(self).player.tail,
            final(self).screen_size == old(self).screen_size,
            final(self).poll_duration == old(self).poll_duration,
            final(self).food == old(self).food,
            final(self).points == old(self).points,
    {
        match key {
            None => true,
            Some(k) => match k {
                Key::Esc => false,
                Key::Right => {
                    if self.player.dir != Direction::LEFT {
                        self.player.dir = Direction::RIGHT;
                    }
                    true
                },
                Key::Down => {
                    if self.player.dir != Direction::UP {
                        self.player.dir = Direction::DOWN;
                    }
                    true
                },
                Key::Left => {
                    if self.player.dir != Direction::RIGHT {
                        self.player.dir = Direction::LEFT;
                    }
                    true
                },
                Key::Up => {
                    if self.player.dir != Direction::DOWN {
                        self.player.dir = Direction::UP;
                    }
                    true
                },
                Key::Other => true,
            },
        }
    }

    /// Advances the game one frame: the player moves one cell; if the head
    /// lands on the food, the score and the length cap grow by one and the
    /// food reappears on a free inner cell; a head outside the inner
    /// play-field or on the trail then resets the run to a centred,
    /// zero-length player with no points.
    pub fn update(&mut self)
        requires
            old(self).inv(),
            old(self).points < u16::MAX,
            old(self).player.len < usize::MAX,
        ensures
            final(self).inv(),
            final(self).screen_size == old(self).screen_size,
            final(self).poll_duration == old(self).poll_duration,
            final(self).player.dir == old(self).player.dir,
            ({
                let t1 = trail_after(
                    old(self).player.tail@,
                    old(self).player.pos,
                    old(self).player.len as nat,
                );
                let h1 = old(self).next_head();
                let eat = h1 == old(self).food;
                let dead = !in_inner(h1, old(self).screen_size) || t1.contains(h1);
                &&& (eat ==> in_inner(final(self).food, old(self).screen_size))
                &&& (eat && has_free_cell(old(self).screen_size, t1) ==> !t1.contains(
                    final(self).food,
                ))
                &&& (!eat ==> final(self).food == old(self).food)
                &&& (dead ==> {
                    &&& final(self).player.pos == center_of(old(self).screen_size)
                    &&& final(self).player.len == 0usize
                    &&& final(self).player.tail@ == Seq::<(u16, u16)>::empty()
                    &&& final(self).points == 0u16
                })
                &&& (!dead ==> {
                    &&& final(self).player.pos == h1
                    &&& final(self).player.tail@ == t1
                    &&& final(self).player.len == old(self).player.len + (if eat {
                        1int
                    } else {
                        0int
                    })
                    &&& final(self).points == old(self).points + (if eat {
                        1int
                    } else {
                        0int
                    })
                })
            }),
    {
        proof {
            assert(old(self).player.can_step());
        }
        self.player.update();

        if self.player.pos.0 == self.food.0 && self.player.pos.1 == self.food.1 {
            self.points = self.points + 1;
            self.food = place_food(self.screen_size, &self.player.tail);
            self.player.len = self.player.len + 1;
        }

        let w = self.screen_size.0;
        let h = self.screen_size.1;
        if self.player.pos.0 < 1 || self.player.pos.0 > w - 2 || self.player.pos.1 < 1
            || self.player.pos.1 > h - 3 || tail_contains(&self.player.tail, self.player.pos) {
            self.player.len = 0;
            self.player.pos = (w / 2, h / 2);
            self.player.tail = Vec::new();
            self.points = 0;
        }
    }

    /// Records one frame: clears the screen, draws the play-field border and
    /// the score line, renders the player and the food, in that order. The
    /// front end replays the recorded commands and flushes them.
    pub fn render(&mut self, screen: &mut Screen)
        requires
            screen_ok(old(self).screen_size),
        ensures
            *final(self) == *old(self),
            final(screen)@ == old(screen)@ + frame_ops(*old(self)),
    {
        let ghost orig = screen@;
        clear(screen);
        render_rect(screen, (0, 0), (self.screen_size.0, self.screen_size.1 - 2));
        let ghost after_rect = orig + seq![DrawOp::Clear] + rect_ops(
            0,
            0,
            self.screen_size.0,
            (self.screen_size.1 - 2) as u16,
        );
        proof {
            assert(screen@ =~= after_rect);
        }

        let mut text = points_label_bytes();
        let mut digits = dec_bytes(self.points);
        text.append(&mut digits);
        proof {
            assert(pow10(5) == 100000) by {
                reveal_with_fuel(pow10, 6);
            }
            lemma_dec_digits_len(self.points as nat, 5);
        }

        let y_score = self.screen_size.1;
        let mut i: usize = 0;
        while i < text.len()
            invariant
                i <= text@.len() <= 13,
                screen@ == after_rect + text_ops(0u16, y_score, text@.take(i as int)),
            decreases text@.len() - i,
        {
            let b = text[i];
            draw_char(screen, (i as u16, y_score), Glyph::Byte(b));
            i = i + 1;
            proof {
                assert(text@.take(i as int).drop_last() =~= text@.take(i as int - 1));
                assert(screen@ =~= after_rect + text_ops(0u16, y_score, text@.take(i as int)));
            }
        }
        proof {
            assert(text@.take(text@.len() as int) =~= text@);
        }

        self.player.render(screen);
        draw_char(screen, (self.food.0, self.food.1), Glyph::Food);
        proof {
            assert(screen@ =~= old(screen)@ + frame_ops(*old(self)));
        }
    }
}

/// The bytes of the score line's label.
pub open spec fn points_label() -> Seq<u8> {
    seq![80u8, 111u8, 105u8, 110u8, 116u8, 115u8, 58u8, 32u8]
}

/// The decimal digits of `n`, as bytes, most significant first.
pub open spec fn dec_digits(n: nat) -> Seq<u8>
    decreases n,
{
    if n < 10 {
        seq![(48 + n) as u8]
    } else {
        dec_digits(n / 10).push((48 + n % 10) as u8)
    }
}

/// Ten to the `k`th.
pub open spec fn pow10(k: nat) -> nat
    decreases k,
{
    if k == 0 {
        1
    } else {
        10 * pow10((k - 1) as nat)
    }
}

/// A number below ten to the `k`th has at most `k` decimal digits.
proof fn lemma_dec_digits_len(n: nat, k: nat)
    requires
        k >= 1,
        n < pow10(k),
    ensures
        dec_digits(n).len() <= k,
    decreases n,
{
    if n >= 10 {
        reveal_with_fuel(pow10, 2);
        assert(n < 10 * pow10((k - 1) as nat));
        assert(n / 10 < pow10((k - 1) as nat)) by (nonlinear_arith)
            requires
                n < 10 * pow10((k - 1) as nat),
        ;
        lemma_dec_digits_len(n / 10, (k - 1) as nat);
    }
}

/// The commands that write `bytes` one cell after another, starting at
/// `(x, y)` and moving right.
pub open spec fn text_ops(x: u16, y: u16, bytes: Seq<u8>) -> Seq<DrawOp>
    decreases bytes.len(),
{
    if bytes.len() == 0 {
        Seq::empty()
    } else {
        text_ops(x, y, bytes.drop_last()).push(
            DrawOp::Put {
                x: (x + bytes.len() - 1) as u16,
                y,
                glyph: Glyph::Byte(bytes.last()),
            },
        )
    }
}

/// Every command `Game::render` issues for one frame, in order: clear the
/// screen, the play-field border, the score line, the player, the food.
pub open spec fn frame_ops(g: Game) -> Seq<DrawOp> {
    seq![DrawOp::Clear] + rect_ops(0, 0, g.screen_size.0, (g.screen_size.1 - 2) as u16) + text_ops(
        0,
        g.screen_size.1,
        points_label() + dec_digits(g.points as nat),
    ) + player_ops(g.player.pos, g.player.tail@) + seq![
        DrawOp::Put { x: g.food.0, y: g.food.1, glyph: Glyph::Food },
    ]
}

/// The score label, as the bytes the score line starts with.
fn points_label_bytes() -> (r: Vec<u8>)
    ensures
        r@ == points_label(),
{
    let mut v: Vec<u8> = Vec::new();
    v.push(80);
    v.push(111);
    v.push(105);
    v.push(110);
    v.push(116);
    v.push(115);
    v.push(58);
    v.push(32);
    proof {
        assert(v@ =~= points_label());
    }
    v
}

/// The decimal digits of `n`, as bytes, most significant first.
fn dec_bytes(n: u16) -> (r: Vec<u8>)
    ensures
        r@ == dec_digits(n as nat),
    decreases n,
{
    if n < 10 {
        let mut v: Vec<u8> = Vec::new();
        v.push((48 + n) as u8);
        proof {
            assert(v@ =~= dec_digits(n as nat));
        }
        v
    } else {
        let mut v = dec_bytes(n / 10);
        v.push((48 + n % 10) as u8);
        v
    }
}

/// Whether `pos` is one of the trail's cells.
fn tail_contains(tail: &Vec<(u16, u16)>, pos: (u16, u16)) -> (r: bool)
    ensures
        r == tail@.contains(pos),
{
    let mut i: usize = 0;
    while i < tail.len()
        invariant
            i <= tail@.len(),
            forall|k: int| 0 <= k < i ==> tail@[k] != pos,
        decreases tail@.len() - i,
    {
        let cell = tail[i];
        if cell.0 == pos.0 && cell.1 == pos.1 {
            proof {
                assert(tail@[i as int] == pos);
            }
            return true;
        }
        i = i + 1;
    }
    false
}

/// How many random candidates food placement draws before it falls back to
/// scanning the play-field for a free cell.
const FOOD_SAMPLE_TRIES: u32 = 64;

/// Relies on `rand::thread_rng` and `rand::Rng::gen_range`: returns a
/// uniformly distributed value in the half-open range `lo..hi`.
#[verifier::external_body]
fn gen_range_u16(lo: u16, hi: u16) -> (r: u16)
    requires
        lo < hi,
    ensures
        lo <= r < hi,
{
    rand::thread_rng().gen_range(lo..hi)
}

/// A random candidate cell strictly inside the play-field borders, as the
/// food regeneration draws it.
fn random_inner_cell(screen: (u16, u16)) -> (cell: (u16, u16))
    requires
        screen_ok(screen),
    ensures
        in_inner(cell, screen),
{
    (gen_range_u16(1, screen.0 - 1), gen_range_u16(1, screen.1 - 3))
}

/// Picks a cell for new food: draws uniform random candidates inside the
/// inner play-field and keeps the first one off the trail; when the trail is
/// so crowded that sampling keeps landing on it, falls back to scanning the
/// play-field for a free cell. Only a trail covering every inner cell leaves
/// the food on the trail (and the run then resets on this very frame).
fn place_food(screen: (u16, u16), tail: &Vec<(u16, u16)>) -> (food: (u16, u16))
    requires
        screen_ok(screen),
    ensures
        in_inner(food, screen),
        has_free_cell(screen, tail@) ==> !tail@.contains(food),
{
    let mut tries: u32 = 0;
    while tries < FOOD_SAMPLE_TRIES
        invariant
            screen_ok(screen),
        decreases FOOD_SAMPLE_TRIES - tries,
    {
        let candidate = random_inner_cell(screen);
        if !tail_contains(tail, candidate) {
            return candidate;
        }
        tries = tries + 1;
    }

    let mut fx: u16 = 1;
    while fx <= screen.0 - 2
        invariant
            screen_ok(screen),
            1 <= fx <= screen.0,
            forall|p: (u16, u16)| in_inner(p, screen) && p.0 < fx ==> #[trigger] tail@.contains(p),
        decreases screen.0 - fx,
    {
        let mut fy: u16 = 1;
        while fy <= screen.1 - 3
            invariant
                screen_ok(screen),
                1 <= fx,
                fx + 2 <= screen.0,
                1 <= fy <= screen.1,
                forall|p: (u16, u16)|
                    in_inner(p, screen) && p.0 < fx ==> #[trigger] tail@.contains(p),
                forall|p: (u16, u16)|
                    in_inner(p, screen) && p.0 == fx && p.1 < fy ==> #[trigger] tail@.contains(p),
            decreases screen.1 - fy,
        {
            if !tail_contains(tail, (fx, fy)) {
                return (fx, fy);
            }
            fy = fy + 1;
        }
        fx = fx + 1;
    }

    proof {
        assert(forall|p: (u16, u16)| in_inner(p, screen) ==> #[trigger] tail@.contains(p));
        assert(!has_free_cell(screen, tail@));
    }
    random_inner_cell(screen)
}

} // verus!
