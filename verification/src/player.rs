//! The player: a head position, a heading, and a length-capped trail of the
//! positions the head has just left.

use vstd::prelude::*;

use crate::graphics::{draw_char, DrawOp, Glyph, Screen};

verus! {

/// The player's heading.
#[allow(non_camel_case_types)]
#[derive(Clone, Copy, PartialEq, Eq, Structural, Debug)]
pub enum Direction {
    RIGHT,
    DOWN,
    LEFT,
    UP,
}

/// The heading that is the 180-degree reverse of `d`.
pub open spec fn reverse_of(d: Direction) -> Direction {
    match d {
        Direction::RIGHT => Direction::LEFT,
        Direction::DOWN => Direction::UP,
        Direction::LEFT => Direction::RIGHT,
        Direction::UP => Direction::DOWN,
    }
}

/// Where a head at `pos` lands after one step in direction `d`, as
/// mathematical coordinates (x grows rightwards, y grows downwards).
pub open spec fn step_of(pos: (u16, u16), d: Direction) -> (int, int) {
    match d {
        Direction::RIGHT => (pos.0 + 1, pos.1 as int),
        Direction::DOWN => (pos.0 as int, pos.1 + 1),
        Direction::LEFT => (pos.0 - 1, pos.1 as int),
        Direction::UP => (pos.0 as int, pos.1 - 1),
    }
}

/// The trail after the head leaves `pos`: `pos` joins at the back and, when
/// the cap `len` is exceeded, the oldest entry leaves at the front.
pub open spec fn trail_after(tail: Seq<(u16, u16)>, pos: (u16, u16), len: nat) -> Seq<(u16, u16)> {
    let t = tail.push(pos);
    if t.len() > len {
        t.subrange(1, t.len() as int)
    } else {
        t
    }
}

/// The drawing commands of one trail, one body glyph per cell, oldest first.
pub open spec fn tail_ops(tail: Seq<(u16, u16)>) -> Seq<DrawOp>
    decreases tail.len(),
{
    if tail.len() == 0 {
        Seq::empty()
    } else {
        tail_ops(tail.drop_last()).push(
            DrawOp::Put { x: tail.last().0, y: tail.last().1, glyph: Glyph::Body },
        )
    }
}

/// Every command `Player::render` issues, in order: the head glyph first,
/// then one body glyph per trail cell, oldest first.
pub open spec fn player_ops(pos: (u16, u16), tail: Seq<(u16, u16)>) -> Seq<DrawOp> {
    seq![DrawOp::Put { x: pos.0, y: pos.1, glyph: Glyph::Head }] + tail_ops(tail)
}

pub struct Player {
    /// The head's current cell.
    pub pos: (u16, u16),
    /// The current heading.
    pub dir: Direction,
    /// The trail's length cap; grows by one per food eaten.
    pub len: usize,
    /// The cells still occupied by the body, oldest first.
    pub tail: Vec<(u16, u16)>,
}

impl Player {
    /// One step in the current heading stays within the coordinate type;
    /// a step that would leave it has no representable destination cell.
    pub open spec fn can_step(&self) -> bool {
        match self.dir {
            Direction::RIGHT => self.pos.0 < u16::MAX,
            Direction::DOWN => self.pos.1 < u16::MAX,
            Direction::LEFT => self.pos.0 > 0,
            Direction::UP => self.pos.1 > 0,
        }
    }

    /// Advances the player one cell in its heading: the head's old cell joins
    /// the trail (trimmed from the front past the length cap), and the head
    /// moves by exactly one cell.
    pub fn update(&mut self)
        requires
            old(self).can_step(),
        ensures
            final(self).dir == old(self).dir,
            final(self).len == old(self).len,
            final(self).tail@ == trail_after(old(self).tail@, old(self).pos, old(self).len as nat),
            (final(self).pos.0 as int, final(self).pos.1 as int) == step_of(
                old(self).pos,
                old(self).dir,
            ),
    {
        self.tail.push(self.pos);
        if self.tail.len() > self.len {
            self.tail.remove(0);
            proof {
                assert(self.tail@ =~= trail_after(
                    old(self).tail@,
                    old(self).pos,
                    old(self).len as nat,
                ));
            }
        }

        match self.dir {
            Direction::RIGHT => {
                self.pos = (self.pos.0 + 1, self.pos.1);
            },
            Direction::DOWN => {
                self.pos = (self.pos.0, self.pos.1 + 1);
            },
            Direction::LEFT => {
                self.pos = (self.pos.0 - 1, self.pos.1);
            },
            Direction::UP => {
                self.pos = (self.pos.0, self.pos.1 - 1);
            },
        }
    }

    /// Draws the player: the head glyph at the current cell, then a body
    /// glyph at every trail cell, oldest first.
    pub fn render(&mut self, screen: &mut Screen)
        ensures
            *final(self) == *old(self),
            final(screen)@ == old(screen)@ + player_ops(old(self).pos, old(self).tail@),
    {
        let ghost orig = screen@;
        draw_char(screen, (self.pos.0, self.pos.1), Glyph::Head);
        proof {
            assert(screen@ =~= orig + player_ops(self.pos, self.tail@.take(0)));
        }

        let mut i: usize = 0;
        while i < self.tail.len()
            invariant
                i <= self.tail@.len(),
                screen@ == orig + player_ops(self.pos, self.tail@.take(i as int)),
            decreases self.tail@.len() - i,
        {
            let segment = self.tail[i];
            draw_char(screen, segment, Glyph::Body);
            i = i + 1;
            proof {
                assert(self.tail@.take(i as int).drop_last() =~= self.tail@.take(i as int - 1));
                assert(screen@ =~= orig + player_ops(self.pos, self.tail@.take(i as int)));
            }
        }
        proof {
            assert(self.tail@.take(self.tail@.len() as int) =~= self.tail@);
        }
    }

    /// The length-cap invariant: one move never grows the trail past the cap.
    /// (Trail length never exceeds `len`, however many updates run.)
    pub proof fn lemma_trail_capped(tail: Seq<(u16, u16)>, pos: (u16, u16), len: nat)
        requires
            tail.len() <= len,
        ensures
            trail_after(tail, pos, len).len() <= len,
    {
    }
}

} // verus!
