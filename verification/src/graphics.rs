//! Stateless drawing primitives over a recorded frame.
//!
//! A frame is modelled as the ordered sequence of drawing commands issued
//! while rendering it; a terminal front end replays the commands in order.
//! The glyph actually shown in a cell is therefore the glyph of the last
//! command that painted that cell, which `painted` captures.

use vstd::prelude::*;

verus! {

/// What one drawing command paints into a cell.
#[derive(Clone, Copy, PartialEq, Eq, Structural, Debug)]
pub enum Glyph {
    /// Horizontal border edge.
    Horizontal,
    /// Vertical border edge.
    Vertical,
    TopLeft,
    TopRight,
    BottomLeft,
    BottomRight,
    /// The player's head.
    Head,
    /// One trail cell of the player's body.
    Body,
    /// The food cell.
    Food,
    /// A single byte of literal text, such as the score line.
    Byte(u8),
}

/// One drawing command: clear the whole frame, or paint one cell.
#[derive(Clone, Copy, PartialEq, Eq, Structural, Debug)]
pub enum DrawOp {
    Clear,
    Put { x: u16, y: u16, glyph: Glyph },
}

/// A frame under construction: the drawing commands issued so far, in order.
pub struct Screen {
    pub ops: Vec<DrawOp>,
}

impl View for Screen {
    type V = Seq<DrawOp>;

    open spec fn view(&self) -> Seq<DrawOp> {
        self.ops@
    }
}

impl Screen {
    /// An empty frame with no commands issued yet.
    pub fn new() -> (s: Screen)
        ensures
            s@ == Seq::<DrawOp>::empty(),
    {
        Screen { ops: Vec::new() }
    }
}

/// Paints `glyph` into the cell at `pos`.
pub fn draw_char(screen: &mut Screen, pos: (u16, u16), glyph: Glyph)
    ensures
        final(screen)@ == old(screen)@.push(DrawOp::Put { x: pos.0, y: pos.1, glyph }),
{
    screen.ops.push(DrawOp::Put { x: pos.0, y: pos.1, glyph });
}

/// Clears the whole frame.
pub fn clear(screen: &mut Screen)
    ensures
        final(screen)@ == old(screen)@.push(DrawOp::Clear),
{
    screen.ops.push(DrawOp::Clear);
}

/// The glyph left visible in the cell `(x, y)` after replaying `ops`:
/// the glyph of the last command that painted the cell, or `None` if the
/// cell was never painted, or not painted since the last clear.
pub open spec fn painted(ops: Seq<DrawOp>, x: u16, y: u16) -> Option<Glyph>
    decreases ops.len(),
{
    if ops.len() == 0 {
        None
    } else {
        match ops.last() {
            DrawOp::Clear => None,
            DrawOp::Put { x: px, y: py, glyph } => if px == x && py == y {
                Some(glyph)
            } else {
                painted(ops.drop_last(), x, y)
            },
        }
    }
}

/// Whether `ops` contains no clear command.
pub open spec fn no_clear(ops: Seq<DrawOp>) -> bool {
    forall|i: int| 0 <= i < ops.len() ==> ops[i] != DrawOp::Clear
}

/// The commands of the first `i` columns of the two horizontal edges of a
/// rectangle at `(x, y)` whose sides span `w` columns and `h` rows: for each
/// column, the top edge cell and then the bottom edge cell.
pub open spec fn top_bottom_ops(x: u16, y: u16, h: u16, i: nat) -> Seq<DrawOp>
    decreases i,
{
    if i == 0 {
        Seq::empty()
    } else {
        top_bottom_ops(x, y, h, (i - 1) as nat)
            .push(DrawOp::Put { x: (x + i - 1) as u16, y, glyph: Glyph::Horizontal })
            .push(
                DrawOp::Put {
                    x: (x + i - 1) as u16,
                    y: (y + h) as u16,
                    glyph: Glyph::Horizontal,
                },
            )
    }
}

/// The commands of the first `j` rows of the two vertical edges of the same
/// rectangle: for each row, the left edge cell and then the right edge cell.
pub open spec fn left_right_ops(x: u16, y: u16, w: u16, j: nat) -> Seq<DrawOp>
    decreases j,
{
    if j == 0 {
        Seq::empty()
    } else {
        left_right_ops(x, y, w, (j - 1) as nat)
            .push(DrawOp::Put { x, y: (y + j - 1) as u16, glyph: Glyph::Vertical })
            .push(DrawOp::Put { x: (x + w) as u16, y: (y + j - 1) as u16, glyph: Glyph::Vertical })
    }
}

/// Every command `render_rect` issues, in order: the horizontal edges, the
/// vertical edges, and the four corners last, so that the corner glyphs
/// overwrite the edge glyphs at the four extreme cells.
pub open spec fn rect_ops(x: u16, y: u16, w: u16, h: u16) -> Seq<DrawOp> {
    (top_bottom_ops(x, y, h, w as nat) + left_right_ops(x, y, w, h as nat)).push(
        DrawOp::Put { x, y, glyph: Glyph::TopLeft },
    ).push(DrawOp::Put { x: (x + w) as u16, y, glyph: Glyph::TopRight }).push(
        DrawOp::Put { x, y: (y + h) as u16, glyph: Glyph::BottomLeft },
    ).push(DrawOp::Put { x: (x + w) as u16, y: (y + h) as u16, glyph: Glyph::BottomRight })
}

/// Draws a rectangle border whose corner cells are `pos` and
/// `(pos.0 + size.0, pos.1 + size.1)`: straight edges first, then the four
/// corner glyphs on top.
pub fn render_rect(screen: &mut Screen, pos: (u16, u16), size: (u16, u16))
    requires
        pos.0 + size.0 <= u16::MAX,
        pos.1 + size.1 <= u16::MAX,
    ensures
        final(screen)@ == old(screen)@ + rect_ops(pos.0, pos.1, size.0, size.1),
{
    let x = pos.0;
    let y = pos.1;
    let w = size.0;
    let h = size.1;
    let ghost orig = screen@;

    let mut x_draw: u16 = 0;
    while x_draw < w
        invariant
            x_draw <= w,
            x + w <= u16::MAX,
            y + h <= u16::MAX,
            screen@ == orig + top_bottom_ops(x, y, h, x_draw as nat),
        decreases w - x_draw,
    {
        draw_char(screen, (x + x_draw, y), Glyph::Horizontal);
        draw_char(screen, (x + x_draw, y + h), Glyph::Horizontal);
        x_draw = x_draw + 1;
        proof {
            assert(screen@ =~= orig + top_bottom_ops(x, y, h, x_draw as nat));
        }
    }

    let ghost after_tb = screen@;
    let mut y_draw: u16 = 0;
    while y_draw < h
        invariant
            y_draw <= h,
            x + w <= u16::MAX,
            y + h <= u16::MAX,
            screen@ == after_tb + left_right_ops(x, y, w, y_draw as nat),
        decreases h - y_draw,
    {
        draw_char(screen, (x, y + y_draw), Glyph::Vertical);
        draw_char(screen, (x + w, y + y_draw), Glyph::Vertical);
        y_draw = y_draw + 1;
        proof {
            assert(screen@ =~= after_tb + left_right_ops(x, y, w, y_draw as nat));
        }
    }

    draw_char(screen, (x, y), Glyph::TopLeft);
    draw_char(screen, (x + w, y), Glyph::TopRight);
    draw_char(screen, (x, y + h), Glyph::BottomLeft);
    draw_char(screen, (x + w, y + h), Glyph::BottomRight);
    proof {
        assert(screen@ =~= orig + rect_ops(x, y, w, h));
    }
}

/// Later commands win: what a replay of `a + b` leaves in a cell is what `b`
/// leaves there, except that a cell `b` never touches keeps what `a` left,
/// provided `b` clears nothing.
pub proof fn lemma_painted_concat(a: Seq<DrawOp>, b: Seq<DrawOp>, x: u16, y: u16)
    requires
        no_clear(b),
    ensures
        painted(a + b, x, y) == (if painted(b, x, y) is Some {
            painted(b, x, y)
        } else {
            painted(a, x, y)
        }),
    decreases b.len(),
{
    if b.len() == 0 {
        assert(a + b =~= a);
    } else {
        assert((a + b).drop_last() =~= a + b.drop_last());
        assert(no_clear(b.drop_last()));
        lemma_painted_concat(a, b.drop_last(), x, y);
    }
}

/// One more paint command changes only its own cell.
pub proof fn lemma_painted_push(s: Seq<DrawOp>, xp: u16, yp: u16, g: Glyph, x: u16, y: u16)
    ensures
        painted(s.push(DrawOp::Put { x: xp, y: yp, glyph: g }), x, y) == (if xp == x && yp == y {
            Some(g)
        } else {
            painted(s, x, y)
        }),
{
    assert(s.push(DrawOp::Put { x: xp, y: yp, glyph: g }).drop_last() =~= s);
}

/// What the horizontal-edge commands leave in each cell: the horizontal glyph
/// on the two edge rows across the first `i` columns, nothing elsewhere.
proof fn lemma_top_bottom_painted(x: u16, y: u16, h: u16, i: nat, px: u16, py: u16)
    requires
        x + i <= u16::MAX,
        y + h <= u16::MAX,
    ensures
        no_clear(top_bottom_ops(x, y, h, i)),
        painted(top_bottom_ops(x, y, h, i), px, py) == (if x <= px < x + i && (py == y || py == y
            + h) {
            Some(Glyph::Horizontal)
        } else {
            None::<Glyph>
        }),
    decreases i,
{
    if i > 0 {
        let prev = top_bottom_ops(x, y, h, (i - 1) as nat);
        let cx = (x + i - 1) as u16;
        lemma_top_bottom_painted(x, y, h, (i - 1) as nat, px, py);
        lemma_painted_push(prev, cx, y, Glyph::Horizontal, px, py);
        lemma_painted_push(
            prev.push(DrawOp::Put { x: cx, y, glyph: Glyph::Horizontal }),
            cx,
            (y + h) as u16,
            Glyph::Horizontal,
            px,
            py,
        );
    }
}

/// What the vertical-edge commands leave in each cell: the vertical glyph on
/// the two edge columns across the first `j` rows, nothing elsewhere.
proof fn lemma_left_right_painted(x: u16, y: u16, w: u16, j: nat, px: u16, py: u16)
    requires
        x + w <= u16::MAX,
        y + j <= u16::MAX,
    ensures
        no_clear(left_right_ops(x, y, w, j)),
        painted(left_right_ops(x, y, w, j), px, py) == (if (px == x || px == x + w) && y <= py < y
            + j {
            Some(Glyph::Vertical)
        } else {
            None::<Glyph>
        }),
    decreases j,
{
    if j > 0 {
        let prev = left_right_ops(x, y, w, (j - 1) as nat);
        let cy = (y + j - 1) as u16;
        lemma_left_right_painted(x, y, w, (j - 1) as nat, px, py);
        lemma_painted_push(prev, x, cy, Glyph::Vertical, px, py);
        lemma_painted_push(
            prev.push(DrawOp::Put { x, y: cy, glyph: Glyph::Vertical }),
            (x + w) as u16,
            cy,
            Glyph::Vertical,
            px,
            py,
        );
    }
}

/// What one whole rectangle leaves in each cell it touches: four pairwise
/// distinct corner glyphs at the four extreme cells — overwriting the edge
/// glyphs painted there first — and straight-edge glyphs everywhere else
/// along the four sides.
pub proof fn lemma_rect_rendering(x: u16, y: u16, w: u16, h: u16)
    requires
        1 <= w,
        1 <= h,
        x + w <= u16::MAX,
        y + h <= u16::MAX,
    ensures
        painted(rect_ops(x, y, w, h), x, y) == Some(Glyph::TopLeft),
        painted(rect_ops(x, y, w, h), (x + w) as u16, y) == Some(Glyph::TopRight),
        painted(rect_ops(x, y, w, h), x, (y + h) as u16) == Some(Glyph::BottomLeft),
        painted(rect_ops(x, y, w, h), (x + w) as u16, (y + h) as u16) == Some(Glyph::BottomRight),
        forall|px: u16, py: u16|
            x < px < x + w && (py == y || py == y + h) ==> #[trigger] painted(
                rect_ops(x, y, w, h),
                px,
                py,
            ) == Some(Glyph::Horizontal),
        forall|px: u16, py: u16|
            (px == x || px == x + w) && y < py < y + h ==> #[trigger] painted(
                rect_ops(x, y, w, h),
                px,
                py,
            ) == Some(Glyph::Vertical),
        Glyph::TopLeft != Glyph::TopRight && Glyph::TopLeft != Glyph::BottomLeft
            && Glyph::TopLeft != Glyph::BottomRight && Glyph::TopRight != Glyph::BottomLeft
            && Glyph::TopRight != Glyph::BottomRight && Glyph::BottomLeft != Glyph::BottomRight,
{
    let edges = top_bottom_ops(x, y, h, w as nat) + left_right_ops(x, y, w, h as nat);
    let xr = (x + w) as u16;
    let yb = (y + h) as u16;
    let r1 = edges.push(DrawOp::Put { x, y, glyph: Glyph::TopLeft });
    let r2 = r1.push(DrawOp::Put { x: xr, y, glyph: Glyph::TopRight });
    let r3 = r2.push(DrawOp::Put { x, y: yb, glyph: Glyph::BottomLeft });
    let r4 = r3.push(DrawOp::Put { x: xr, y: yb, glyph: Glyph::BottomRight });
    assert(rect_ops(x, y, w, h) == r4);
    assert forall|px: u16, py: u16| true implies painted(r4, px, py) == (if px == x && py == y {
        Some(Glyph::TopLeft)
    } else if px == xr && py == y {
        Some(Glyph::TopRight)
    } else if px == x && py == yb {
        Some(Glyph::BottomLeft)
    } else if px == xr && py == yb {
        Some(Glyph::BottomRight)
    } else if (x <= px < x + w) && (py == y || py == y + h) {
        Some(Glyph::Horizontal)
    } else if (px == x || px == x + w) && y <= py < y + h {
        Some(Glyph::Vertical)
    } else {
        None::<Glyph>
    }) by {
        lemma_top_bottom_painted(x, y, h, w as nat, px, py);
        lemma_left_right_painted(x, y, w, h as nat, px, py);
        lemma_painted_concat(
            top_bottom_ops(x, y, h, w as nat),
            left_right_ops(x, y, w, h as nat),
            px,
            py,
        );
        lemma_painted_push(edges, x, y, Glyph::TopLeft, px, py);
        lemma_painted_push(r1, xr, y, Glyph::TopRight, px, py);
        lemma_painted_push(r2, x, yb, Glyph::BottomLeft, px, py);
        lemma_painted_push(r3, xr, yb, Glyph::BottomRight, px, py);
    }
}

} // verus!
