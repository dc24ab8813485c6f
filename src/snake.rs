use vstd::prelude::*;

use crate::frame::{body_ops, push_body_ops, DrawOp};
use crate::{HEIGHT, WIDTH};

verus! {

/// A grid cell, as (column, row).
pub type Position = (u16, u16);

/// The heading of the snake.
#[derive(PartialEq, Eq, Structural, Clone, Copy, Debug)]
pub enum Direction {
    Up,
    Down,
    Left,
    Right,
}

/// The coordinate one above `v`, wrapping from the largest `u16` to 0.
pub open spec fn inc(v: u16) -> u16 {
    ((v as int + 1) % 0x1_0000) as u16
}

/// The coordinate one below `v`, wrapping from 0 to the largest `u16`.
pub open spec fn dec(v: u16) -> u16 {
    ((v as int - 1 + 0x1_0000) % 0x1_0000) as u16
}

/// The cell next to `p` in direction `d`. Rows grow downwards. Nothing keeps
/// the result on the grid: at an edge the coordinate wraps around its type.
pub open spec fn step(p: Position, d: Direction) -> Position {
    match d {
        Direction::Up => (p.0, dec(p.1)),
        Direction::Down => (p.0, inc(p.1)),
        Direction::Left => (dec(p.0), p.1),
        Direction::Right => (inc(p.0), p.1),
    }
}

/// The body after one move: a new head next to the old one, the last segment
/// dropped.
pub open spec fn advanced(body: Seq<Position>, d: Direction) -> Seq<Position> {
    seq![step(body[0], d)] + body.drop_last()
}

fn inc_exec(v: u16) -> (r: u16)
    ensures
        r == inc(v),
{
    if v == u16::MAX {
        0
    } else {
        v + 1
    }
}

fn dec_exec(v: u16) -> (r: u16)
    ensures
        r == dec(v),
{
    if v == 0 {
        u16::MAX
    } else {
        v - 1
    }
}

/// The cell next to `p` in direction `d` (see `step`).
pub fn next_cell(p: Position, d: Direction) -> (r: Position)
    ensures
        r == step(p, d),
{
    match d {
        Direction::Up => (p.0, dec_exec(p.1)),
        Direction::Down => (p.0, inc_exec(p.1)),
        Direction::Left => (dec_exec(p.0), p.1),
        Direction::Right => (inc_exec(p.0), p.1),
    }
}

/// Whether `a` and `b` are the same cell.
pub fn same_cell(a: Position, b: Position) -> (r: bool)
    ensures
        r == (a == b),
{
    a.0 == b.0 && a.1 == b.1
}

/// The snake: its segments, head first, and its heading.
pub struct Snake {
    pub body: Vec<Position>,
    pub direction: Direction,
}

impl Snake {
    /// A snake always has a head.
    pub open spec fn wf(&self) -> bool {
        self.body@.len() > 0
    }

    /// The head segment.
    pub open spec fn head(&self) -> Position {
        self.body@[0]
    }

    /// One segment at the centre of the grid, heading right.
    pub fn new() -> (r: Snake)
        ensures
            r.body@ == seq![(WIDTH / 2, HEIGHT / 2)],
            r.direction == Direction::Right,
            r.wf(),
    {
        Snake { body: vec![(WIDTH / 2, HEIGHT / 2)], direction: Direction::Right }
    }

    /// Moves one cell along the heading: the new head goes in front and the
    /// last segment is dropped, so the length stays the same.
    pub fn update(&mut self)
        requires
            old(self).wf(),
        ensures
            final(self).body@ == advanced(old(self).body@, old(self).direction),
            final(self).body@.len() == old(self).body@.len(),
            final(self).direction == old(self).direction,
            final(self).wf(),
    {
        let new_head = next_cell(self.body[0], self.direction);
        self.body.insert(0, new_head);
        self.body.pop();
        proof {
            assert(self.body@ =~= advanced(old(self).body@, old(self).direction));
        }
    }

    /// The operations that draw each segment as a green block at its cell.
    /// Nothing is cleared first.
    pub fn render(&self) -> (r: Vec<DrawOp>)
        ensures
            r@ == body_ops(self.body@),
    {
        let mut out: Vec<DrawOp> = Vec::new();
        push_body_ops(&self.body, &mut out);
        proof {
            assert(out@ =~= body_ops(self.body@));
        }
        out
    }
}

} // verus!
