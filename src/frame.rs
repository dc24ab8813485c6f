use vstd::prelude::*;

use crate::snake::Position;

verus! {

/// The glyph drawn for a snake segment and for the food.
pub const BLOCK: char = '\u{25A0}';

/// The colours a frame uses.
#[derive(PartialEq, Eq, Structural, Clone, Copy, Debug)]
pub enum Color {
    Black,
    White,
    Red,
    Green,
}

/// One terminal operation of a frame.
#[derive(PartialEq, Eq, Structural, Clone, Copy, Debug)]
pub enum DrawOp {
    HideCursor,
    ClearAll,
    Background(Color),
    Foreground(Color),
    MoveTo(u16, u16),
    /// The score line: the text `Score: ` followed by the value in decimal.
    Score(u32),
    Glyph(char),
}

/// The operations that draw one segment.
pub open spec fn segment_ops(p: Position) -> Seq<DrawOp> {
    seq![DrawOp::MoveTo(p.0, p.1), DrawOp::Foreground(Color::Green), DrawOp::Glyph(BLOCK)]
}

/// The operations that draw every segment of `body`, in order.
pub open spec fn body_ops(body: Seq<Position>) -> Seq<DrawOp>
    decreases body.len(),
{
    if body.len() == 0 {
        Seq::empty()
    } else {
        body_ops(body.drop_last()) + segment_ops(body.last())
    }
}

/// Appends the operations that draw every segment of `body` to `out`.
pub fn push_body_ops(body: &Vec<Position>, out: &mut Vec<DrawOp>)
    ensures
        final(out)@ == old(out)@ + body_ops(body@),
{
    let mut i: usize = 0;
    while i < body.len()
        invariant
            i <= body@.len(),
            out@ == old(out)@ + body_ops(body@.take(i as int)),
        decreases body@.len() - i,
    {
        let p = body[i];
        out.push(DrawOp::MoveTo(p.0, p.1));
        out.push(DrawOp::Foreground(Color::Green));
        out.push(DrawOp::Glyph(BLOCK));
        proof {
            let next = body@.take(i + 1);
            assert(next.drop_last() =~= body@.take(i as int));
            assert(next.last() == p);
        }
        i = i + 1;
    }
    proof {
        assert(body@.take(i as int) =~= body@);
    }
}

} // verus!
