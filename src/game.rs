use vstd::prelude::*;

use crate::frame::{body_ops, push_body_ops, Color, DrawOp, BLOCK};
use crate::snake::{advanced, same_cell, step, Direction, Position, Snake};
use crate::{HEIGHT, WIDTH};

verus! {

/// The game: the snake, the food and the score.
pub struct Game {
    pub snake: Snake,
    pub food: Position,
    pub score: u32,
}

/// What a game holds, as values.
pub struct GameState {
    pub body: Seq<Position>,
    pub direction: Direction,
    pub food: Position,
    pub score: u32,
}

impl View for Game {
    type V = GameState;

    open spec fn view(&self) -> GameState {
        GameState {
            body: self.snake.body@,
            direction: self.snake.direction,
            food: self.food,
            score: self.score,
        }
    }
}

/// The state a game starts in: one segment at the centre of the grid heading
/// right, the food five cells to its right, no score.
pub open spec fn initial() -> GameState {
    GameState {
        body: seq![(WIDTH / 2, HEIGHT / 2)],
        direction: Direction::Right,
        food: ((WIDTH / 2 + 5) as u16, HEIGHT / 2),
        score: 0,
    }
}

/// Whether the next move of the snake lands on the food.
pub open spec fn eats(s: GameState) -> bool {
    step(s.body[0], s.direction) == s.food
}

/// Whether a tick of `s` can count the score up without overflow.
pub open spec fn can_tick(s: GameState) -> bool {
    &&& s.body.len() > 0
    &&& eats(s) ==> s.score < u32::MAX
}

/// Where food lands for two random draws: each draw reduced onto its axis.
pub open spec fn food_from(rx: u16, ry: u16) -> Position {
    ((rx % WIDTH) as u16, (ry % HEIGHT) as u16)
}

/// Whether `p` lies on the grid.
pub open spec fn on_grid(p: Position) -> bool {
    p.0 < WIDTH && p.1 < HEIGHT
}

/// The state after one tick, where `rx` and `ry` are the random draws used
/// if food is eaten. The snake moves; if its new head is on the food, the
/// score goes up by one, the food moves to `food_from(rx, ry)`, and a
/// placeholder segment at (0, 0) is appended to the body. The placeholder
/// turns into visible length only as later moves shift the body.
pub open spec fn tick(s: GameState, rx: u16, ry: u16) -> GameState {
    let moved = advanced(s.body, s.direction);
    if eats(s) {
        GameState {
            body: moved.push((0, 0)),
            direction: s.direction,
            food: food_from(rx, ry),
            score: (s.score + 1) as u32,
        }
    } else {
        GameState { body: moved, ..s }
    }
}

/// The frame that draws `s` from a cleared screen: the score at the top
/// left in white on black, the food as a red block, then every segment.
pub open spec fn frame(s: GameState) -> Seq<DrawOp> {
    seq![
        DrawOp::HideCursor,
        DrawOp::ClearAll,
        DrawOp::Background(Color::Black),
        DrawOp::Foreground(Color::White),
        DrawOp::MoveTo(0, 0),
        DrawOp::Score(s.score),
        DrawOp::MoveTo(s.food.0, s.food.1),
        DrawOp::Foreground(Color::Red),
        DrawOp::Glyph(BLOCK),
    ] + body_ops(s.body)
}

/// A tick on which the snake does not reach the food keeps the body's
/// length, the food and the score.
pub proof fn tick_without_food_keeps_length(s: GameState, rx: u16, ry: u16)
    requires
        s.body.len() > 0,
        !eats(s),
    ensures
        tick(s, rx, ry).body.len() == s.body.len(),
        tick(s, rx, ry).food == s.food,
        tick(s, rx, ry).score == s.score,
{
}

/// A tick on which the snake reaches the food adds one to the score, puts
/// the food at `food_from(rx, ry)`, which is on the grid, and appends one
/// placeholder segment at (0, 0) behind the moved body. If the following
/// tick eats nothing, the body keeps that extra segment: from then on the
/// snake is one segment longer than before it ate.
pub proof fn tick_with_food_grows(s: GameState, rx: u16, ry: u16, rx2: u16, ry2: u16)
    requires
        can_tick(s),
        eats(s),
    ensures
        tick(s, rx, ry).score == s.score + 1,
        tick(s, rx, ry).food == food_from(rx, ry),
        on_grid(tick(s, rx, ry).food),
        tick(s, rx, ry).body.len() == s.body.len() + 1,
        tick(s, rx, ry).body.last() == (0u16, 0u16),
        tick(s, rx, ry).body.drop_last() == advanced(s.body, s.direction),
        !eats(tick(s, rx, ry)) ==> tick(tick(s, rx, ry), rx2, ry2).body.len() == s.body.len() + 1,
{
    assert(tick(s, rx, ry).body.drop_last() =~= advanced(s.body, s.direction));
}

/// Drawing depends on the state alone: equal states give equal frames, and
/// every frame starts by hiding the cursor and clearing the whole screen, so
/// nothing drawn before shows through.
pub proof fn render_is_full_redraw(s1: GameState, s2: GameState)
    requires
        s1 == s2,
    ensures
        frame(s1) == frame(s2),
        frame(s1)[0] == DrawOp::HideCursor,
        frame(s1)[1] == DrawOp::ClearAll,
{
}

/// Relies on rand::random::<u16>: any value of the type may come back.
#[verifier::external_body]
fn random_u16() -> (r: u16) {
    rand::random::<u16>()
}

impl Game {
    /// The snake has a head.
    pub open spec fn wf(&self) -> bool {
        self.snake.wf()
    }

    /// A new game in the state `initial()`.
    pub fn new() -> (r: Game)
        ensures
            r@ == initial(),
            r.wf(),
    {
        Game { snake: Snake::new(), food: (WIDTH / 2 + 5, HEIGHT / 2), score: 0 }
    }

    /// One tick with the given random draws: see `tick`.
    pub fn update_with(&mut self, rx: u16, ry: u16)
        requires
            old(self).wf(),
            can_tick(old(self)@),
        ensures
            final(self)@ == tick(old(self)@, rx, ry),
            final(self).wf(),
    {
        self.snake.update();
        let head = self.snake.body[0];
        if same_cell(head, self.food) {
            self.score = self.score + 1;
            self.food = (rx % WIDTH, ry % HEIGHT);
            self.snake.body.push((0, 0));
        }
        proof {
            assert(self@.body =~= tick(old(self)@, rx, ry).body);
        }
    }

    /// One tick, with fresh random draws for where eaten food reappears.
    /// The snake moves; if it reaches the food, the score goes up by one,
    /// new food is placed somewhere on the grid and a placeholder segment at
    /// (0, 0) is appended.
    pub fn update(&mut self)
        requires
            old(self).wf(),
            can_tick(old(self)@),
        ensures
            exists|rx: u16, ry: u16| final(self)@ == tick(old(self)@, rx, ry),
            final(self)@.body == tick(old(self)@, 0, 0).body,
            final(self)@.direction == old(self)@.direction,
            final(self)@.score == tick(old(self)@, 0, 0).score,
            eats(old(self)@) ==> on_grid(final(self)@.food),
            !eats(old(self)@) ==> final(self)@.food == old(self)@.food,
            final(self).wf(),
    {
        let rx = random_u16();
        let ry = random_u16();
        self.update_with(rx, ry);
        proof {
            assert(final(self)@ == tick(old(self)@, rx, ry));
        }
    }

    /// The frame that draws the game: `frame(self@)`.
    pub fn render(&self) -> (r: Vec<DrawOp>)
        ensures
            r@ == frame(self@),
    {
        let mut out: Vec<DrawOp> = vec![
            DrawOp::HideCursor,
            DrawOp::ClearAll,
            DrawOp::Background(Color::Black),
            DrawOp::Foreground(Color::White),
            DrawOp::MoveTo(0, 0),
            DrawOp::Score(self.score),
            DrawOp::MoveTo(self.food.0, self.food.1),
            DrawOp::Foreground(Color::Red),
            DrawOp::Glyph(BLOCK),
        ];
        push_body_ops(&self.snake.body, &mut out);
        proof {
            assert(out@ =~= frame(self@));
        }
        out
    }
}

} // verus!
