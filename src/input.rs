use vstd::prelude::*;

use crate::game::{tick, Game, GameState};
use crate::snake::{step, Direction};

verus! {

/// A key press, as far as the game tells keys apart.
#[derive(PartialEq, Eq, Structural, Clone, Copy, Debug)]
pub enum Key {
    Up,
    Down,
    Left,
    Right,
    Char(char),
    Other,
}

/// Whether the loop goes on after an input.
#[derive(PartialEq, Eq, Structural, Clone, Copy, Debug)]
pub enum Control {
    /// Stop: neither advance nor draw again.
    Quit,
    /// Advance one tick and draw.
    Continue,
}

/// The key that ends the game.
pub const QUIT_KEY: char = 'q';

/// Whether `key` ends the game.
pub open spec fn is_quit(key: Option<Key>) -> bool {
    key == Some(Key::Char(QUIT_KEY))
}

/// The heading an arrow key sets; other keys set none.
pub open spec fn heading_for(key: Key) -> Option<Direction> {
    match key {
        Key::Up => Some(Direction::Up),
        Key::Down => Some(Direction::Down),
        Key::Left => Some(Direction::Left),
        Key::Right => Some(Direction::Right),
        _ => None,
    }
}

/// The state after `key`, or after no key at all when it is `None`: an
/// arrow key sets the heading, whatever it was, reversals included; anything
/// else changes nothing.
pub open spec fn with_input(s: GameState, key: Option<Key>) -> GameState {
    match key {
        Some(k) => match heading_for(k) {
            Some(d) => GameState { direction: d, ..s },
            None => s,
        },
        None => s,
    }
}

/// An arrow key sets the heading that the next move uses, and pressing it
/// again changes nothing more.
pub proof fn heading_change_applies(s: GameState, k: Key, rx: u16, ry: u16)
    requires
        heading_for(k) is Some,
    ensures
        with_input(s, Some(k)).direction == heading_for(k)->0,
        with_input(with_input(s, Some(k)), Some(k)) == with_input(s, Some(k)),
        s.body.len() > 0 ==> tick(with_input(s, Some(k)), rx, ry).body[0] == step(
            s.body[0],
            heading_for(k)->0,
        ),
{
}

impl Game {
    /// Handles what one poll of the keyboard brought (`None`: nothing came in
    /// time). The quit key leaves the game as it is and says `Quit`; every
    /// other input is applied as `with_input` says, and the answer is
    /// `Continue`.
    pub fn apply_input(&mut self, key: Option<Key>) -> (r: Control)
        ensures
            is_quit(key) ==> r == Control::Quit && final(self)@ == old(self)@,
            !is_quit(key) ==> r == Control::Continue && final(self)@ == with_input(old(self)@, key),
            final(self).wf() == old(self).wf(),
    {
        match key {
            Some(Key::Char(c)) => {
                if c == QUIT_KEY {
                    Control::Quit
                } else {
                    Control::Continue
                }
            },
            Some(Key::Up) => {
                self.snake.direction = Direction::Up;
                Control::Continue
            },
            Some(Key::Down) => {
                self.snake.direction = Direction::Down;
                Control::Continue
            },
            Some(Key::Left) => {
                self.snake.direction = Direction::Left;
                Control::Continue
            },
            Some(Key::Right) => {
                self.snake.direction = Direction::Right;
                Control::Continue
            },
            _ => Control::Continue,
        }
    }
}

} // verus!
