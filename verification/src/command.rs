use vstd::prelude::*;

use crate::direction::Direction;

verus! {

/// A single key press as the game cares about it. The terminal backend
/// reduces whatever raw event it read to one of these plain values; any key
/// the game does not react to arrives as `Other`.
#[derive(Clone, Copy, Debug, PartialEq, Eq, Structural)]
pub enum KeyInput {
    Esc,
    Left,
    Right,
    Up,
    Down,
    Other,
}

/// A discrete player intent: leave the game, or turn the snake.
#[derive(Clone, Copy, Debug, PartialEq, Eq, Structural)]
pub enum Command {
    Quit,
    Turn(Direction),
}

impl Command {
    /// Maps one key press to a command: escape quits, the arrow keys turn,
    /// and every other key means nothing (which is distinct from quitting).
    pub fn from_key_input(key: KeyInput) -> (r: Option<Command>)
        ensures
            r == (match key {
                KeyInput::Esc => Some(Command::Quit),
                KeyInput::Left => Some(Command::Turn(Direction::Left)),
                KeyInput::Right => Some(Command::Turn(Direction::Right)),
                KeyInput::Up => Some(Command::Turn(Direction::Up)),
                KeyInput::Down => Some(Command::Turn(Direction::Down)),
                KeyInput::Other => None,
            }),
    {
        match key {
            KeyInput::Esc => Some(Command::Quit),
            KeyInput::Left => Some(Command::Turn(Direction::Left)),
            KeyInput::Right => Some(Command::Turn(Direction::Right)),
            KeyInput::Up => Some(Command::Turn(Direction::Up)),
            KeyInput::Down => Some(Command::Turn(Direction::Down)),
            KeyInput::Other => None,
        }
    }
}

} // verus!
