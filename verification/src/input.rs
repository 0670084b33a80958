//! From a key press to what the browser does next.

use vstd::prelude::*;
use crate::app::{next_cursor, prev_cursor, App};

verus! {

/// The modifier bit that stands for the control key.
pub const CONTROL: u8 = 0b0000_0010;

/// The keys that the browser tells apart.
#[derive(Clone, Copy, Debug, PartialEq, Eq, Structural)]
pub enum Key {
    Char(char),
    Esc,
    Up,
    Down,
    Other,
}

/// A key with the modifier bits that were held with it.
#[derive(Clone, Copy, Debug, PartialEq, Eq, Structural)]
pub struct KeyPress {
    pub key: Key,
    pub modifiers: u8,
}

/// What a key press asks for.
#[derive(Clone, Copy, Debug, PartialEq, Eq, Structural)]
pub enum Command {
    /// Move the cursor one row forward.
    Advance,
    /// Move the cursor one row back.
    Retreat,
    /// Leave the browser.
    Quit,
    /// Nothing.
    Ignore,
}

/// The command of a key press: `q` and escape quit, whatever is held with
/// them; `c` quits with control alone; the arrows move the cursor.
pub open spec fn command_of(press: KeyPress) -> Command {
    match press.key {
        Key::Char(c) => if c == 'q' || (c == 'c' && press.modifiers == CONTROL) {
            Command::Quit
        } else {
            Command::Ignore
        },
        Key::Esc => Command::Quit,
        Key::Down => Command::Advance,
        Key::Up => Command::Retreat,
        Key::Other => Command::Ignore,
    }
}

/// The cursor after a command, in a list of `n` rows.
pub open spec fn cursor_after(command: Command, c: int, n: int) -> int {
    match command {
        Command::Advance => next_cursor(c, n),
        Command::Retreat => prev_cursor(c, n),
        _ => c,
    }
}

/// The command of a key press.
pub fn command_for_key(press: &KeyPress) -> (command: Command)
    ensures
        command == command_of(*press),
{
    match press.key {
        Key::Char(c) => {
            if c == 'q' || (c == 'c' && press.modifiers == CONTROL) {
                Command::Quit
            } else {
                Command::Ignore
            }
        },
        Key::Esc => Command::Quit,
        Key::Down => Command::Advance,
        Key::Up => Command::Retreat,
        Key::Other => Command::Ignore,
    }
}

/// Carries out a command on the browser's state and tells whether the browser
/// goes on: it does after every command but `Quit`.
pub fn apply(app: &mut App, command: Command) -> (go_on: bool)
    requires
        old(app).wf(),
    ensures
        go_on == (command != Command::Quit),
        final(app).entries() == old(app).entries(),
        final(app).cursor() == cursor_after(
            command,
            old(app).cursor(),
            old(app).entries().len() as int,
        ),
        final(app).wf(),
{
    match command {
        Command::Advance => {
            app.next();
            true
        },
        Command::Retreat => {
            app.previous();
            true
        },
        Command::Quit => false,
        Command::Ignore => true,
    }
}

} // verus!
