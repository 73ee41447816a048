//! The input router: raw key events become navigation commands.
//!
//! The closed command set is the contract the controller depends on; which
//! keys reach which command is the product decision recorded here. Decoding
//! terminal events into `Key` values is the caller's business.

use vstd::prelude::*;

verus! {

/// A decoded key press, together with whether a control modifier was held.
#[derive(Clone, Copy, Debug, PartialEq, Eq, Structural)]
pub enum Key {
    /// A character key.
    Char(char),
    /// The up arrow.
    Up,
    /// The down arrow.
    Down,
    /// The enter key.
    Enter,
    /// The escape key.
    Esc,
}

/// The closed set of navigation commands.
#[derive(Clone, Copy, Debug, PartialEq, Eq, Structural)]
pub enum Command {
    /// Move the selection up one entry.
    MoveUp,
    /// Move the selection down one entry.
    MoveDown,
    /// Activate the selected entry: descend or open.
    Activate,
    /// Ascend to the parent directory.
    Ascend,
    /// Switch the session flag to flow mode.
    FlowMode,
    /// Switch the session flag to command mode.
    CommandMode,
    /// Leave the browser.
    Quit,
}

/// Which command, if any, a key press maps to: `j`/`k` (either case) and the
/// arrows move the selection, enter activates, escape ascends, and the
/// control combinations quit, activate, or switch the mode.
pub open spec fn spec_route(key: Key, ctrl: bool) -> Option<Command> {
    match key {
        Key::Char(c) => if ctrl {
            if c == 'q' || c == 'Q' {
                Some(Command::Quit)
            } else if c == 'c' {
                Some(Command::CommandMode)
            } else if c == 'f' {
                Some(Command::FlowMode)
            } else if c == 'k' {
                Some(Command::Activate)
            } else {
                None
            }
        } else {
            if c == 'j' || c == 'J' {
                Some(Command::MoveDown)
            } else if c == 'k' || c == 'K' {
                Some(Command::MoveUp)
            } else {
                None
            }
        },
        Key::Up => Some(Command::MoveUp),
        Key::Down => Some(Command::MoveDown),
        Key::Enter => Some(Command::Activate),
        Key::Esc => Some(Command::Ascend),
    }
}

/// Maps one key press to its navigation command, if it has one.
pub fn route(key: Key, ctrl: bool) -> (r: Option<Command>)
    ensures
        r == spec_route(key, ctrl),
{
    match key {
        Key::Char(c) => if ctrl {
            if c == 'q' || c == 'Q' {
                Some(Command::Quit)
            } else if c == 'c' {
                Some(Command::CommandMode)
            } else if c == 'f' {
                Some(Command::FlowMode)
            } else if c == 'k' {
                Some(Command::Activate)
            } else {
                None
            }
        } else {
            if c == 'j' || c == 'J' {
                Some(Command::MoveDown)
            } else if c == 'k' || c == 'K' {
                Some(Command::MoveUp)
            } else {
                None
            }
        },
        Key::Up => Some(Command::MoveUp),
        Key::Down => Some(Command::MoveDown),
        Key::Enter => Some(Command::Activate),
        Key::Esc => Some(Command::Ascend),
    }
}

} // verus!
