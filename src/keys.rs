//! Input events and the per-mode key tables that turn them into actions.
use vstd::prelude::*;
use crate::action::{Action, Mode};

verus! {

/// The key of a key press.
#[derive(Clone, Copy, Debug, PartialEq, Eq, Structural)]
pub enum KeyCode {
    Char(char),
    Left,
    Right,
    Up,
    Down,
    Esc,
    Backspace,
    Other,
}

/// A key press; `ctrl` is set when Control was the only modifier held.
#[derive(Clone, Copy, Debug, PartialEq, Eq, Structural)]
pub struct KeyPress {
    pub code: KeyCode,
    pub ctrl: bool,
}

/// One event from the terminal.
#[derive(Clone, Copy, Debug, PartialEq, Eq, Structural)]
pub enum InputEvent {
    Key(KeyPress),
    /// The terminal now has this many columns and rows.
    Resize(u16, u16),
    Other,
}

/// The Normal-mode key table (no pending first key).
pub open spec fn normal_key_action(k: KeyPress) -> Option<Action> {
    match k.code {
        KeyCode::Char(c) => {
            if c == 'q' {
                Some(Action::Quit)
            } else if c == 'h' {
                Some(Action::MoveLeft)
            } else if c == 'j' {
                Some(Action::MoveDown)
            } else if c == 'k' {
                Some(Action::MoveUp)
            } else if c == 'l' {
                Some(Action::MoveRight)
            } else if c == 'u' {
                Some(Action::Undo)
            } else if c == 'o' {
                Some(Action::InsertLineBelowCursor)
            } else if c == 'G' {
                Some(Action::GoToEndOfBuffer)
            } else if c == 'i' {
                Some(Action::EnterMode(Mode::Insert))
            } else if c == '$' {
                Some(Action::MoveToEndOfLine)
            } else if c == '0' {
                Some(Action::MoveToBeginningOfLine)
            } else if c == 'f' {
                if k.ctrl {
                    Some(Action::PageDown)
                } else {
                    None
                }
            } else if c == 'b' {
                if k.ctrl {
                    Some(Action::PageUp)
                } else {
                    None
                }
            } else if c == 'x' {
                Some(Action::DeleteCharCursorPos)
            } else if c == 'd' || c == 'z' || c == 'g' {
                Some(Action::EnterWaitingMode(c))
            } else {
                None
            }
        },
        KeyCode::Left => Some(Action::MoveLeft),
        KeyCode::Right => Some(Action::MoveRight),
        KeyCode::Up => Some(Action::MoveUp),
        KeyCode::Down => Some(Action::MoveDown),
        _ => None,
    }
}

/// The second key of a two-key command: `dd`, `zz` and `gg`.
pub open spec fn wait_key_action(first: char, ev: InputEvent) -> Option<Action> {
    match ev {
        InputEvent::Key(k) => match k.code {
            KeyCode::Char(c) => {
                if first == 'd' && c == 'd' {
                    Some(Action::DeleteFullLine)
                } else if first == 'z' && c == 'z' {
                    Some(Action::CenterLineToViewport)
                } else if first == 'g' && c == 'g' {
                    Some(Action::GoToStartOfBuffer)
                } else {
                    None
                }
            },
            _ => None,
        },
        _ => None,
    }
}

/// The Insert-mode key table.
pub open spec fn insert_key_action(ev: InputEvent) -> Option<Action> {
    match ev {
        InputEvent::Key(k) => match k.code {
            KeyCode::Esc => Some(Action::EnterMode(Mode::Normal)),
            KeyCode::Backspace => Some(Action::Backspace),
            KeyCode::Char(c) => Some(Action::InsertCharCursorPos(c)),
            _ => None,
        },
        _ => None,
    }
}

/// The action an event stands for, given the mode and the pending first key.
pub open spec fn event_action(mode: Mode, waiting: Option<char>, ev: InputEvent) -> Option<
    Action,
> {
    match mode {
        Mode::Normal => match waiting {
            Some(first) => wait_key_action(first, ev),
            None => match ev {
                InputEvent::Key(k) => normal_key_action(k),
                _ => None,
            },
        },
        Mode::Insert => insert_key_action(ev),
    }
}

/// Normal mode with no pending first key.
pub fn handle_normal_mode(ev: InputEvent) -> (r: Option<Action>)
    ensures
        r == event_action(Mode::Normal, None, ev),
{
    match ev {
        InputEvent::Key(k) => match k.code {
            KeyCode::Char(c) => {
                if c == 'q' {
                    Some(Action::Quit)
                } else if c == 'h' {
                    Some(Action::MoveLeft)
                } else if c == 'j' {
                    Some(Action::MoveDown)
                } else if c == 'k' {
                    Some(Action::MoveUp)
                } else if c == 'l' {
                    Some(Action::MoveRight)
                } else if c == 'u' {
                    Some(Action::Undo)
                } else if c == 'o' {
                    Some(Action::InsertLineBelowCursor)
                } else if c == 'G' {
                    Some(Action::GoToEndOfBuffer)
                } else if c == 'i' {
                    Some(Action::EnterMode(Mode::Insert))
                } else if c == '$' {
                    Some(Action::MoveToEndOfLine)
                } else if c == '0' {
                    Some(Action::MoveToBeginningOfLine)
                } else if c == 'f' {
                    if k.ctrl {
                        Some(Action::PageDown)
                    } else {
                        None
                    }
                } else if c == 'b' {
                    if k.ctrl {
                        Some(Action::PageUp)
                    } else {
                        None
                    }
                } else if c == 'x' {
                    Some(Action::DeleteCharCursorPos)
                } else if c == 'd' || c == 'z' || c == 'g' {
                    Some(Action::EnterWaitingMode(c))
                } else {
                    None
                }
            },
            KeyCode::Left => Some(Action::MoveLeft),
            KeyCode::Right => Some(Action::MoveRight),
            KeyCode::Up => Some(Action::MoveUp),
            KeyCode::Down => Some(Action::MoveDown),
            _ => None,
        },
        _ => None,
    }
}

/// The second key of a two-key command; anything else cancels it.
pub fn handle_wait_event(c: char, ev: InputEvent) -> (r: Option<Action>)
    ensures
        r == wait_key_action(c, ev),
{
    match ev {
        InputEvent::Key(k) => match k.code {
            KeyCode::Char(second) => {
                if c == 'd' && second == 'd' {
                    Some(Action::DeleteFullLine)
                } else if c == 'z' && second == 'z' {
                    Some(Action::CenterLineToViewport)
                } else if c == 'g' && second == 'g' {
                    Some(Action::GoToStartOfBuffer)
                } else {
                    None
                }
            },
            _ => None,
        },
        _ => None,
    }
}

/// Insert mode: characters are typed, Backspace deletes, Escape leaves.
pub fn handle_insert_mode(ev: InputEvent) -> (r: Option<Action>)
    ensures
        r == insert_key_action(ev),
{
    match ev {
        InputEvent::Key(k) => match k.code {
            KeyCode::Esc => Some(Action::EnterMode(Mode::Normal)),
            KeyCode::Backspace => Some(Action::Backspace),
            KeyCode::Char(c) => Some(Action::InsertCharCursorPos(c)),
            _ => None,
        },
        _ => None,
    }
}

} // verus!
