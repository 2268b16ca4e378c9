//! The actions of the dashboard, and the keys that trigger them.
use vstd::prelude::*;

verus! {

/// What the user asks the dashboard to do.
#[derive(Debug, Clone, Copy, PartialEq, Eq, Structural)]
pub enum Action {
    StartFilter,
    Refresh,
    Export,
    Restore,
    MoveUp,
    MoveDown,
    Select,
    Expand,
    Collapse,
    ToggleExpand,
    Attach,
    CreateSession,
    CreateWindow,
    Rename,
    Close,
    Quit,
    CycleFocus,
}

/// A key press, as far as the dashboard tells keys apart.
#[derive(Debug, Clone, Copy, PartialEq, Eq, Structural)]
pub enum Key {
    Esc,
    Enter,
    Backspace,
    Up,
    Down,
    Left,
    Right,
    Tab,
    Char(char),
    Other,
}

/// The action bound to a key, as the help panel lists them: `Esc`, `q` and `Ctrl-c`
/// quit; `Tab` moves the focus; `E` exports, `R` restores; arrows or `hjkl` move,
/// collapse and expand; `Enter` cycles the windows of the selected session; `a`
/// attaches; space toggles; `r` refreshes; `c` (or `s`) creates a session; `w`, `n`,
/// `x` create a window, rename and close.
pub open spec fn key_action(key: Key, control: bool) -> Option<Action> {
    match key {
        Key::Esc => Some(Action::Quit),
        Key::Up => Some(Action::MoveUp),
        Key::Down => Some(Action::MoveDown),
        Key::Left => Some(Action::Collapse),
        Key::Right => Some(Action::Expand),
        Key::Enter => Some(Action::Select),
        Key::Tab => Some(Action::CycleFocus),
        Key::Backspace => None,
        Key::Other => None,
        Key::Char(c) => if c == 'q' || (c == 'c' && control) {
            Some(Action::Quit)
        } else if c == 'E' {
            Some(Action::Export)
        } else if c == 'R' {
            Some(Action::Restore)
        } else if c == 'k' {
            Some(Action::MoveUp)
        } else if c == 'j' {
            Some(Action::MoveDown)
        } else if c == 'h' {
            Some(Action::Collapse)
        } else if c == 'l' {
            Some(Action::Expand)
        } else if c == 'a' {
            Some(Action::Attach)
        } else if c == ' ' {
            Some(Action::ToggleExpand)
        } else if c == 'r' {
            Some(Action::Refresh)
        } else if c == 's' || c == 'c' {
            Some(Action::CreateSession)
        } else if c == 'w' {
            Some(Action::CreateWindow)
        } else if c == 'n' {
            Some(Action::Rename)
        } else if c == 'x' {
            Some(Action::Close)
        } else {
            None
        },
    }
}

/// The action bound to a key, `control` telling whether Ctrl was held.
pub fn action_for_key(key: Key, control: bool) -> (r: Option<Action>)
    ensures
        r == key_action(key, control),
{
    match key {
        Key::Esc => Some(Action::Quit),
        Key::Up => Some(Action::MoveUp),
        Key::Down => Some(Action::MoveDown),
        Key::Left => Some(Action::Collapse),
        Key::Right => Some(Action::Expand),
        Key::Enter => Some(Action::Select),
        Key::Tab => Some(Action::CycleFocus),
        Key::Backspace => None,
        Key::Other => None,
        Key::Char(c) => {
            if c == 'q' || (c == 'c' && control) {
                Some(Action::Quit)
            } else if c == 'E' {
                Some(Action::Export)
            } else if c == 'R' {
                Some(Action::Restore)
            } else if c == 'k' {
                Some(Action::MoveUp)
            } else if c == 'j' {
                Some(Action::MoveDown)
            } else if c == 'h' {
                Some(Action::Collapse)
            } else if c == 'l' {
                Some(Action::Expand)
            } else if c == 'a' {
                Some(Action::Attach)
            } else if c == ' ' {
                Some(Action::ToggleExpand)
            } else if c == 'r' {
                Some(Action::Refresh)
            } else if c == 's' || c == 'c' {
                Some(Action::CreateSession)
            } else if c == 'w' {
                Some(Action::CreateWindow)
            } else if c == 'n' {
                Some(Action::Rename)
            } else if c == 'x' {
                Some(Action::Close)
            } else {
                None
            }
        },
    }
}

} // verus!
