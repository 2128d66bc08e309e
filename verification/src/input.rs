//! Keyboard input as the games see it, and the actions that keys stand for.

use vstd::prelude::*;

verus! {

/// The key that quits, in any state.
pub const QUIT_KEY: char = 'q';

/// The key of a game's primary action.
pub const CONFIRM_KEY: char = ' ';

/// The key that accepts a restart once a game is over.
pub const ACCEPT_KEY: char = 'y';

/// The key that declines a restart once a game is over.
pub const DECLINE_KEY: char = 'n';

/// The key of a key event: a character key, or any other key.
#[derive(Debug, Clone, Copy, PartialEq, Eq, Structural)]
pub enum KeyCode {
    Char(char),
    Other,
}

/// Whether a key went down, is held down, or came up.
#[derive(Debug, Clone, Copy, PartialEq, Eq, Structural)]
pub enum KeyEventKind {
    Press,
    Repeat,
    Release,
}

/// One change of one key.
#[derive(Debug, Clone, Copy, PartialEq, Eq, Structural)]
pub struct KeyEvent {
    pub code: KeyCode,
    pub kind: KeyEventKind,
}

/// An input event: a key event, or anything else the terminal reports
/// (a resize, the mouse, pasted text).
#[derive(Debug, Clone, Copy, PartialEq, Eq, Structural)]
pub enum Event {
    Key(KeyEvent),
    Other,
}

/// What the player asks for.
#[derive(Debug, Clone, Copy, PartialEq, Eq, Structural)]
pub enum Action {
    /// Leave the game.
    Quit,
    /// The game's primary action.
    Confirm,
    /// Play again.
    AcceptRestart,
    /// Do not play again.
    DeclineRestart,
}

/// The action that `event` asks for: only the press of one of the four bound
/// keys asks for anything.
pub open spec fn action_of(event: Event) -> Option<Action> {
    match event {
        Event::Key(KeyEvent { code: KeyCode::Char(c), kind: KeyEventKind::Press }) => {
            if c == QUIT_KEY {
                Some(Action::Quit)
            } else if c == CONFIRM_KEY {
                Some(Action::Confirm)
            } else if c == ACCEPT_KEY {
                Some(Action::AcceptRestart)
            } else if c == DECLINE_KEY {
                Some(Action::DeclineRestart)
            } else {
                None
            }
        },
        _ => None,
    }
}

impl Action {
    /// Reads the action out of an input event.
    pub fn from_event(event: &Event) -> (action: Option<Action>)
        ensures
            action == action_of(*event),
    {
        match event {
            Event::Key(key) => match (key.code, key.kind) {
                (KeyCode::Char(c), KeyEventKind::Press) => {
                    if c == QUIT_KEY {
                        Some(Action::Quit)
                    } else if c == CONFIRM_KEY {
                        Some(Action::Confirm)
                    } else if c == ACCEPT_KEY {
                        Some(Action::AcceptRestart)
                    } else if c == DECLINE_KEY {
                        Some(Action::DeclineRestart)
                    } else {
                        None
                    }
                },
                _ => None,
            },
            Event::Other => None,
        }
    }
}

/// The press of the character key `c`.
pub open spec fn press_of(c: char) -> Event {
    Event::Key(KeyEvent { code: KeyCode::Char(c), kind: KeyEventKind::Press })
}

/// Each action has its key: a press of it asks for the action.
pub proof fn lemma_bound_keys()
    ensures
        action_of(press_of(QUIT_KEY)) == Some(Action::Quit),
        action_of(press_of(CONFIRM_KEY)) == Some(Action::Confirm),
        action_of(press_of(ACCEPT_KEY)) == Some(Action::AcceptRestart),
        action_of(press_of(DECLINE_KEY)) == Some(Action::DeclineRestart),
{
}

/// Input other than the press of a bound key asks for nothing: an event that
/// is no key event, a key that is held or released, a key that is no
/// character, and a character that no action is bound to.
pub proof fn lemma_unbound_input_asks_nothing(event: Event)
    ensures
        event is Other ==> action_of(event) is None,
        event matches Event::Key(key) && key.kind != KeyEventKind::Press ==> action_of(event) is None,
        event matches Event::Key(key) && key.code is Other ==> action_of(event) is None,
        event matches Event::Key(key) && key.code matches KeyCode::Char(c) && c != QUIT_KEY && c
            != CONFIRM_KEY && c != ACCEPT_KEY && c != DECLINE_KEY ==> action_of(event) is None,
{
}

} // verus!
