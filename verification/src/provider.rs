//! What the input provider does with a key press and with an input event:
//! which source becomes current, whether the page keeps the key, and what
//! is sent on.

use vstd::prelude::*;

use crate::gamepad::InputSource;
use crate::input::{Key, UiAction, direction_action, is_direction_action, key_action, keyboard_action};
use crate::repeat::KeyboardRepeatEvent;

verus! {

/// What comes out of an input source.
#[derive(Clone, Copy, Debug, PartialEq, Eq, Structural)]
pub enum InputEvent {
    SourceChanged(InputSource),
    Action { source: InputSource, action: UiAction },
}

/// What to do with a key.
#[derive(Clone, Copy, Debug, PartialEq, Eq, Structural)]
pub struct KeyOutcome {
    /// The key is a navigation key: mouse and keyboard become the source.
    pub keyboard_source: bool,
    /// Keep the browser from acting on the key.
    pub prevent_default: bool,
    /// Hand this to the key repeat.
    pub repeat: Option<KeyboardRepeatEvent>,
    /// Dispatch this action at once.
    pub dispatch: Option<UiAction>,
}

pub open spec fn key_down_outcome(key: Key, auto_repeat: bool) -> KeyOutcome {
    match key_action(key) {
        None => KeyOutcome { keyboard_source: false, prevent_default: false, repeat: None, dispatch: None },
        Some(action) => if action == UiAction::Accept {
            KeyOutcome { keyboard_source: true, prevent_default: false, repeat: None, dispatch: None }
        } else if direction_action(action) {
            KeyOutcome {
                keyboard_source: true,
                prevent_default: true,
                repeat: if auto_repeat {
                    None
                } else {
                    Some(KeyboardRepeatEvent::Pressed(action))
                },
                dispatch: None,
            }
        } else {
            KeyOutcome {
                keyboard_source: true,
                prevent_default: true,
                repeat: None,
                dispatch: Some(action),
            }
        },
    }
}

/// A key went down. Accept is left to the page (it presses the focused
/// control); arrows go to the key repeat, once per press, ignoring the
/// system's own repeats; the other navigation keys dispatch at once.
pub fn key_down(key: &Key, auto_repeat: bool) -> (r: KeyOutcome)
    ensures
        r == key_down_outcome(*key, auto_repeat),
{
    match keyboard_action(key) {
        None => KeyOutcome { keyboard_source: false, prevent_default: false, repeat: None, dispatch: None },
        Some(action) => {
            if action == UiAction::Accept {
                return KeyOutcome {
                    keyboard_source: true,
                    prevent_default: false,
                    repeat: None,
                    dispatch: None,
                };
            }
            if is_direction_action(action) {
                return KeyOutcome {
                    keyboard_source: true,
                    prevent_default: true,
                    repeat: if auto_repeat {
                        None
                    } else {
                        Some(KeyboardRepeatEvent::Pressed(action))
                    },
                    dispatch: None,
                };
            }
            KeyOutcome { keyboard_source: true, prevent_default: true, repeat: None, dispatch: Some(action) }
        },
    }
}

pub open spec fn key_up_outcome(key: Key) -> KeyOutcome {
    match key_action(key) {
        Some(action) => if direction_action(action) {
            KeyOutcome {
                keyboard_source: false,
                prevent_default: true,
                repeat: Some(KeyboardRepeatEvent::Released(action)),
                dispatch: None,
            }
        } else {
            KeyOutcome { keyboard_source: false, prevent_default: false, repeat: None, dispatch: None }
        },
        None => KeyOutcome { keyboard_source: false, prevent_default: false, repeat: None, dispatch: None },
    }
}

/// A key came up: only arrows matter, and they tell the key repeat.
pub fn key_up(key: &Key) -> (r: KeyOutcome)
    ensures
        r == key_up_outcome(*key),
{
    match keyboard_action(key) {
        Some(action) => {
            if is_direction_action(action) {
                KeyOutcome {
                    keyboard_source: false,
                    prevent_default: true,
                    repeat: Some(KeyboardRepeatEvent::Released(action)),
                    dispatch: None,
                }
            } else {
                KeyOutcome { keyboard_source: false, prevent_default: false, repeat: None, dispatch: None }
            }
        },
        None => KeyOutcome { keyboard_source: false, prevent_default: false, repeat: None, dispatch: None },
    }
}

/// What an input event leads to.
#[derive(Clone, Copy, Debug, PartialEq, Eq, Structural)]
pub struct EventOutcome {
    /// The source to show, when it differs from the current one.
    pub source: Option<InputSource>,
    /// A gamepad is in use: put the focus back on something focusable.
    pub recover_focus: bool,
    pub dispatch: Option<UiAction>,
}

pub open spec fn event_outcome(current: InputSource, event: InputEvent) -> EventOutcome {
    let (next, dispatch) = match event {
        InputEvent::SourceChanged(s) => (s, None),
        InputEvent::Action { source, action } => (source, Some(action)),
    };
    EventOutcome {
        source: if next != current {
            Some(next)
        } else {
            None
        },
        recover_focus: next is Gamepad,
        dispatch,
    }
}

/// An event from the keyboard or a gamepad: its source becomes current, a
/// gamepad recovers the focus, and an action is dispatched.
pub fn handle_input_event(current: InputSource, event: InputEvent) -> (r: EventOutcome)
    ensures
        r == event_outcome(current, event),
{
    let (next, dispatch) = match event {
        InputEvent::SourceChanged(s) => (s, None),
        InputEvent::Action { source, action } => (source, Some(action)),
    };
    let changed = next != current;
    let gamepad = match next {
        InputSource::Gamepad(_) => true,
        InputSource::MouseKeyboard => false,
    };
    EventOutcome { source: if changed {
        Some(next)
    } else {
        None
    }, recover_focus: gamepad, dispatch }
}

} // verus!
