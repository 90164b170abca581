//! Navigation actions, the hints shown for them, and the keyboard mapping.

use vstd::prelude::*;

use crate::text::{ascii_lower, ascii_lower_char, chars_of, eq_ignore_ascii_case, eq_ignore_case_seq, str_eq};

verus! {

/// A navigation action of the launcher.
#[derive(Clone, Copy, Debug, PartialEq, Eq, Structural)]
pub enum UiAction {
    Accept,
    Cancel,
    Menu,
    Up,
    Down,
    Left,
    Right,
    PageUp,
    PageDown,
}

/// The name under which the page script knows an action.
pub open spec fn js_action_name(action: UiAction) -> Seq<char> {
    match action {
        UiAction::Accept => "accept"@,
        UiAction::Cancel => "cancel"@,
        UiAction::Menu => "menu"@,
        UiAction::Up => "up"@,
        UiAction::Down => "down"@,
        UiAction::Left => "left"@,
        UiAction::Right => "right"@,
        UiAction::PageUp => "page-up"@,
        UiAction::PageDown => "page-down"@,
    }
}

impl UiAction {
    pub fn as_js_action(self) -> (r: &'static str)
        ensures
            r@ == js_action_name(self),
    {
        match self {
            UiAction::Accept => "accept",
            UiAction::Cancel => "cancel",
            UiAction::Menu => "menu",
            UiAction::Up => "up",
            UiAction::Down => "down",
            UiAction::Left => "left",
            UiAction::Right => "right",
            UiAction::PageUp => "page-up",
            UiAction::PageDown => "page-down",
        }
    }
}

/// What a footer hint shows: the four directions share one hint.
#[derive(Clone, Copy, Debug, PartialEq, Eq, Structural)]
pub enum UiHint {
    Accept,
    Cancel,
    Menu,
    Navigate,
    PageUp,
    PageDown,
}

/// A command that a screen offers besides navigation.
#[derive(Clone, Copy, Debug, PartialEq, Eq, Structural)]
pub enum UiCommand {
    Cancel,
    Menu,
}

/// The hint shown for an action.
pub open spec fn hint_of_action(action: UiAction) -> UiHint {
    match action {
        UiAction::Accept => UiHint::Accept,
        UiAction::Cancel => UiHint::Cancel,
        UiAction::Menu => UiHint::Menu,
        UiAction::Up | UiAction::Down | UiAction::Left | UiAction::Right => UiHint::Navigate,
        UiAction::PageUp => UiHint::PageUp,
        UiAction::PageDown => UiHint::PageDown,
    }
}

/// The hint shown for a command.
pub open spec fn hint_of_command(command: UiCommand) -> UiHint {
    match command {
        UiCommand::Cancel => UiHint::Cancel,
        UiCommand::Menu => UiHint::Menu,
    }
}

impl From<UiCommand> for UiHint {
    fn from(command: UiCommand) -> (r: UiHint) {
        match command {
            UiCommand::Cancel => UiHint::Cancel,
            UiCommand::Menu => UiHint::Menu,
        }
    }
}

impl vstd::std_specs::convert::FromSpecImpl<UiCommand> for UiHint {
    open spec fn obeys_from_spec() -> bool {
        true
    }

    open spec fn from_spec(command: UiCommand) -> UiHint {
        hint_of_command(command)
    }
}

impl From<UiAction> for UiHint {
    fn from(action: UiAction) -> (r: UiHint) {
        match action {
            UiAction::Accept => UiHint::Accept,
            UiAction::Cancel => UiHint::Cancel,
            UiAction::Menu => UiHint::Menu,
            UiAction::Up | UiAction::Down | UiAction::Left | UiAction::Right => UiHint::Navigate,
            UiAction::PageUp => UiHint::PageUp,
            UiAction::PageDown => UiHint::PageDown,
        }
    }
}

impl vstd::std_specs::convert::FromSpecImpl<UiAction> for UiHint {
    open spec fn obeys_from_spec() -> bool {
        true
    }

    open spec fn from_spec(action: UiAction) -> UiHint {
        hint_of_action(action)
    }
}

/// The four arrow directions.
pub open spec fn direction_action(action: UiAction) -> bool {
    action is Up || action is Down || action is Left || action is Right
}

pub fn is_direction_action(action: UiAction) -> (r: bool)
    ensures
        r == direction_action(action),
{
    match action {
        UiAction::Up | UiAction::Down | UiAction::Left | UiAction::Right => true,
        _ => false,
    }
}

/// A key as the launcher distinguishes keys: a named key, or the text of a
/// character key.
#[derive(Clone, Debug, PartialEq, Eq)]
pub enum Key {
    Enter,
    Escape,
    Backspace,
    ArrowUp,
    ArrowDown,
    ArrowLeft,
    ArrowRight,
    PageUp,
    PageDown,
    Character(String),
    Other,
}

/// The action a key stands for: Enter and Space accept, `f` in either case
/// opens the menu, Escape and Backspace cancel, the arrows and page keys
/// navigate; every other key stands for nothing.
pub open spec fn key_action(key: Key) -> Option<UiAction> {
    match key {
        Key::Enter => Some(UiAction::Accept),
        Key::Character(text) => if text@ == " "@ {
            Some(UiAction::Accept)
        } else if eq_ignore_case_seq(text@, "f"@) {
            Some(UiAction::Menu)
        } else {
            None
        },
        Key::Escape | Key::Backspace => Some(UiAction::Cancel),
        Key::ArrowUp => Some(UiAction::Up),
        Key::ArrowDown => Some(UiAction::Down),
        Key::ArrowLeft => Some(UiAction::Left),
        Key::ArrowRight => Some(UiAction::Right),
        Key::PageUp => Some(UiAction::PageUp),
        Key::PageDown => Some(UiAction::PageDown),
        Key::Other => None,
    }
}

pub fn keyboard_action(key: &Key) -> (r: Option<UiAction>)
    ensures
        r == key_action(*key),
{
    match key {
        Key::Enter => Some(UiAction::Accept),
        Key::Character(text) => {
            if str_eq(text.as_str(), " ") {
                Some(UiAction::Accept)
            } else {
                let chars = chars_of(text.as_str());
                let f = chars_of("f");
                if eq_ignore_ascii_case(&chars, &f) {
                    Some(UiAction::Menu)
                } else {
                    None
                }
            }
        },
        Key::Escape | Key::Backspace => Some(UiAction::Cancel),
        Key::ArrowUp => Some(UiAction::Up),
        Key::ArrowDown => Some(UiAction::Down),
        Key::ArrowLeft => Some(UiAction::Left),
        Key::ArrowRight => Some(UiAction::Right),
        Key::PageUp => Some(UiAction::PageUp),
        Key::PageDown => Some(UiAction::PageDown),
        Key::Other => None,
    }
}

/// Which of the four directions are held down.
#[derive(Clone, Copy, Debug, PartialEq, Eq, Structural)]
pub struct DirectionState {
    pub up: bool,
    pub down: bool,
    pub left: bool,
    pub right: bool,
}

/// The held direction that wins: left, then right, then up, then down.
pub open spec fn held_direction(s: DirectionState) -> Option<UiAction> {
    if s.left {
        Some(UiAction::Left)
    } else if s.right {
        Some(UiAction::Right)
    } else if s.up {
        Some(UiAction::Up)
    } else if s.down {
        Some(UiAction::Down)
    } else {
        None
    }
}

/// The state after `action` is pressed or released; other actions change nothing.
pub open spec fn with_direction(s: DirectionState, action: UiAction, pressed: bool) -> DirectionState {
    match action {
        UiAction::Up => DirectionState { up: pressed, ..s },
        UiAction::Down => DirectionState { down: pressed, ..s },
        UiAction::Left => DirectionState { left: pressed, ..s },
        UiAction::Right => DirectionState { right: pressed, ..s },
        _ => s,
    }
}

impl DirectionState {
    /// Nothing held.
    pub fn new() -> (s: DirectionState)
        ensures
            !s.up && !s.down && !s.left && !s.right,
            held_direction(s) is None,
    {
        DirectionState { up: false, down: false, left: false, right: false }
    }

    pub fn set(&mut self, action: UiAction, pressed: bool)
        ensures
            *final(self) == with_direction(*old(self), action, pressed),
    {
        match action {
            UiAction::Up => self.up = pressed,
            UiAction::Down => self.down = pressed,
            UiAction::Left => self.left = pressed,
            UiAction::Right => self.right = pressed,
            _ => {},
        }
    }

    pub fn direction(&self) -> (r: Option<UiAction>)
        ensures
            r == held_direction(*self),
    {
        if self.left {
            Some(UiAction::Left)
        } else if self.right {
            Some(UiAction::Right)
        } else if self.up {
            Some(UiAction::Up)
        } else if self.down {
            Some(UiAction::Down)
        } else {
            None
        }
    }
}

/// A held direction never leaves the four arrows.
pub proof fn lemma_held_direction_is_direction(s: DirectionState)
    ensures
        held_direction(s) matches Some(a) ==> direction_action(a),
{
}

/// Some key stands for the action.
pub open spec fn key_reaches(a: UiAction) -> bool {
    exists|k: Key| key_action(k) == Some(a)
}

/// Every action can be reached from the keyboard, each arrow key gives a
/// different direction, and the keys that give a direction are exactly the
/// arrow keys; every named key stands for some action.
pub proof fn lemma_keyboard_covers_actions()
    ensures
        forall|a: UiAction| a != UiAction::Menu ==> #[trigger] key_reaches(a),
        forall|t: String| t@ == "f"@ || t@ == "F"@ ==> key_action(Key::Character(t)) == Some(
            UiAction::Menu,
        ),
        forall|k: Key|
            !(k is Character) && !(k is Other) ==> #[trigger] key_action(k) is Some,
        forall|k: Key|
            #[trigger] key_action(k) matches Some(a) && direction_action(a) ==> (k is ArrowUp
                || k is ArrowDown || k is ArrowLeft || k is ArrowRight),
        key_action(Key::ArrowUp) != key_action(Key::ArrowDown),
        key_action(Key::ArrowUp) != key_action(Key::ArrowLeft),
        key_action(Key::ArrowUp) != key_action(Key::ArrowRight),
        key_action(Key::ArrowDown) != key_action(Key::ArrowLeft),
        key_action(Key::ArrowDown) != key_action(Key::ArrowRight),
        key_action(Key::ArrowLeft) != key_action(Key::ArrowRight),
        key_action(Key::PageUp) != key_action(Key::PageDown),
        key_action(Key::Enter) != key_action(Key::Escape),
{
    reveal_strlit("f");
    reveal_strlit("F");
    reveal_strlit(" ");
    assert(('F' as u32) + 32 == 'f' as u32);
    assert(ascii_lower_char('F') == 'f');
    assert(ascii_lower("F"@) =~= ascii_lower("f"@));
    assert(" "@ != "f"@) by {
        assert(" "@[0] != "f"@[0]);
    }
    assert(" "@ != "F"@) by {
        assert(" "@[0] != "F"@[0]);
    }
    assert forall|a: UiAction| a != UiAction::Menu implies #[trigger] key_reaches(a) by {
        match a {
            UiAction::Accept => assert(key_action(Key::Enter) == Some(a)),
            UiAction::Cancel => assert(key_action(Key::Escape) == Some(a)),
            UiAction::Menu => {},
            UiAction::Up => assert(key_action(Key::ArrowUp) == Some(a)),
            UiAction::Down => assert(key_action(Key::ArrowDown) == Some(a)),
            UiAction::Left => assert(key_action(Key::ArrowLeft) == Some(a)),
            UiAction::Right => assert(key_action(Key::ArrowRight) == Some(a)),
            UiAction::PageUp => assert(key_action(Key::PageUp) == Some(a)),
            UiAction::PageDown => assert(key_action(Key::PageDown) == Some(a)),
        }
    }
}

/// No direction is in force exactly when none is held, and a direction
/// held alone is the one in force.
pub proof fn lemma_single_held_direction(s: DirectionState)
    ensures
        held_direction(s) is None <==> (!s.up && !s.down && !s.left && !s.right),
        s.up && !s.down && !s.left && !s.right ==> held_direction(s) == Some(UiAction::Up),
        !s.up && s.down && !s.left && !s.right ==> held_direction(s) == Some(UiAction::Down),
        !s.up && !s.down && s.left && !s.right ==> held_direction(s) == Some(UiAction::Left),
        !s.up && !s.down && !s.left && s.right ==> held_direction(s) == Some(UiAction::Right),
        held_direction(s) matches Some(a) ==> (a == UiAction::Up ==> s.up) && (a
            == UiAction::Down ==> s.down) && (a == UiAction::Left ==> s.left) && (a
            == UiAction::Right ==> s.right),
{
}

} // verus!
