//! Gamepad input: which family a pad belongs to, which button means what,
//! and the directional repeat driven by the d-pad and the left stick.
//! The caller polls the pad, compares analog values with the dead zone, reads
//! a millisecond clock, and hands each event to [`gamepad_step`].

use vstd::prelude::*;

use crate::input::{DirectionState, UiAction, held_direction, with_direction};
use crate::text::{ascii_lower, chars_of, contains, contains_seq, lower_ascii};

verus! {

pub const DPAD_INITIAL_REPEAT_DELAY: u64 = 280;

pub const DPAD_REPEAT_DELAY: u64 = 110;

pub const STICK_INITIAL_REPEAT_DELAY: u64 = 480;

pub const STICK_REPEAT_DELAY: u64 = 220;

/// The longest delay any direction waits; the clock must leave room for it.
pub const LONGEST_REPEAT_DELAY: u64 = 480;

#[derive(Clone, Copy, Debug, PartialEq, Eq, Structural)]
pub enum GamepadFamily {
    Xbox,
    PlayStation,
    Switch,
    Generic,
}

#[derive(Clone, Copy, Debug, PartialEq, Eq, Structural)]
pub enum InputSource {
    MouseKeyboard,
    Gamepad(GamepadFamily),
}

/// A gamepad button in the standard layout.
#[derive(Clone, Copy, Debug, PartialEq, Eq, Structural)]
pub enum GamepadButton {
    South,
    East,
    North,
    West,
    LeftTrigger,
    LeftTrigger2,
    RightTrigger,
    RightTrigger2,
    Select,
    Start,
    Mode,
    LeftThumb,
    RightThumb,
    DPadUp,
    DPadDown,
    DPadLeft,
    DPadRight,
    Other,
}

/// A gamepad axis.
#[derive(Clone, Copy, Debug, PartialEq, Eq, Structural)]
pub enum GamepadAxis {
    LeftStickX,
    LeftStickY,
    DPadX,
    DPadY,
    Other,
}

/// The family of a pad by its name, in any ASCII case: PlayStation names
/// first, then Nintendo ones, then Xbox ones.
pub open spec fn family_of(name: Seq<char>) -> GamepadFamily {
    let n = ascii_lower(name);
    if contains_seq(n, "dualsense"@) || contains_seq(n, "dualshock"@) || contains_seq(
        n,
        "playstation"@,
    ) || contains_seq(n, "ps4"@) || contains_seq(n, "ps5"@) {
        GamepadFamily::PlayStation
    } else if contains_seq(n, "nintendo"@) || contains_seq(n, "switch"@) || contains_seq(
        n,
        "joy-con"@,
    ) {
        GamepadFamily::Switch
    } else if contains_seq(n, "x-box"@) || contains_seq(n, "xbox"@) || contains_seq(n, "360"@) {
        GamepadFamily::Xbox
    } else {
        GamepadFamily::Generic
    }
}

fn mentions(name: &[char], word: &str) -> (r: bool)
    ensures
        r == contains_seq(name@, word@),
{
    let w = chars_of(word);
    contains(name, &w)
}

pub fn classify_gamepad(name: &str) -> (r: GamepadFamily)
    ensures
        r == family_of(name@),
{
    let chars = chars_of(name);
    let n = lower_ascii(&chars);
    if mentions(&n, "dualsense") || mentions(&n, "dualshock") || mentions(&n, "playstation")
        || mentions(&n, "ps4") || mentions(&n, "ps5") {
        GamepadFamily::PlayStation
    } else if mentions(&n, "nintendo") || mentions(&n, "switch") || mentions(&n, "joy-con") {
        GamepadFamily::Switch
    } else if mentions(&n, "x-box") || mentions(&n, "xbox") || mentions(&n, "360") {
        GamepadFamily::Xbox
    } else {
        GamepadFamily::Generic
    }
}

/// The direction of a d-pad button.
pub open spec fn dpad_direction(button: GamepadButton) -> Option<UiAction> {
    match button {
        GamepadButton::DPadUp => Some(UiAction::Up),
        GamepadButton::DPadDown => Some(UiAction::Down),
        GamepadButton::DPadLeft => Some(UiAction::Left),
        GamepadButton::DPadRight => Some(UiAction::Right),
        _ => None,
    }
}

pub fn dpad_action(button: GamepadButton) -> (r: Option<UiAction>)
    ensures
        r == dpad_direction(button),
{
    match button {
        GamepadButton::DPadUp => Some(UiAction::Up),
        GamepadButton::DPadDown => Some(UiAction::Down),
        GamepadButton::DPadLeft => Some(UiAction::Left),
        GamepadButton::DPadRight => Some(UiAction::Right),
        _ => None,
    }
}

/// The action of a face or start button. Start opens the menu; the bottom
/// button accepts and the right one cancels, swapped on Nintendo pads.
pub open spec fn face_button_action(family: GamepadFamily, button: GamepadButton) -> Option<
    UiAction,
> {
    match button {
        GamepadButton::Start => Some(UiAction::Menu),
        GamepadButton::South => if family == GamepadFamily::Switch {
            Some(UiAction::Cancel)
        } else {
            Some(UiAction::Accept)
        },
        GamepadButton::East => if family == GamepadFamily::Switch {
            Some(UiAction::Accept)
        } else {
            Some(UiAction::Cancel)
        },
        _ => None,
    }
}

/// On every pad the bottom and right face buttons are accept and cancel, one
/// each; Nintendo pads have them the other way round from every other pad.
pub proof fn lemma_face_buttons_swap_on_nintendo(family: GamepadFamily)
    ensures
        (face_button_action(family, GamepadButton::South) == Some(UiAction::Accept)
            && face_button_action(family, GamepadButton::East) == Some(UiAction::Cancel)) || (
        face_button_action(family, GamepadButton::South) == Some(UiAction::Cancel)
            && face_button_action(family, GamepadButton::East) == Some(UiAction::Accept)),
        family != GamepadFamily::Switch ==> face_button_action(
            GamepadFamily::Switch,
            GamepadButton::South,
        ) == face_button_action(family, GamepadButton::East) && face_button_action(
            GamepadFamily::Switch,
            GamepadButton::East,
        ) == face_button_action(family, GamepadButton::South),
{
}

pub fn button_action(family: GamepadFamily, button: GamepadButton) -> (r: Option<UiAction>)
    ensures
        r == face_button_action(family, button),
{
    let switch = match family {
        GamepadFamily::Switch => true,
        _ => false,
    };
    match button {
        GamepadButton::Start => Some(UiAction::Menu),
        GamepadButton::South => if switch {
            Some(UiAction::Cancel)
        } else {
            Some(UiAction::Accept)
        },
        GamepadButton::East => if switch {
            Some(UiAction::Accept)
        } else {
            Some(UiAction::Cancel)
        },
        _ => None,
    }
}

/// An analog button acts only once it is pressed at least halfway; the caller
/// makes that comparison and passes `pressed`.
pub fn button_changed_action(family: GamepadFamily, button: GamepadButton, pressed: bool) -> (r:
    Option<UiAction>)
    ensures
        r == (if pressed {
            face_button_action(family, button)
        } else {
            None
        }),
{
    if !pressed {
        return None;
    }
    button_action(family, button)
}

/// Where a direction comes from; each source repeats at its own pace.
#[derive(Clone, Copy, Debug, PartialEq, Eq, Structural)]
pub enum DirectionSource {
    Dpad,
    Stick,
}

#[derive(Clone, Copy, Debug, PartialEq, Eq, Structural)]
pub struct DirectionalAction {
    pub source: DirectionSource,
    pub action: UiAction,
}

pub open spec fn initial_delay_of(d: DirectionalAction) -> u64 {
    match d.source {
        DirectionSource::Dpad => DPAD_INITIAL_REPEAT_DELAY,
        DirectionSource::Stick => STICK_INITIAL_REPEAT_DELAY,
    }
}

pub open spec fn repeat_delay_of(d: DirectionalAction) -> u64 {
    match d.source {
        DirectionSource::Dpad => DPAD_REPEAT_DELAY,
        DirectionSource::Stick => STICK_REPEAT_DELAY,
    }
}

impl DirectionalAction {
    pub fn action(self) -> (r: UiAction)
        ensures
            r == self.action,
    {
        self.action
    }

    pub fn initial_delay(self) -> (r: u64)
        ensures
            r == initial_delay_of(self),
    {
        match self.source {
            DirectionSource::Dpad => DPAD_INITIAL_REPEAT_DELAY,
            DirectionSource::Stick => STICK_INITIAL_REPEAT_DELAY,
        }
    }

    pub fn repeat_delay(self) -> (r: u64)
        ensures
            r == repeat_delay_of(self),
    {
        match self.source {
            DirectionSource::Dpad => DPAD_REPEAT_DELAY,
            DirectionSource::Stick => STICK_REPEAT_DELAY,
        }
    }
}

/// The direction in force: the d-pad wins over the stick.
pub open spec fn active_of(dpad: DirectionState, stick: Option<UiAction>) -> Option<
    DirectionalAction,
> {
    match held_direction(dpad) {
        Some(a) => Some(DirectionalAction { source: DirectionSource::Dpad, action: a }),
        None => match stick {
            Some(a) => Some(DirectionalAction { source: DirectionSource::Stick, action: a }),
            None => None,
        },
    }
}

pub fn active_direction(dpad: &DirectionState, stick: Option<UiAction>) -> (r: Option<
    DirectionalAction,
>)
    ensures
        r == active_of(*dpad, stick),
{
    match dpad.direction() {
        Some(action) => Some(DirectionalAction { source: DirectionSource::Dpad, action }),
        None => match stick {
            Some(action) => Some(DirectionalAction { source: DirectionSource::Stick, action }),
            None => None,
        },
    }
}

/// The d-pad after a d-pad axis moved: `negative` and `positive` say whether
/// the value passed the dead zone downwards or upwards. Other axes leave it.
pub open spec fn with_dpad_axis(
    dpad: DirectionState,
    axis: GamepadAxis,
    negative: bool,
    positive: bool,
) -> DirectionState {
    match axis {
        GamepadAxis::DPadX => DirectionState { left: negative, right: positive, ..dpad },
        GamepadAxis::DPadY => DirectionState { up: positive, down: negative, ..dpad },
        _ => dpad,
    }
}

pub fn set_dpad_axis(dpad: &mut DirectionState, axis: GamepadAxis, negative: bool, positive: bool)
    ensures
        *final(dpad) == with_dpad_axis(*old(dpad), axis, negative, positive),
{
    match axis {
        GamepadAxis::DPadX => {
            dpad.left = negative;
            dpad.right = positive;
        },
        GamepadAxis::DPadY => {
            dpad.up = positive;
            dpad.down = negative;
        },
        _ => {},
    }
}

/// The gamepad's repeat: like the keyboard's, with delays that depend on
/// where the direction comes from.
pub struct DirectionRepeat {
    direction: Option<DirectionalAction>,
    next_repeat: Option<u64>,
}

pub struct PadRepeatView {
    pub direction: Option<DirectionalAction>,
    pub next_repeat: Option<u64>,
}

impl View for DirectionRepeat {
    type V = PadRepeatView;

    closed spec fn view(&self) -> PadRepeatView {
        PadRepeatView { direction: self.direction, next_repeat: self.next_repeat }
    }
}

/// The state after the direction in force becomes `direction` at `now`, and
/// the action that fires: only a change fires.
pub open spec fn pad_update(s: PadRepeatView, direction: Option<DirectionalAction>, now: u64) -> (
    PadRepeatView,
    Option<UiAction>,
) {
    if s.direction == direction {
        (s, None)
    } else {
        match direction {
            Some(d) => (
                PadRepeatView {
                    direction,
                    next_repeat: Some((now + initial_delay_of(d)) as u64),
                },
                Some(d.action),
            ),
            None => (PadRepeatView { direction, next_repeat: None }, None),
        }
    }
}

/// The state after the clock reads `now`, and the action that fires.
pub open spec fn pad_tick(s: PadRepeatView, now: u64) -> (PadRepeatView, Option<UiAction>) {
    match (s.direction, s.next_repeat) {
        (Some(d), Some(at)) => if now < at {
            (s, None)
        } else {
            (
                PadRepeatView {
                    direction: s.direction,
                    next_repeat: Some((now + repeat_delay_of(d)) as u64),
                },
                Some(d.action),
            )
        },
        _ => (s, None),
    }
}

impl Default for DirectionRepeat {
    fn default() -> (r: DirectionRepeat)
        ensures
            r@.direction is None,
            r@.next_repeat is None,
    {
        DirectionRepeat { direction: None, next_repeat: None }
    }
}

impl DirectionRepeat {
    pub fn update(&mut self, direction: Option<DirectionalAction>, now: u64) -> (r: Option<
        UiAction,
    >)
        requires
            now + LONGEST_REPEAT_DELAY <= u64::MAX,
        ensures
            (final(self)@, r) == pad_update(old(self)@, direction, now),
    {
        let same = match (self.direction, direction) {
            (None, None) => true,
            (Some(a), Some(b)) => a.source == b.source && a.action == b.action,
            _ => false,
        };
        if same {
            return None;
        }
        self.direction = direction;
        match direction {
            Some(d) => {
                self.next_repeat = Some(now + d.initial_delay());
                Some(d.action())
            },
            None => {
                self.next_repeat = None;
                None
            },
        }
    }

    pub fn tick(&mut self, now: u64) -> (r: Option<UiAction>)
        requires
            now + LONGEST_REPEAT_DELAY <= u64::MAX,
        ensures
            (final(self)@, r) == pad_tick(old(self)@, now),
    {
        let direction = match self.direction {
            Some(d) => d,
            None => {
                return None;
            },
        };
        let next_repeat = match self.next_repeat {
            Some(at) => at,
            None => {
                return None;
            },
        };
        if now < next_repeat {
            return None;
        }
        self.next_repeat = Some(now + direction.repeat_delay());
        Some(direction.action())
    }
}

/// Polling reports the direction in force again and again while it is held:
/// an update with the direction already in force changes nothing (in
/// particular not when the next repeat is due) and fires nothing.
pub proof fn lemma_pad_same_direction_keeps_schedule(s: PadRepeatView, now: u64)
    ensures
        pad_update(s, s.direction, now).0 == s,
        pad_update(s, s.direction, now).1 is None,
{
}

/// A held direction keeps repeating however often polling reports it: after
/// a new direction `d` at `start`, any number of updates with `d` leave the
/// state as it was, so the first repeat comes when the initial delay has
/// passed, and fires `d`.
pub proof fn lemma_pad_held_direction_repeats(
    s: PadRepeatView,
    d: DirectionalAction,
    start: u64,
    polls: Seq<u64>,
    later: u64,
)
    requires
        s.direction != Some(d),
        start + LONGEST_REPEAT_DELAY <= u64::MAX,
        later >= start + initial_delay_of(d),
    ensures
        ({
            let first = pad_update(s, Some(d), start);
            let polled = pad_updates(first.0, Some(d), polls);
            &&& first.1 == Some(d.action)
            &&& polled == first.0
            &&& pad_tick(polled, later).1 == Some(d.action)
        }),
    decreases polls.len(),
{
    let first = pad_update(s, Some(d), start);
    lemma_pad_updates_same(first.0, polls);
}

/// The state after updates with `direction` at each of the times `polls`.
pub open spec fn pad_updates(s: PadRepeatView, direction: Option<DirectionalAction>, polls: Seq<u64>) -> PadRepeatView
    decreases polls.len(),
{
    if polls.len() == 0 {
        s
    } else {
        pad_update(pad_updates(s, direction, polls.drop_last()), direction, polls.last()).0
    }
}

proof fn lemma_pad_updates_same(s: PadRepeatView, polls: Seq<u64>)
    ensures
        pad_updates(s, s.direction, polls) == s,
    decreases polls.len(),
{
    if polls.len() > 0 {
        lemma_pad_updates_same(s, polls.drop_last());
        lemma_pad_same_direction_keeps_schedule(s, polls.last());
    }
}

/// What happened on the pad, with analog values already compared with their
/// thresholds by the caller.
#[derive(Clone, Copy, Debug, PartialEq, Eq, Structural)]
pub enum PadEvent {
    ButtonPressed(GamepadButton),
    /// An analog button moved; `pressed` is whether it is at least halfway down.
    ButtonChanged(GamepadButton, bool),
    ButtonReleased(GamepadButton),
    /// An axis moved. `negative` and `positive` say whether it passed the dead
    /// zone either way; `stick` is the left stick's direction afterwards.
    AxisChanged { axis: GamepadAxis, negative: bool, positive: bool, stick: Option<UiAction> },
    Disconnected,
}

/// The pad's held directions and its repeat.
pub struct PadState {
    pub dpad: DirectionState,
    pub stick: Option<UiAction>,
    pub repeat: DirectionRepeat,
}

impl PadState {
    pub fn new() -> (s: PadState)
        ensures
            held_direction(s.dpad) is None,
            s.stick is None,
            s.repeat@.direction is None,
            s.repeat@.next_repeat is None,
    {
        PadState { dpad: DirectionState::new(), stick: None, repeat: DirectionRepeat::default() }
    }
}

/// The d-pad after a button changed to `down`; other buttons leave it.
pub open spec fn dpad_after_button(dpad: DirectionState, button: GamepadButton, down: bool) -> DirectionState {
    match dpad_direction(button) {
        Some(d) => with_direction(dpad, d, down),
        None => dpad,
    }
}

/// One pad event: d-pad buttons and axes move the held direction and feed
/// the repeat (an axis only when the direction in force changed); face and
/// start buttons act at once; a disconnect clears everything.
pub fn gamepad_step(state: &mut PadState, family: GamepadFamily, event: PadEvent, now: u64) -> (r:
    Option<UiAction>)
    requires
        now + LONGEST_REPEAT_DELAY <= u64::MAX,
    ensures
        ({
            let s = *old(state);
            match event {
                PadEvent::ButtonPressed(b) => match dpad_direction(b) {
                    Some(d) => {
                        &&& final(state).dpad == with_direction(s.dpad, d, true)
                        &&& final(state).stick == s.stick
                        &&& (final(state).repeat@, r) == pad_update(
                            s.repeat@,
                            active_of(final(state).dpad, s.stick),
                            now,
                        )
                    },
                    None => {
                        &&& final(state).dpad == s.dpad
                        &&& final(state).stick == s.stick
                        &&& final(state).repeat@ == s.repeat@
                        &&& r == face_button_action(family, b)
                    },
                },
                PadEvent::ButtonChanged(b, pressed) => match dpad_direction(b) {
                    Some(d) => {
                        &&& final(state).dpad == with_direction(s.dpad, d, pressed)
                        &&& final(state).stick == s.stick
                        &&& (final(state).repeat@, r) == pad_update(
                            s.repeat@,
                            active_of(final(state).dpad, s.stick),
                            now,
                        )
                    },
                    None => {
                        &&& final(state).dpad == s.dpad
                        &&& final(state).stick == s.stick
                        &&& final(state).repeat@ == s.repeat@
                        &&& r == (if pressed {
                            face_button_action(family, b)
                        } else {
                            None
                        })
                    },
                },
                PadEvent::ButtonReleased(b) => match dpad_direction(b) {
                    Some(d) => {
                        &&& final(state).dpad == with_direction(s.dpad, d, false)
                        &&& final(state).stick == s.stick
                        &&& (final(state).repeat@, r) == pad_update(
                            s.repeat@,
                            active_of(final(state).dpad, s.stick),
                            now,
                        )
                    },
                    None => {
                        &&& final(state).dpad == s.dpad
                        &&& final(state).stick == s.stick
                        &&& final(state).repeat@ == s.repeat@
                        &&& r is None
                    },
                },
                PadEvent::AxisChanged { axis, negative, positive, stick } => {
                    let dpad = with_dpad_axis(s.dpad, axis, negative, positive);
                    let before = active_of(s.dpad, s.stick);
                    let after = active_of(dpad, stick);
                    &&& final(state).dpad == dpad
                    &&& final(state).stick == stick
                    &&& if after != before {
                        (final(state).repeat@, r) == pad_update(s.repeat@, after, now)
                    } else {
                        final(state).repeat@ == s.repeat@ && r is None
                    }
                },
                PadEvent::Disconnected => {
                    &&& held_direction(final(state).dpad) is None
                    &&& final(state).stick is None
                    &&& final(state).repeat@ == pad_update(s.repeat@, None, now).0
                    &&& r is None
                },
            }
        }),
{
    match event {
        PadEvent::ButtonPressed(b) => match dpad_action(b) {
            Some(d) => {
                state.dpad.set(d, true);
                let active = active_direction(&state.dpad, state.stick);
                state.repeat.update(active, now)
            },
            None => button_action(family, b),
        },
        PadEvent::ButtonChanged(b, pressed) => match dpad_action(b) {
            Some(d) => {
                state.dpad.set(d, pressed);
                let active = active_direction(&state.dpad, state.stick);
                state.repeat.update(active, now)
            },
            None => button_changed_action(family, b, pressed),
        },
        PadEvent::ButtonReleased(b) => match dpad_action(b) {
            Some(d) => {
                state.dpad.set(d, false);
                let active = active_direction(&state.dpad, state.stick);
                state.repeat.update(active, now)
            },
            None => None,
        },
        PadEvent::AxisChanged { axis, negative, positive, stick } => {
            let before = active_direction(&state.dpad, state.stick);
            set_dpad_axis(&mut state.dpad, axis, negative, positive);
            state.stick = stick;
            let after = active_direction(&state.dpad, state.stick);
            let same = match (before, after) {
                (None, None) => true,
                (Some(a), Some(b)) => a.source == b.source && a.action == b.action,
                _ => false,
            };
            if same {
                None
            } else {
                state.repeat.update(after, now)
            }
        },
        PadEvent::Disconnected => {
            let _ = state.repeat.update(None, now);
            state.dpad = DirectionState::new();
            state.stick = None;
            None
        },
    }
}

/// Polling the pad found `dpad` and `stick` held: the state takes them and
/// the repeat follows the direction in force.
pub fn gamepad_reconcile(
    state: &mut PadState,
    dpad: DirectionState,
    stick: Option<UiAction>,
    now: u64,
) -> (r: Option<UiAction>)
    requires
        now + LONGEST_REPEAT_DELAY <= u64::MAX,
    ensures
        final(state).dpad == dpad,
        final(state).stick == stick,
        (final(state).repeat@, r) == pad_update(old(state).repeat@, active_of(dpad, stick), now),
{
    state.dpad = dpad;
    state.stick = stick;
    let active = active_direction(&state.dpad, state.stick);
    state.repeat.update(active, now)
}

} // verus!
