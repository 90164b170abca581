//! Key repeat for held arrow keys: a new direction fires at once, then
//! repeats after an initial delay and at a steady rate while it is held.
//! Time is a millisecond clock that the caller reads.

use vstd::prelude::*;

use crate::input::{DirectionState, UiAction, held_direction, with_direction};

verus! {

/// Milliseconds from a new direction to its first repeat.
pub const INPUT_INITIAL_REPEAT_DELAY: u64 = 500;

/// Milliseconds between later repeats.
pub const INPUT_REPEAT_DELAY: u64 = 175;

/// The direction being repeated and when it next fires.
pub struct DirectionRepeat {
    direction: Option<UiAction>,
    next_repeat: Option<u64>,
}

/// The state of a [`DirectionRepeat`] as plain values.
pub struct RepeatView {
    pub direction: Option<UiAction>,
    pub next_repeat: Option<u64>,
}

impl View for DirectionRepeat {
    type V = RepeatView;

    closed spec fn view(&self) -> RepeatView {
        RepeatView { direction: self.direction, next_repeat: self.next_repeat }
    }
}

/// The state after the held direction becomes `direction` at time `now`, and
/// the action that fires then: only a change fires, and only a direction.
pub open spec fn repeat_update(s: RepeatView, direction: Option<UiAction>, now: u64) -> (
    RepeatView,
    Option<UiAction>,
) {
    if s.direction == direction {
        (s, None)
    } else {
        (
            RepeatView {
                direction,
                next_repeat: match direction {
                    Some(_) => Some((now + INPUT_INITIAL_REPEAT_DELAY) as u64),
                    None => None,
                },
            },
            direction,
        )
    }
}

/// The state after the clock reads `now`, and the action that fires then:
/// the held direction, once its time has come, after which the next repeat
/// is scheduled.
pub open spec fn repeat_tick(s: RepeatView, now: u64) -> (RepeatView, Option<UiAction>) {
    match (s.direction, s.next_repeat) {
        (Some(d), Some(at)) => if now < at {
            (s, None)
        } else {
            (
                RepeatView {
                    direction: s.direction,
                    next_repeat: Some((now + INPUT_REPEAT_DELAY) as u64),
                },
                Some(d),
            )
        },
        _ => (s, None),
    }
}

impl Default for DirectionRepeat {
    fn default() -> (r: DirectionRepeat)
        ensures
            r@.direction is None,
            r@.next_repeat is None,
    {
        DirectionRepeat { direction: None, next_repeat: None }
    }
}

impl DirectionRepeat {
    pub fn update(&mut self, direction: Option<UiAction>, now: u64) -> (r: Option<UiAction>)
        requires
            now + INPUT_INITIAL_REPEAT_DELAY <= u64::MAX,
        ensures
            (final(self)@, r) == repeat_update(old(self)@, direction, now),
    {
        let same = match (self.direction, direction) {
            (None, None) => true,
            (Some(a), Some(b)) => a == b,
            _ => false,
        };
        if same {
            return None;
        }
        self.direction = direction;
        self.next_repeat = match direction {
            Some(_) => Some(now + INPUT_INITIAL_REPEAT_DELAY),
            None => None,
        };
        direction
    }

    pub fn tick(&mut self, now: u64) -> (r: Option<UiAction>)
        requires
            now + INPUT_REPEAT_DELAY <= u64::MAX,
        ensures
            (final(self)@, r) == repeat_tick(old(self)@, now),
    {
        let direction = match self.direction {
            Some(d) => d,
            None => {
                return None;
            },
        };
        let next_repeat = match self.next_repeat {
            Some(at) => at,
            None => {
                return None;
            },
        };
        if now < next_repeat {
            return None;
        }
        self.next_repeat = Some(now + INPUT_REPEAT_DELAY);
        Some(direction)
    }
}

/// An update fires the new direction exactly when it differs from the last
/// one given, and the new direction becomes the last one given.
pub proof fn lemma_update_follows_last_direction(s: RepeatView, direction: Option<UiAction>, now: u64)
    ensures
        repeat_update(s, direction, now).1 == (if s.direction == direction {
            None::<UiAction>
        } else {
            direction
        }),
        repeat_update(s, direction, now).0.direction == direction,
{
}

/// An update with the direction already held changes nothing, so the next
/// repeat stays where it was.
pub proof fn lemma_same_direction_keeps_schedule(s: RepeatView, now: u64)
    ensures
        repeat_update(s, s.direction, now).0 == s,
        repeat_update(s, s.direction, now).1 is None,
{
}

/// Holding the same direction again fires nothing.
pub proof fn lemma_same_direction_fires_once(
    s: RepeatView,
    direction: Option<UiAction>,
    now: u64,
    later: u64,
)
    ensures
        repeat_update(repeat_update(s, direction, now).0, direction, later).1 is None,
{
}

/// Once the direction is cleared, no repeat fires until a new direction comes.
pub proof fn lemma_cleared_direction_is_silent(s: RepeatView, now: u64, later: u64)
    ensures
        repeat_tick(repeat_update(s, None, now).0, later).1 is None,
{
}

/// A new direction repeats exactly when the initial delay has passed.
pub proof fn lemma_first_repeat_waits(s: RepeatView, d: UiAction, now: u64, later: u64)
    requires
        s.direction != Some(d),
        now + INPUT_INITIAL_REPEAT_DELAY <= u64::MAX,
    ensures
        repeat_update(s, Some(d), now).1 == Some(d),
        repeat_tick(repeat_update(s, Some(d), now).0, later).1 == (if later
            < now + INPUT_INITIAL_REPEAT_DELAY {
            None::<UiAction>
        } else {
            Some(d)
        }),
{
}

/// After a repeat at `now`, the next one comes exactly when the repeat delay
/// has passed.
pub proof fn lemma_steady_repeat(s: RepeatView, now: u64, later: u64)
    requires
        repeat_tick(s, now).1 is Some,
        now + INPUT_REPEAT_DELAY <= u64::MAX,
    ensures
        repeat_tick(repeat_tick(s, now).0, later).1 == (if later < now + INPUT_REPEAT_DELAY {
            None::<UiAction>
        } else {
            repeat_tick(s, now).1
        }),
{
}

/// An arrow key went down or came up.
#[derive(Clone, Copy, Debug, PartialEq, Eq, Structural)]
pub enum KeyboardRepeatEvent {
    Pressed(UiAction),
    Released(UiAction),
}

/// Records a key event in the held directions and feeds the winning
/// direction to the repeat; returns the action to send, if any.
pub fn handle_keyboard_repeat_event(
    event: KeyboardRepeatEvent,
    directions: &mut DirectionState,
    repeat: &mut DirectionRepeat,
    now: u64,
) -> (r: Option<UiAction>)
    requires
        now + INPUT_INITIAL_REPEAT_DELAY <= u64::MAX,
    ensures
        *final(directions) == (match event {
            KeyboardRepeatEvent::Pressed(a) => with_direction(*old(directions), a, true),
            KeyboardRepeatEvent::Released(a) => with_direction(*old(directions), a, false),
        }),
        (final(repeat)@, r) == repeat_update(old(repeat)@, held_direction(*final(directions)), now),
{
    match event {
        KeyboardRepeatEvent::Pressed(action) => directions.set(action, true),
        KeyboardRepeatEvent::Released(action) => directions.set(action, false),
    }
    let held = directions.direction();
    repeat.update(held, now)
}

} // verus!
