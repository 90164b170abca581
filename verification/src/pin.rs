//! Entering a PIN: up to eight decimal digits, typed on the keypad, the
//! keyboard or a controller.

use vstd::prelude::*;

use crate::text::chars_of;

verus! {

pub const MAX_PIN_DIGITS: usize = 8;

/// The digits entered so far.
pub struct PinEntry {
    digits: Vec<i64>,
}

impl View for PinEntry {
    type V = Seq<i64>;

    closed spec fn view(&self) -> Seq<i64> {
        self.digits@
    }
}

/// A value the keypad can hold: a decimal digit.
pub open spec fn is_digit(d: int) -> bool {
    0 <= d <= 9
}

impl PinEntry {
    /// At most eight digits, each from 0 to 9.
    pub open spec fn wf(&self) -> bool {
        &&& self@.len() <= MAX_PIN_DIGITS
        &&& forall|i: int| 0 <= i < self@.len() ==> is_digit(#[trigger] self@[i] as int)
    }

    pub fn new() -> (p: PinEntry)
        ensures
            p.wf(),
            p@ == Seq::<i64>::empty(),
    {
        PinEntry { digits: Vec::new() }
    }

    pub fn len(&self) -> (n: usize)
        ensures
            n == self@.len(),
    {
        self.digits.len()
    }

    pub fn is_empty(&self) -> (b: bool)
        ensures
            b == (self@.len() == 0),
    {
        self.digits.len() == 0
    }

    /// Appends a digit unless eight are already there.
    pub fn push_digit(&mut self, digit: i64)
        requires
            old(self).wf(),
            is_digit(digit as int),
        ensures
            final(self).wf(),
            old(self)@.len() < MAX_PIN_DIGITS ==> final(self)@ == old(self)@.push(digit),
            old(self)@.len() >= MAX_PIN_DIGITS ==> final(self)@ == old(self)@,
    {
        if self.digits.len() < MAX_PIN_DIGITS {
            self.digits.push(digit);
        }
    }

    /// Removes the last digit, if any.
    pub fn pop(&mut self)
        requires
            old(self).wf(),
        ensures
            final(self).wf(),
            old(self)@.len() > 0 ==> final(self)@ == old(self)@.drop_last(),
            old(self)@.len() == 0 ==> final(self)@ == old(self)@,
    {
        if self.digits.len() > 0 {
            let _ = self.digits.pop();
        }
    }

    pub fn clear(&mut self)
        ensures
            final(self).wf(),
            final(self)@ == Seq::<i64>::empty(),
    {
        self.digits = Vec::new();
    }

    /// The PIN to hand on: none while nothing was entered.
    pub fn submit(&self) -> (r: Option<Vec<i64>>)
        ensures
            self@.len() == 0 ==> r is None,
            self@.len() > 0 ==> (r matches Some(p) && p@ == self@),
    {
        if self.digits.len() == 0 {
            return None;
        }
        let mut out: Vec<i64> = Vec::new();
        let mut i: usize = 0;
        while i < self.digits.len()
            invariant
                i <= self.digits@.len(),
                out@ == self.digits@.subrange(0, i as int),
            decreases self.digits@.len() - i,
        {
            out.push(self.digits[i]);
            i = i + 1;
            assert(out@ =~= self.digits@.subrange(0, i as int));
        }
        assert(out@ =~= self.digits@);
        Some(out)
    }
}

/// The value of a decimal digit character.
pub open spec fn digit_value(c: char) -> Option<i64> {
    if c == '0' {
        Some(0)
    } else if c == '1' {
        Some(1)
    } else if c == '2' {
        Some(2)
    } else if c == '3' {
        Some(3)
    } else if c == '4' {
        Some(4)
    } else if c == '5' {
        Some(5)
    } else if c == '6' {
        Some(6)
    } else if c == '7' {
        Some(7)
    } else if c == '8' {
        Some(8)
    } else if c == '9' {
        Some(9)
    } else {
        None
    }
}

/// The digit a key's text types: only a single decimal digit types one.
pub open spec fn key_digit(text: Seq<char>) -> Option<i64> {
    if text.len() == 1 {
        digit_value(text[0])
    } else {
        None
    }
}

/// A key that types a digit types its own value: the one-character text of a
/// decimal digit `c` gives the digit `c - '0'`, and no other text gives one.
pub proof fn lemma_key_digit_is_its_value(text: Seq<char>)
    ensures
        text.len() == 1 && '0' <= text[0] <= '9' ==> key_digit(text) == Some(
            (text[0] as int - '0' as int) as i64,
        ),
        !(text.len() == 1 && '0' <= text[0] <= '9') ==> key_digit(text) is None,
        key_digit(text) matches Some(d) ==> is_digit(d as int),
{
    if text.len() == 1 {
        let c = text[0];
        assert('0' as int == 48 && '9' as int == 57);
        assert('1' as int == 49 && '2' as int == 50 && '3' as int == 51 && '4' as int == 52);
        assert('5' as int == 53 && '6' as int == 54 && '7' as int == 55 && '8' as int == 56);
    }
}

pub fn digit_of_key(text: &str) -> (r: Option<i64>)
    ensures
        r == key_digit(text@),
        r matches Some(d) ==> is_digit(d as int),
{
    let chars = chars_of(text);
    if chars.len() != 1 {
        return None;
    }
    match chars[0] {
        '0' => Some(0),
        '1' => Some(1),
        '2' => Some(2),
        '3' => Some(3),
        '4' => Some(4),
        '5' => Some(5),
        '6' => Some(6),
        '7' => Some(7),
        '8' => Some(8),
        '9' => Some(9),
        _ => None,
    }
}

} // verus!
