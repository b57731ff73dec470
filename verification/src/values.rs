//! Values: how the text of a field in an answer is read.
//!
//! Each reader takes the text that the server sent for one field and gives
//! the value that it stands for, or nothing where the text is not of the
//! form that the field takes.

use crate::arguments::{bool_token, decimal_text, digit_char, is_digit};
use crate::commands::responses::{PlayState, SingleMode};
use vstd::prelude::*;
use vstd::string::is_ascii_spec_bytes;

verus! {

/// What a token says as a boolean: `1` is true, `0` is false, and nothing
/// else is a boolean.
pub open spec fn bool_of(text: Seq<char>) -> Option<bool> {
    if text == seq!['1'] {
        Some(true)
    } else if text == seq!['0'] {
        Some(false)
    } else {
        None
    }
}

/// Booleans are written as `1` and `0` and as nothing else, and reading is
/// the inverse of writing: what was written is read back, and what is read
/// as a boolean is what that boolean is written as.
pub proof fn lemma_bool_round_trip(flag: bool, text: Seq<char>)
    ensures
        bool_token(flag) == seq!['1'] || bool_token(flag) == seq!['0'],
        bool_of(bool_token(flag)) == Some(flag),
        bool_of(text) == Some(flag) ==> text == bool_token(flag),
{
    assert(seq!['1'][0] != seq!['0'][0]);
}

/// The number that a decimal digit stands for.
pub open spec fn digit_value(c: char) -> nat
    recommends
        is_digit(c),
{
    (c as int - 48) as nat
}

/// The number that a text of decimal digits stands for.
pub open spec fn digits_value(text: Seq<char>) -> nat
    decreases text.len(),
{
    if text.len() == 0 {
        0
    } else {
        digits_value(text.drop_last()) * 10 + digit_value(text.last())
    }
}

/// Whether a text is made of decimal digits, at least one.
pub open spec fn is_digits(text: Seq<char>) -> bool {
    &&& text.len() > 0
    &&& forall|i: int| 0 <= i < text.len() ==> is_digit(#[trigger] text[i])
}

/// What a text says as a number: the value of its digits, if it is made of
/// digits and the value fits in 64 bits.
pub open spec fn number_of(text: Seq<char>) -> Option<u64> {
    if is_digits(text) && digits_value(text) <= u64::MAX {
        Some(digits_value(text) as u64)
    } else {
        None
    }
}

/// What a text says as a play state: `play`, `pause` or `stop`.
pub open spec fn play_state_of(text: Seq<char>) -> Option<PlayState> {
    if text == "play"@ {
        Some(PlayState::Playing)
    } else if text == "pause"@ {
        Some(PlayState::Paused)
    } else if text == "stop"@ {
        Some(PlayState::Stopped)
    } else {
        None
    }
}

/// What a text says as a single mode: `0`, `1` or `oneshot`.
pub open spec fn single_mode_of(text: Seq<char>) -> Option<SingleMode> {
    if text == "0"@ {
        Some(SingleMode::Disabled)
    } else if text == "1"@ {
        Some(SingleMode::Enabled)
    } else if text == "oneshot"@ {
        Some(SingleMode::Oneshot)
    } else {
        None
    }
}

/// The value of a text never falls when the text grows at its end.
proof fn lemma_digits_value_grows(text: Seq<char>, k: int)
    requires
        0 <= k <= text.len(),
    ensures
        digits_value(text.take(k)) <= digits_value(text),
    decreases text.len(),
{
    if k == text.len() {
        assert(text.take(k) =~= text);
    } else {
        assert(text.drop_last().take(k) =~= text.take(k));
        lemma_digits_value_grows(text.drop_last(), k);
    }
}

/// A number that was written in decimal is read back as it was.
pub proof fn lemma_number_round_trip(n: u64)
    ensures
        number_of(decimal_text(n as nat)) == Some(n),
{
    lemma_decimal_text_value(n as nat);
}

/// The decimal text of a number is made of digits and has the number as
/// its value.
pub proof fn lemma_decimal_text_value(n: nat)
    ensures
        is_digits(decimal_text(n)),
        digits_value(decimal_text(n)) == n,
    decreases n,
{
    reveal_with_fuel(digits_value, 2);
    if n < 10 {
        assert(decimal_text(n).drop_last() =~= Seq::<char>::empty());
    } else {
        lemma_decimal_text_value(n / 10);
        assert(decimal_text(n).drop_last() =~= decimal_text(n / 10));
    }
}

/// Reads a boolean.
pub fn parse_bool(text: &str) -> (flag: Option<bool>)
    ensures
        flag == bool_of(text@),
{
    proof {
        reveal_strlit("1");
        reveal_strlit("0");
        assert("1"@ =~= seq!['1']);
        assert("0"@ =~= seq!['0']);
    }
    if *text == *"1" {
        Some(true)
    } else if *text == *"0" {
        Some(false)
    } else {
        None
    }
}

/// Reads a number.
pub fn parse_number(text: &str) -> (number: Option<u64>)
    ensures
        number == number_of(text@),
{
    if !text.is_ascii() {
        return None;
    }
    let bytes = text.as_bytes();
    let n = bytes.len();
    proof {
        is_ascii_spec_bytes(text);
    }
    if n == 0 {
        return None;
    }
    let mut value: u64 = 0;
    let mut i: usize = 0;
    while i < n
        invariant
            i <= n,
            n == text@.len(),
            n == bytes@.len(),
            forall|j: int| 0 <= j < n ==> bytes@[j] == #[trigger] text@[j] as u8,
            forall|j: int| 0 <= j < n ==> '\0' <= #[trigger] text@[j] <= '\u{7f}',
            forall|j: int| 0 <= j < i ==> is_digit(#[trigger] text@[j]),
            value == digits_value(text@.take(i as int)),
        decreases n - i,
    {
        let b = bytes[i];
        assert(b == text@[i as int] as u8);
        if b < 48 || b > 57 {
            assert(!is_digit(text@[i as int]));
            return None;
        }
        let d = (b - 48) as u64;
        proof {
            assert(text@.take(i + 1).drop_last() =~= text@.take(i as int));
            assert(text@.take(i + 1).last() == text@[i as int]);
            assert(digit_value(text@[i as int]) == d);
            assert(digits_value(text@.take(i + 1)) == value * 10 + d);
        }
        if value > (u64::MAX - d) / 10 {
            proof {
                lemma_digits_value_grows(text@, i + 1);
            }
            return None;
        }
        value = value * 10 + d;
        i += 1;
    }
    proof {
        assert(text@.take(n as int) =~= text@);
    }
    Some(value)
}

/// Reads a play state.
pub fn parse_play_state(text: &str) -> (state: Option<PlayState>)
    ensures
        state == play_state_of(text@),
{
    if *text == *"play" {
        Some(PlayState::Playing)
    } else if *text == *"pause" {
        Some(PlayState::Paused)
    } else if *text == *"stop" {
        Some(PlayState::Stopped)
    } else {
        None
    }
}

/// Reads a single mode.
pub fn parse_single_mode(text: &str) -> (mode: Option<SingleMode>)
    ensures
        mode == single_mode_of(text@),
{
    if *text == *"0" {
        Some(SingleMode::Disabled)
    } else if *text == *"1" {
        Some(SingleMode::Enabled)
    } else if *text == *"oneshot" {
        Some(SingleMode::Oneshot)
    } else {
        None
    }
}

} // verus!
