//! Tokens: how a value is written as one argument of a request line.
//!
//! Every encoder is total. A value outside the range that the server takes
//! is clamped or rounded, never refused.

use crate::raw::{is_plain_char, is_plain_token};
use std::time::Duration;
use vstd::prelude::*;

verus! {

/// `String::push`: the character is appended to the end of the string.
pub assume_specification[ String::push ](text: &mut String, ch: char)
    ensures
        final(text)@ == old(text)@.push(ch),
;

/// `==` on string slices: true when both hold the same characters.
pub assume_specification[ <str as PartialEq>::eq ](left: &str, right: &str) -> (same: bool)
    ensures
        same == (left@ == right@),
;

/// The whole seconds that a duration holds.
pub uninterp spec fn duration_seconds(duration: Duration) -> u64;

/// The part of a duration below one second, in nanoseconds.
pub uninterp spec fn duration_nanos(duration: Duration) -> u32;

/// `Duration::as_secs`: the whole seconds, the part below one second left out.
pub assume_specification[ Duration::as_secs ](duration: &Duration) -> (secs: u64)
    ensures
        secs == duration_seconds(*duration),
;

/// `Duration::subsec_nanos`: the part below one second, in nanoseconds,
/// which is always less than one thousand million.
pub assume_specification[ Duration::subsec_nanos ](duration: &Duration) -> (nanos: u32)
    ensures
        nanos == duration_nanos(*duration),
        nanos < 1_000_000_000,
;

/// The character of a decimal digit.
pub open spec fn digit_char(d: nat) -> char
    recommends
        d < 10,
{
    ((d + 48) as u8) as char
}

/// Whether a character is a decimal digit.
pub open spec fn is_digit(c: char) -> bool {
    '0' <= c <= '9'
}

/// The decimal text of a number: no sign, and no leading zero but for zero
/// itself.
pub open spec fn decimal_text(n: nat) -> Seq<char>
    decreases n,
{
    if n < 10 {
        seq![digit_char(n)]
    } else {
        decimal_text(n / 10).push(digit_char(n % 10))
    }
}

/// The token of a boolean: `1` for true, `0` for false.
pub open spec fn bool_token(b: bool) -> Seq<char> {
    if b {
        seq!['1']
    } else {
        seq!['0']
    }
}

/// The volume that is sent for a requested volume: at most 100.
pub open spec fn clamped_volume(volume: u8) -> u8 {
    if volume <= 100 {
        volume
    } else {
        100
    }
}

/// The token of a volume: the clamped volume in decimal.
pub open spec fn volume_token(volume: u8) -> Seq<char> {
    decimal_text(clamped_volume(volume) as nat)
}

/// The token of a time that the server takes in whole seconds: the part
/// below one second is dropped.
pub open spec fn seconds_token(duration: Duration) -> Seq<char> {
    decimal_text(duration_seconds(duration) as nat)
}

/// A time of `secs` seconds and `nanos` nanoseconds in milliseconds,
/// rounded to the nearest millisecond. Halfway between two milliseconds the
/// even one is taken.
pub open spec fn rounded_millis(secs: nat, nanos: nat) -> nat {
    let below = secs * 1000 + nanos / 1_000_000;
    let rest = nanos % 1_000_000;
    if rest > 500_000 || (rest == 500_000 && below % 2 == 1) {
        below + 1
    } else {
        below
    }
}

/// A number of milliseconds written as seconds with exactly three decimal
/// places: `12500` is `12.500`.
pub open spec fn millis_text(millis: nat) -> Seq<char> {
    decimal_text(millis / 1000).push('.').push(digit_char(millis / 100 % 10)).push(
        digit_char(millis / 10 % 10),
    ).push(digit_char(millis % 10))
}

/// The token of a time of `secs` seconds and `nanos` nanoseconds that the
/// server takes with millisecond precision.
pub open spec fn time_text(secs: nat, nanos: nat) -> Seq<char> {
    millis_text(rounded_millis(secs, nanos))
}

/// The token of a position in a song: seconds with three decimal places.
pub open spec fn time_token(duration: Duration) -> Seq<char> {
    time_text(duration_seconds(duration) as nat, duration_nanos(duration) as nat)
}

/// The token of a step from the current position: the sign, then the time.
pub open spec fn signed_time_token(sign: char, duration: Duration) -> Seq<char> {
    seq![sign] + time_token(duration)
}

/// The decimal text of a number is made of digits, at least one.
pub proof fn lemma_decimal_text_is_digits(n: nat)
    ensures
        decimal_text(n).len() >= 1,
        forall|i: int| 0 <= i < decimal_text(n).len() ==> is_digit(#[trigger] decimal_text(n)[i]),
    decreases n,
{
    if n >= 10 {
        lemma_decimal_text_is_digits(n / 10);
    }
}

/// A time written with millisecond precision ends in a point and exactly
/// three digits, and has digits only in front of the point.
pub proof fn lemma_millis_text_shape(millis: nat)
    ensures
        millis_text(millis).len() == decimal_text(millis / 1000).len() + 4,
        millis_text(millis).subrange(0, millis_text(millis).len() - 4) == decimal_text(
            millis / 1000,
        ),
        millis_text(millis)[millis_text(millis).len() - 4] == '.',
        is_digit(millis_text(millis)[millis_text(millis).len() - 3]),
        is_digit(millis_text(millis)[millis_text(millis).len() - 2]),
        is_digit(millis_text(millis)[millis_text(millis).len() - 1]),
{
    let text = millis_text(millis);
    assert(text.subrange(0, text.len() - 4) =~= decimal_text(millis / 1000));
}

/// Rounding to milliseconds moves a time by half a millisecond at most, and
/// leaves a time of whole milliseconds as it is.
pub proof fn lemma_rounded_millis_is_nearest(secs: nat, nanos: nat)
    ensures
        rounded_millis(secs, nanos) * 1_000_000 - (secs * 1_000_000_000 + nanos) <= 500_000,
        (secs * 1_000_000_000 + nanos) - rounded_millis(secs, nanos) * 1_000_000 <= 500_000,
        nanos % 1_000_000 == 0 ==> rounded_millis(secs, nanos) * 1_000_000 == secs
            * 1_000_000_000 + nanos,
{
}

/// The token of a boolean needs neither quotes nor a backslash.
pub proof fn lemma_bool_token_is_plain(flag: bool)
    ensures
        is_plain_token(bool_token(flag)),
{
}

/// A number in decimal needs neither quotes nor a backslash.
pub proof fn lemma_decimal_text_is_plain(n: nat)
    ensures
        is_plain_token(decimal_text(n)),
{
    lemma_decimal_text_is_digits(n);
}

/// A time with millisecond precision needs neither quotes nor a backslash,
/// with a sign in front of it or without.
pub proof fn lemma_millis_text_is_plain(millis: nat, sign: char)
    requires
        sign == '+' || sign == '-',
    ensures
        is_plain_token(millis_text(millis)),
        is_plain_token(seq![sign] + millis_text(millis)),
{
    lemma_decimal_text_is_digits(millis / 1000);
    lemma_millis_text_shape(millis);
    let text = millis_text(millis);
    assert forall|i: int| 0 <= i < text.len() implies is_plain_char(#[trigger] text[i]) by {
        if i < text.len() - 4 {
            assert(text[i] == decimal_text(millis / 1000)[i]);
        }
    }
}

fn digit(d: u8) -> (c: char)
    requires
        d < 10,
    ensures
        c == digit_char(d as nat),
        is_digit(c),
{
    (d + 48) as char
}

/// Writes a number in decimal.
pub fn decimal(n: u128) -> (text: String)
    ensures
        text@ == decimal_text(n as nat),
    decreases n,
{
    if n < 10 {
        let mut text = String::new();
        text.push(digit(n as u8));
        text
    } else {
        let mut text = decimal(n / 10);
        text.push(digit((n % 10) as u8));
        text
    }
}

/// Writes a volume, clamped to the range that the server takes.
pub fn render_volume(volume: u8) -> (text: String)
    ensures
        text@ == volume_token(volume),
{
    let clamped: u8 = if volume <= 100 {
        volume
    } else {
        100
    };
    decimal(clamped as u128)
}

/// Writes a time in whole seconds.
pub fn render_seconds(duration: Duration) -> (text: String)
    ensures
        text@ == seconds_token(duration),
{
    decimal(duration.as_secs() as u128)
}

/// Rounds a time to milliseconds.
pub fn round_to_millis(secs: u64, nanos: u32) -> (millis: u128)
    ensures
        millis == rounded_millis(secs as nat, nanos as nat),
{
    let below: u128 = (secs as u128) * 1000 + (nanos / 1_000_000) as u128;
    let rest: u32 = nanos % 1_000_000;
    if rest > 500_000 || (rest == 500_000 && below % 2 == 1) {
        below + 1
    } else {
        below
    }
}

/// Writes a time of `secs` seconds and `nanos` nanoseconds as seconds with
/// three decimal places.
pub fn render_time_parts(secs: u64, nanos: u32) -> (text: String)
    ensures
        text@ == time_text(secs as nat, nanos as nat),
{
    let millis = round_to_millis(secs, nanos);
    let mut text = decimal(millis / 1000);
    text.push('.');
    text.push(digit((millis / 100 % 10) as u8));
    text.push(digit((millis / 10 % 10) as u8));
    text.push(digit((millis % 10) as u8));
    text
}

/// Writes a position in a song.
pub fn render_time(duration: Duration) -> (text: String)
    ensures
        text@ == time_token(duration),
{
    render_time_parts(duration.as_secs(), duration.subsec_nanos())
}

/// Writes a step from the current position, with its sign in front.
pub fn render_signed_time(sign: char, duration: Duration) -> (text: String)
    ensures
        text@ == signed_time_token(sign, duration),
{
    let secs = duration.as_secs();
    let nanos = duration.subsec_nanos();
    let millis = round_to_millis(secs, nanos);
    let mut text = String::new();
    text.push(sign);
    let whole = decimal(millis / 1000);
    text.append(whole.as_str());
    text.push('.');
    text.push(digit((millis / 100 % 10) as u8));
    text.push(digit((millis / 10 % 10) as u8));
    text.push(digit((millis % 10) as u8));
    assert(text@ =~= signed_time_token(sign, duration));
    text
}

/// A value that can be written as one argument of a request line.
pub trait Argument: Sized {
    /// The token that stands for this value.
    spec fn token(self) -> Seq<char>;

    /// Writes the value as its token.
    fn render(self) -> (text: String)
        ensures
            text@ == self.token(),
    ;
}

impl Argument for bool {
    open spec fn token(self) -> Seq<char> {
        bool_token(self)
    }

    fn render(self) -> (text: String) {
        proof {
            reveal_strlit("1");
            reveal_strlit("0");
        }
        let text = if self {
            "1"
        } else {
            "0"
        };
        assert(text@ =~= bool_token(self));
        text.to_owned()
    }
}

impl Argument for u8 {
    open spec fn token(self) -> Seq<char> {
        decimal_text(self as nat)
    }

    fn render(self) -> (text: String) {
        decimal(self as u128)
    }
}

} // verus!
