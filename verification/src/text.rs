//! Clock texts: minutes and seconds, each in at least two decimal digits.

use crate::custom_input::{all_digits, decimal_value, is_digit, parse_u32, unsigned_body};
use vstd::prelude::*;
use vstd::string::*;

verus! {

/// `String::push` of the standard library: the character is added at the end
/// of the string and nothing else changes.
pub assume_specification[ String::push ](s: &mut String, ch: char)
    ensures
        final(s)@ == old(s)@.push(ch),
;

/// `String::pop` of the standard library: the last character is taken off
/// and returned; an empty string stays empty and nothing is returned.
pub assume_specification[ String::pop ](s: &mut String) -> (last: Option<char>)
    ensures
        old(s)@.len() == 0 ==> last.is_none() && final(s)@ == old(s)@,
        old(s)@.len() > 0 ==> last == Some(old(s)@.last()) && final(s)@ == old(s)@.drop_last(),
;

/// The decimal digit for a value below ten.
pub open spec fn digit_char(value: nat) -> char {
    if value == 0 {
        '0'
    } else if value == 1 {
        '1'
    } else if value == 2 {
        '2'
    } else if value == 3 {
        '3'
    } else if value == 4 {
        '4'
    } else if value == 5 {
        '5'
    } else if value == 6 {
        '6'
    } else if value == 7 {
        '7'
    } else if value == 8 {
        '8'
    } else {
        '9'
    }
}

/// `n` in decimal, without leading zeros.
pub open spec fn decimal_text(n: nat) -> Seq<char>
    decreases n,
{
    if n < 10 {
        seq![digit_char(n)]
    } else {
        decimal_text(n / 10).push(digit_char(n % 10))
    }
}

/// `n` in decimal, with a leading zero if it is below ten.
pub open spec fn two_digit_text(n: nat) -> Seq<char> {
    if n < 10 {
        seq!['0', digit_char(n)]
    } else {
        decimal_text(n)
    }
}

/// Whole minutes and left-over whole seconds of `millis`, as `MM:SS`.
pub open spec fn clock_text(millis: u64) -> Seq<char> {
    two_digit_text((millis / 1000 / 60) as nat) + seq![':'] + two_digit_text(
        (millis / 1000 % 60) as nat,
    )
}

/// A decimal text has as many characters as the number has digits: at least
/// one, and two or more from ten on.
pub proof fn lemma_decimal_text_len(n: nat)
    ensures
        decimal_text(n).len() >= 1,
        n >= 10 ==> decimal_text(n).len() >= 2,
        n < 10 ==> decimal_text(n).len() == 1,
        10 <= n < 100 ==> decimal_text(n).len() == 2,
    decreases n,
{
    if n >= 10 {
        lemma_decimal_text_len(n / 10);
    }
}

/// A clock text below a hundred minutes is five characters with the colon in
/// the middle.
pub proof fn lemma_clock_text_shape(millis: u64)
    requires
        millis < 6_000_000,
    ensures
        clock_text(millis).len() == 5,
        clock_text(millis)[2] == ':',
{
    lemma_decimal_text_len((millis / 1000 / 60) as nat);
    lemma_decimal_text_len((millis / 1000 % 60) as nat);
}

/// A decimal text is made of digits and writes the number it was made from.
pub proof fn lemma_decimal_text_value(n: nat)
    ensures
        all_digits(decimal_text(n)),
        decimal_value(decimal_text(n)) == n,
    decreases n,
{
    let text = decimal_text(n);
    if n < 10 {
        assert(text.drop_last() =~= Seq::<char>::empty());
        assert(decimal_value(text.drop_last()) == 0);
        assert(is_digit(text[0]));
    } else {
        lemma_decimal_text_value(n / 10);
        assert(text.drop_last() =~= decimal_text(n / 10));
        assert(text.last() == digit_char(n % 10));
        assert forall|i: int| 0 <= i < text.len() implies is_digit(#[trigger] text[i]) by {
            if i < text.len() - 1 {
                assert(text[i] == decimal_text(n / 10)[i]);
            }
        }
    }
}

/// Reading back what was written gives the number: the decimal text of any
/// `u32` parses to that `u32`.
pub proof fn lemma_parse_reads_decimal_text(n: u32)
    ensures
        parse_u32(decimal_text(n as nat)) == Some(n),
{
    lemma_decimal_text_value(n as nat);
    lemma_decimal_text_len(n as nat);
    let text = decimal_text(n as nat);
    assert(is_digit(text[0]));
    assert(unsigned_body(text) == text);
}

/// The character for a value below ten.
fn digit_of(value: u64) -> (c: char)
    requires
        value < 10,
    ensures
        c == digit_char(value as nat),
{
    if value == 0 {
        '0'
    } else if value == 1 {
        '1'
    } else if value == 2 {
        '2'
    } else if value == 3 {
        '3'
    } else if value == 4 {
        '4'
    } else if value == 5 {
        '5'
    } else if value == 6 {
        '6'
    } else if value == 7 {
        '7'
    } else if value == 8 {
        '8'
    } else {
        '9'
    }
}

/// Writes `n` in decimal at the end of `out`.
pub fn push_decimal(out: &mut String, n: u64)
    ensures
        final(out)@ == old(out)@ + decimal_text(n as nat),
    decreases n,
{
    if n >= 10 {
        push_decimal(out, n / 10);
    }
    out.push(digit_of(n % 10));
    assert(out@ =~= old(out)@ + decimal_text(n as nat));
}

/// Writes `n` at the end of `out`, in two digits or more.
pub fn push_two_digits(out: &mut String, n: u64)
    ensures
        final(out)@ == old(out)@ + two_digit_text(n as nat),
{
    if n < 10 {
        out.push('0');
    }
    push_decimal(out, n);
    assert(out@ =~= old(out)@ + two_digit_text(n as nat));
}

/// `duration` milliseconds as minutes and seconds, `MM:SS`.
pub fn format_duration(duration: u64) -> (text: String)
    ensures
        text@ == clock_text(duration),
{
    let total_seconds = duration / 1000;
    let minutes = total_seconds / 60;
    let seconds = total_seconds % 60;
    let mut text = String::new();
    push_two_digits(&mut text, minutes);
    text.push(':');
    push_two_digits(&mut text, seconds);
    assert(text@ =~= clock_text(duration));
    text
}

} // verus!
