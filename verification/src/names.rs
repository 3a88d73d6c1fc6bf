//! The name of the file that holds a day's log.

use crate::outside::tokyo_clock;
use crate::outside::tokyo_time;
use crate::outside::ClockTime;
use vstd::prelude::*;

verus! {

/// The character that writes a digit.
pub open spec fn digit_char(d: nat) -> char {
    ('0' as u8 + d) as char
}

/// A number written in decimal, without leading zeros.
pub open spec fn decimal_text(n: nat) -> Seq<char>
    decreases n,
{
    if n < 10 {
        seq![digit_char(n)]
    } else {
        decimal_text(n / 10).push(digit_char(n % 10))
    }
}

/// A number written in decimal with two digits at least.
pub open spec fn two_digits(n: nat) -> Seq<char> {
    if n < 10 {
        seq!['0'] + decimal_text(n)
    } else {
        decimal_text(n)
    }
}

/// A year written in decimal, with a minus sign before a negative one.
pub open spec fn year_text(year: int) -> Seq<char> {
    if year < 0 {
        seq!['-'] + decimal_text((-year) as nat)
    } else {
        decimal_text(year as nat)
    }
}

/// The name of the log of the day on which the clock stands at `day`:
/// `TWChatLog_`, the year, the month and the day, each two joined by `_`, and
/// `.html`.
pub open spec fn file_name_of(day: ClockTime) -> Seq<char> {
    "TWChatLog_"@ + year_text(day.year as int) + seq!['_'] + two_digits(day.month as nat)
        + seq!['_'] + two_digits(day.day as nat) + ".html"@
}

/// Appends a number in decimal to a text.
pub fn push_decimal(out: &mut String, n: u32)
    ensures
        final(out)@ == old(out)@ + decimal_text(n as nat),
    decreases n,
{
    if n >= 10 {
        push_decimal(out, n / 10);
    }
    let d: u8 = (n % 10) as u8;
    out.push((48u8 + d) as char);
    assert('0' as u8 == 48);
    assert(out@ =~= old(out)@ + decimal_text(n as nat));
}

/// Appends a text to a text.
pub fn push_text(out: &mut String, text: &str)
    ensures
        final(out)@ == old(out)@ + text@,
{
    let cs = crate::text::chars_of(text);
    let mut i: usize = 0;
    while i < cs.len()
        invariant
            i <= cs.len(),
            cs@ == text@,
            out@ == old(out)@ + cs@.take(i as int),
        decreases cs.len() - i,
    {
        out.push(cs[i]);
        assert(cs@.take(i + 1) =~= cs@.take(i as int).push(cs@[i as int]));
        assert(out@ =~= old(out)@ + cs@.take(i + 1));
        i += 1;
    }
    assert(cs@.take(cs.len() as int) =~= cs@);
}

/// The name of the log of the day on which the clock stands at `day`.
pub fn file_name(day: ClockTime) -> (r: String)
    ensures
        r@ == file_name_of(day),
{
    let mut out = String::new();
    push_text(&mut out, "TWChatLog_");
    if day.year < 0 {
        out.push('-');
        let year: i64 = day.year as i64;
        push_decimal(&mut out, (-year) as u32);
    } else {
        push_decimal(&mut out, day.year as u32);
    }
    out.push('_');
    if day.month < 10 {
        out.push('0');
    }
    push_decimal(&mut out, day.month);
    out.push('_');
    if day.day < 10 {
        out.push('0');
    }
    push_decimal(&mut out, day.day);
    push_text(&mut out, ".html");
    assert(out@ =~= file_name_of(day));
    out
}

/// The name of the log of the day in Tokyo at the instant `date`, given in
/// seconds since 1970-01-01 00:00:00 UTC; none where the instant is outside
/// the calendar.
pub fn log_file_name(date: i64) -> (r: Option<String>)
    ensures
        crate::outside::opt_text(r) == match tokyo_time(date as int) {
            Some(day) => Some(file_name_of(day)),
            None => None,
        },
{
    match tokyo_clock(date) {
        Some(day) => Some(file_name(day)),
        None => None,
    }
}

} // verus!
