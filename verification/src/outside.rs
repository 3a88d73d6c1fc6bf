//! The calls that leave this library: text decoding, regular expressions
//! and the Tokyo calendar. Verus takes the contracts in this
//! file on trust; everything else in the library is proved from them.

use chrono::Datelike;
use chrono::TimeZone;
use chrono::Timelike;
use vstd::prelude::*;

verus! {

/// `String::push` appends one character to the string.
pub assume_specification[ String::push ](s: &mut String, ch: char)
    ensures
        final(s)@ == old(s)@.push(ch),
;

/// The text that `encoding_rs::Encoding::decode` gives for `bytes` when called
/// on `SHIFT_JIS`: the bytes read as Shift_JIS, each malformed sequence replaced
/// by U+FFFD. Where the bytes begin with a byte-order mark of UTF-8 or UTF-16,
/// the mark is dropped and the rest is read in that encoding instead.
pub uninterp spec fn decoded_text(bytes: Seq<u8>) -> Seq<char>;

/// Calls `encoding_rs::SHIFT_JIS.decode` and keeps the text. The call sizes its
/// buffer as a small multiple of the input's length and panics where that
/// overflows, so the length is bounded. The result depends on the bytes alone.
#[verifier::external_body]
pub(crate) fn decode_shift_jis(bytes: &[u8]) -> (r: String)
    requires
        bytes@.len() <= usize::MAX / 16,
    ensures
        r@ == decoded_text(bytes@),
{
    let (text, _, _) = encoding_rs::SHIFT_JIS.decode(bytes);
    text.into_owned()
}

/// What searching a text with a regular expression gave.
#[derive(Clone, Debug, PartialEq, Eq)]
pub enum Captured {
    /// The engine does not accept the pattern.
    Rejected,
    /// The pattern matches nowhere in the text.
    NoMatch,
    /// The leftmost match: its capture groups in the order of their opening
    /// parentheses, group 0 being the whole match. A group that took no part
    /// in the match is `None`.
    Groups(Vec<Option<String>>),
}

/// The mathematical value of a `Captured`.
pub enum CapturedView {
    Rejected,
    NoMatch,
    Groups(Seq<Option<Seq<char>>>),
}

/// The view of an optional string.
pub open spec fn opt_text(s: Option<String>) -> Option<Seq<char>> {
    match s {
        Some(s) => Some(s@),
        None => None,
    }
}

impl View for Captured {
    type V = CapturedView;

    open spec fn view(&self) -> CapturedView {
        match self {
            Captured::Rejected => CapturedView::Rejected,
            Captured::NoMatch => CapturedView::NoMatch,
            Captured::Groups(g) => CapturedView::Groups(g@.map_values(|s: Option<String>| opt_text(s))),
        }
    }
}

/// Whether `regex::Regex::new` accepts `pattern`, that is returns `Ok`: the
/// pattern is well formed and its program is within the default size limit.
pub uninterp spec fn regex_accepts(pattern: Seq<char>) -> bool;

/// What `regex::Regex::captures` gives for `text`, called on the expression
/// that `Regex::new` made of `pattern`: `None` where nothing in the text
/// matches, else the groups of the leftmost match as `Captures::iter` yields
/// them.
pub uninterp spec fn regex_captures(pattern: Seq<char>, text: Seq<char>) -> Option<
    Seq<Option<Seq<char>>>,
>;

/// What searching `text` with `pattern` gives.
pub open spec fn regex_search(pattern: Seq<char>, text: Seq<char>) -> CapturedView {
    if !regex_accepts(pattern) {
        CapturedView::Rejected
    } else {
        match regex_captures(pattern, text) {
            None => CapturedView::NoMatch,
            Some(groups) => CapturedView::Groups(groups),
        }
    }
}

/// Compiles `pattern` with `regex::Regex::new` and searches `text` with
/// `Regex::captures`. Both are functions of their arguments alone, and neither
/// panics: a pattern that does not compile is reported as `Rejected`. Each
/// group is copied out as a string of its own.
#[verifier::external_body]
pub(crate) fn search(pattern: &str, text: &str) -> (r: Captured)
    ensures
        r@ == if !regex_accepts(pattern@) {
            CapturedView::Rejected
        } else {
            match regex_captures(pattern@, text@) {
                None => CapturedView::NoMatch,
                Some(groups) => CapturedView::Groups(groups),
            }
        },
{
    match regex::Regex::new(pattern) {
        Err(_) => Captured::Rejected,
        Ok(re) => match re.captures(text) {
            None => Captured::NoMatch,
            Some(caps) => Captured::Groups(
                caps.iter().map(|m| m.map(|m| m.as_str().to_string())).collect(),
            ),
        },
    }
}

/// A calendar date and a time of day.
#[derive(Clone, Copy, Debug, PartialEq, Eq, Structural)]
pub struct ClockTime {
    pub year: i32,
    pub month: u32,
    pub day: u32,
    pub hour: u32,
    pub minute: u32,
    pub second: u32,
}

/// The date and time in the zone `Asia/Tokyo` at `utc_seconds` seconds after
/// 1970-01-01 00:00:00 UTC, as `chrono` and `chrono_tz` compute it; `None` where
/// `chrono` cannot represent the instant.
pub uninterp spec fn tokyo_time(utc_seconds: int) -> Option<ClockTime>;

/// Builds the instant with `chrono::DateTime::from_timestamp`, moves it to
/// `chrono_tz::Asia::Tokyo` with `TimeZone::from_utc_datetime`, and reads the
/// six fields with the getters of `Datelike` and `Timelike`. Only the first step
/// can fail, and it returns `None` then; the zone's rules are compiled into
/// `chrono_tz`, so the result depends on the argument alone.
#[verifier::external_body]
pub(crate) fn tokyo_clock(utc_seconds: i64) -> (r: Option<ClockTime>)
    ensures
        r == tokyo_time(utc_seconds as int),
{
    let utc = chrono::DateTime::from_timestamp(utc_seconds, 0)?;
    let local = chrono_tz::Asia::Tokyo.from_utc_datetime(&utc.naive_utc());
    Some(ClockTime {
        year: local.year(),
        month: local.month(),
        day: local.day(),
        hour: local.hour(),
        minute: local.minute(),
        second: local.second(),
    })
}

} // verus!
