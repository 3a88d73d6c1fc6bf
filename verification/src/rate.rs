//! The rate of gain: the amounts that the `System` channel reported within
//! the last seconds, as a rate per second, per minute and per hour.

use crate::buffers::seven;
use crate::buffers::ChannelBuffers;
use crate::channel::Channel;
use crate::entry::EntryView;
use crate::entry::LogEntry;
use crate::outside::regex_search;
use crate::outside::search;
use crate::outside::Captured;
use crate::outside::CapturedView;
use crate::outside::ClockTime;
use crate::text::decimal;
use crate::text::parse_decimal;
use vstd::prelude::*;

verus! {

/// The length of the window, in seconds.
pub const WINDOW_SECONDS: i64 = 3;

/// The seconds of a day.
pub const DAY_SECONDS: i64 = 86400;

/// The shape of a message that reports a gain; its group is the amount.
pub const GAIN_PATTERN: &'static str = "経験値が (\\d+) 上がりました。";

/// The shape of an entry's time of day; its groups are the hour, the minute
/// and the second.
pub const CLOCK_PATTERN: &'static str = "\\[\\s?(\\d+)時\\s+(\\d+)分\\s+(\\d+)秒\\]";

/// A time of day as an entry states it.
#[derive(Clone, Copy, Debug, PartialEq, Eq, Structural)]
pub struct TimeOfDay {
    pub hour: u32,
    pub minute: u32,
    pub second: u32,
}

impl TimeOfDay {
    /// The seconds since midnight. A second written as 60, a leap second,
    /// counts as the 59th.
    pub open spec fn seconds(self) -> int {
        self.hour * 3600 + self.minute * 60 + if self.second > 59 {
            59
        } else {
            self.second as int
        }
    }
}

/// The seconds since midnight at which a clock stands.
pub open spec fn clock_seconds(now: ClockTime) -> int {
    now.hour * 3600 + now.minute * 60 + now.second
}

/// What one entry means to the sum.
#[derive(Clone, Copy, Debug, PartialEq, Eq, Structural)]
pub enum Reading {
    /// The entry reports no gain, or states no time: it is passed over.
    Skip,
    /// The entry is older than the window: it and all before it stay out.
    Stop,
    /// The entry reports a gain, but its time or its amount cannot be read.
    Broken,
    /// The entry reports this gain within the window.
    Gain(i64),
}

/// The text of the one group of a match with a pattern of one group.
pub open spec fn one_group(found: CapturedView) -> Option<Seq<char>> {
    match found {
        CapturedView::Groups(g) => if g.len() == 2 {
            g[1]
        } else {
            None
        },
        _ => None,
    }
}

/// The texts of the three groups of a match with a pattern of three groups.
pub open spec fn three_groups(found: CapturedView) -> Option<(Seq<char>, Seq<char>, Seq<char>)> {
    match found {
        CapturedView::Groups(g) => if g.len() == 4 && g[1] is Some && g[2] is Some
            && g[3] is Some {
            Some((g[1]->0, g[2]->0, g[3]->0))
        } else {
            None
        },
        _ => None,
    }
}

/// A field of a time of day: one or two decimal digits that write no more
/// than `max`.
pub open spec fn clock_field(text: Seq<char>, max: nat) -> Option<nat> {
    match decimal(text) {
        Some(v) => if text.len() <= 2 && v <= max {
            Some(v)
        } else {
            None
        },
        None => None,
    }
}

/// The time of day that three texts state: an hour up to 23, a minute up to
/// 59 and a second up to 60.
pub open spec fn stated_time(hour: Seq<char>, minute: Seq<char>, second: Seq<char>) -> Option<
    TimeOfDay,
> {
    match (clock_field(hour, 23), clock_field(minute, 59), clock_field(second, 60)) {
        (Some(h), Some(m), Some(s)) => Some(
            TimeOfDay { hour: h as u32, minute: m as u32, second: s as u32 },
        ),
        _ => None,
    }
}

/// Whether an entry written at `at` lies within the window that ends at
/// `now` seconds after midnight. The entry is taken to be of today; but where
/// the window began before midnight, an entry of the hour 23 is taken to be
/// of yesterday. The window's first second belongs to it.
pub open spec fn in_window(now: int, at: TimeOfDay) -> bool {
    let since_midnight = if now < WINDOW_SECONDS && at.hour == 23 {
        at.seconds() - DAY_SECONDS
    } else {
        at.seconds()
    };
    now - WINDOW_SECONDS <= since_midnight
}

/// What an entry that reports the gain `amount` means to the sum, given what
/// the search of its time with `CLOCK_PATTERN` found.
pub open spec fn timed_reading(amount: Seq<char>, clock: CapturedView, now: int) -> Reading {
    match three_groups(clock) {
        None => Reading::Skip,
        Some(t) => match stated_time(t.0, t.1, t.2) {
            None => Reading::Broken,
            Some(at) => if in_window(now, at) {
                match decimal(amount) {
                    Some(v) => if v <= i64::MAX {
                        Reading::Gain(v as i64)
                    } else {
                        Reading::Broken
                    },
                    None => Reading::Broken,
                }
            } else {
                Reading::Stop
            },
        },
    }
}

/// What an entry means to the sum at `now` seconds after midnight.
pub open spec fn reading(entry: EntryView, now: int) -> Reading {
    match one_group(regex_search(GAIN_PATTERN@, entry.message)) {
        None => Reading::Skip,
        Some(amount) => timed_reading(amount, regex_search(CLOCK_PATTERN@, entry.timestamp), now),
    }
}

/// The sum of the gains within the window, walking back from the newest
/// entry: entries that report no gain are passed over, the first entry older
/// than the window ends the walk, and an entry that cannot be read on the way
/// leaves no sum.
pub open spec fn window_total(entries: Seq<EntryView>, now: int) -> Option<int>
    decreases entries.len(),
{
    if entries.len() == 0 {
        Some(0)
    } else {
        match reading(entries.last(), now) {
            Reading::Skip => window_total(entries.drop_last(), now),
            Reading::Stop => Some(0),
            Reading::Broken => None,
            Reading::Gain(v) => match window_total(entries.drop_last(), now) {
                Some(t) => Some(t + v),
                None => None,
            },
        }
    }
}

/// The rates that a sum over the window gives: per second the sum divided by
/// the window's length, rounded down; per minute 60 times that; per hour 60
/// times that again. No rates where the hourly one does not fit 64 bits.
pub open spec fn rates_of(total: int) -> Option<(i64, i64, i64)> {
    let per_second = total / (WINDOW_SECONDS as int);
    if 0 <= total && per_second * 3600 <= i64::MAX {
        Some((per_second as i64, (per_second * 60) as i64, (per_second * 3600) as i64))
    } else {
        None
    }
}

/// The text of the one group in what a search found.
pub fn group_of(found: &Captured) -> (r: Option<String>)
    ensures
        crate::outside::opt_text(r) == one_group(found@),
{
    match found {
        Captured::Groups(g) => {
            if g.len() != 2 {
                return None;
            }
            match &g[1] {
                Some(s) => Some(s.clone()),
                None => None,
            }
        },
        _ => None,
    }
}

/// Reads one field of a time of day.
pub fn read_clock_field(text: &str, max: u32) -> (r: Option<u32>)
    ensures
        match r {
            Some(v) => clock_field(text@, max as nat) == Some(v as nat),
            None => clock_field(text@, max as nat) is None,
        },
{
    if text.unicode_len() > 2 {
        return None;
    }
    match parse_decimal(text) {
        Some(v) => if v <= max as u64 {
            Some(v as u32)
        } else {
            None
        },
        None => None,
    }
}

/// Reads the time of day that three texts state.
pub fn read_time(hour: &str, minute: &str, second: &str) -> (r: Option<TimeOfDay>)
    ensures
        r == stated_time(hour@, minute@, second@),
{
    let h: u32 = match read_clock_field(hour, 23) {
        Some(h) => h,
        None => {
            return None;
        },
    };
    let m: u32 = match read_clock_field(minute, 59) {
        Some(m) => m,
        None => {
            return None;
        },
    };
    let s: u32 = match read_clock_field(second, 60) {
        Some(s) => s,
        None => {
            return None;
        },
    };
    Some(TimeOfDay { hour: h, minute: m, second: s })
}

/// Tests whether an entry written at `at` lies within the window that ends at
/// `now` seconds after midnight.
pub fn within_window(now: i64, at: TimeOfDay) -> (r: bool)
    ensures
        r == in_window(now as int, at),
{
    let second: i64 = if at.second > 59 {
        59
    } else {
        at.second as i64
    };
    let seconds: i64 = at.hour as i64 * 3600 + at.minute as i64 * 60 + second;
    let since_midnight: i64 = if now < WINDOW_SECONDS && at.hour == 23 {
        seconds - DAY_SECONDS
    } else {
        seconds
    };
    now <= since_midnight + WINDOW_SECONDS
}

/// Reads what an entry that reports the gain `amount` means to the sum, from
/// what the search of its time with `CLOCK_PATTERN` found.
pub fn read_timed(amount: &str, clock: &Captured, now: i64) -> (r: Reading)
    ensures
        r == timed_reading(amount@, clock@, now as int),
        r matches Reading::Gain(v) ==> v >= 0,
{
    let at: TimeOfDay = match clock {
        Captured::Groups(g) => {
            if g.len() != 4 {
                return Reading::Skip;
            }
            match (&g[1], &g[2], &g[3]) {
                (Some(h), Some(m), Some(s)) => match read_time(
                    h.as_str(),
                    m.as_str(),
                    s.as_str(),
                ) {
                    Some(at) => at,
                    None => {
                        return Reading::Broken;
                    },
                },
                _ => {
                    return Reading::Skip;
                },
            }
        },
        _ => {
            return Reading::Skip;
        },
    };
    if !within_window(now, at) {
        return Reading::Stop;
    }
    match parse_decimal(amount) {
        Some(v) => if v <= 0x7fff_ffff_ffff_ffff {
            Reading::Gain(v as i64)
        } else {
            Reading::Broken
        },
        None => Reading::Broken,
    }
}

/// Reads what an entry means to the sum at `now` seconds after midnight.
pub fn read_entry(entry: &LogEntry, now: i64) -> (r: Reading)
    ensures
        r == reading(entry@, now as int),
        r matches Reading::Gain(v) ==> v >= 0,
{
    let found = search(GAIN_PATTERN, entry.message.as_str());
    match group_of(&found) {
        None => Reading::Skip,
        Some(amount) => {
            let clock = search(CLOCK_PATTERN, entry.timestamp.as_str());
            read_timed(amount.as_str(), &clock, now)
        },
    }
}

/// A sum over the window is never negative.
pub proof fn lemma_total_nonnegative(entries: Seq<EntryView>, now: int)
    ensures
        window_total(entries, now) matches Some(t) ==> t >= 0,
    decreases entries.len(),
{
    if entries.len() > 0 {
        lemma_total_nonnegative(entries.drop_last(), now);
    }
}

/// The sum of the gains that the `System` channel reports within the window
/// that ends at `now` seconds after midnight; `None` where an entry on the way
/// cannot be read or the sum does not fit 64 bits.
pub fn window_sum(buffers: &ChannelBuffers, now: i64) -> (r: Option<i64>)
    ensures
        seven(buffers@),
        r == match window_total(buffers@[Channel::System.slot()].0, now as int) {
            Some(t) => if t <= i64::MAX {
                Some(t as i64)
            } else {
                None
            },
            None => None,
        },
{
    let n: usize = buffers.len(Channel::System);
    let ghost all = buffers@[Channel::System.slot()].0;
    let mut acc: i64 = 0;
    let mut i: usize = n;
    proof {
        assert(all.take(n as int) =~= all);
    }
    while i > 0
        invariant
            i <= n,
            n == all.len(),
            seven(buffers@),
            all == buffers@[Channel::System.slot()].0,
            acc >= 0,
            window_total(all, now as int) == match window_total(all.take(i as int), now as int) {
                Some(t) => Some(t + acc),
                None => None,
            },
        decreases i,
    {
        proof {
            assert(all.take(i as int).drop_last() =~= all.take(i - 1));
            assert(all.take(i as int).last() == all[i - 1]);
            lemma_total_nonnegative(all.take(i - 1), now as int);
        }
        match read_entry(buffers.entry(Channel::System, i - 1), now) {
            Reading::Skip => {},
            Reading::Stop => {
                return Some(acc);
            },
            Reading::Broken => {
                return None;
            },
            Reading::Gain(v) => {
                if acc > 0x7fff_ffff_ffff_ffff - v {
                    return None;
                }
                acc = acc + v;
            },
        }
        i -= 1;
    }
    proof {
        assert(all.take(0) =~= Seq::<EntryView>::empty());
    }
    Some(acc)
}

/// Turns a sum over the window into the three rates.
pub fn rates(total: i64) -> (r: Option<(i64, i64, i64)>)
    ensures
        r == rates_of(total as int),
{
    if total < 0 {
        return None;
    }
    let per_second: i64 = total / WINDOW_SECONDS;
    if per_second > 0x7fff_ffff_ffff_ffff / 3600 {
        return None;
    }
    Some((per_second, per_second * 60, per_second * 3600))
}

} // verus!
