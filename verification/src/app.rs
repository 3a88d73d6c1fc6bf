//! The tailer as one value: the store of entries and the state of the tail,
//! with the poll that moves both.

use crate::buffers::cleared;
use crate::buffers::recent;
use crate::buffers::seven;
use crate::buffers::ChannelBuffers;
use crate::buffers::ChannelView;
use crate::channel::Channel;
use crate::entry::entry_views;
use crate::entry::EntryView;
use crate::entry::LogEntry;
use crate::ingest::decode;
use crate::ingest::parsed_lines;
use crate::ingest::span_lines;
use crate::ingest::store_lines;
use crate::ingest::stored;
use crate::ingest::HEADER_LINES;
use crate::ingest::MAX_SPAN;
use crate::outside::tokyo_clock;
use crate::outside::tokyo_time;
use crate::outside::ClockTime;
use crate::rate::clock_seconds;
use crate::rate::lemma_total_nonnegative;
use crate::rate::rates;
use crate::rate::rates_of;
use crate::rate::window_sum;
use crate::rate::window_total;
use crate::tail::advanced;
use crate::tail::plan_of;
use crate::tail::ReadError;
use crate::tail::ReadErrorView;
use crate::tail::ReadPlan;
use crate::tail::ReadStatus;
use crate::tail::TailState;
use crate::text::split_lines;
use vstd::prelude::*;

verus! {

/// The number of entries that a capped view of a channel shows at most.
pub const VIEW_CAP: usize = 500;

/// The tailer: the entries read so far and what is remembered of the file.
#[derive(Debug)]
pub struct App {
    /// Whether `get_messages` caps each channel at `VIEW_CAP` entries.
    pub limit: bool,
    /// The entries, by channel.
    pub buffers: ChannelBuffers,
    /// What is remembered of the file between polls.
    pub tail: TailState,
}

/// The mathematical value of an `App`.
pub struct AppView {
    pub limit: bool,
    pub channels: Seq<ChannelView>,
    pub tail: TailState,
}

impl View for App {
    type V = AppView;

    open spec fn view(&self) -> AppView {
        AppView { limit: self.limit, channels: self.buffers@, tail: self.tail }
    }
}

/// What one poll does. `date` is the instant of the poll, `file_size` the
/// size of the day's file if there is one, and `content` the bytes of the span
/// that the plan asked for. The result is the value after the poll and what
/// the poll reports.
///
/// Every flag is cleared first. Then the plan decides:
/// - no file: nothing more changes;
/// - first sight of the file: its size and the instant are recorded, nothing
///   is read;
/// - no growth: the instant is recorded;
/// - a span to read: its lines are stored up to the first that is no entry.
///   Only if all of them are entries are the size and the instant recorded.
/// Where the poll fails, the tail state stays as it was.
pub open spec fn polled(pre: AppView, date: i64, file_size: Option<u64>, content: Seq<u8>) -> (
    AppView,
    Result<ReadStatus, ReadErrorView>,
) {
    let idle = AppView { channels: cleared(pre.channels), ..pre };
    match plan_of(pre.tail, date, file_size) {
        Err(e) => (idle, Err(e)),
        Ok(ReadPlan::Absent) => (idle, Ok(ReadStatus::Idle)),
        Ok(ReadPlan::Baseline { .. }) => (
            AppView { tail: advanced(date, file_size->0), ..idle },
            Ok(ReadStatus::Idle),
        ),
        Ok(ReadPlan::Unchanged { .. }) => (
            AppView { tail: advanced(date, file_size->0), ..idle },
            Ok(ReadStatus::Unchanged),
        ),
        Ok(ReadPlan::Fetch { rollover, .. }) => if content.len() > MAX_SPAN {
            (idle, Err(ReadErrorView::TooLarge))
        } else {
            let found = parsed_lines(span_lines(content, rollover));
            let channels = stored(idle.channels, found.0);
            match found.1 {
                None => (
                    AppView { channels, tail: advanced(date, file_size->0), ..pre },
                    Ok(ReadStatus::Updated),
                ),
                Some(e) => (AppView { channels, ..pre }, Err(ReadErrorView::Parse(e))),
            }
        },
    }
}

/// The rates at a moment at which the clock in Tokyo stands at `clock`, from
/// the entries of the `System` channel: none where the moment is outside the
/// calendar, where an entry within the window cannot be read, or where a rate
/// does not fit 64 bits.
pub open spec fn rate_at(entries: Seq<EntryView>, clock: Option<ClockTime>) -> Option<
    (i64, i64, i64),
> {
    match clock {
        None => None,
        Some(c) => match window_total(entries, clock_seconds(c)) {
            None => None,
            Some(t) => rates_of(t),
        },
    }
}

/// The views of the channels that `get_messages` hands out.
pub open spec fn channel_views(v: Seq<(Vec<LogEntry>, bool)>) -> Seq<ChannelView> {
    Seq::new(v.len(), |i: int| (entry_views(v[i].0@), v[i].1))
}

/// Each channel of `v` cut down to its most recent entries.
pub open spec fn shown(v: Seq<ChannelView>, cap: Option<usize>) -> Seq<ChannelView> {
    Seq::new(v.len(), |i: int| (recent(v[i].0, cap), v[i].1))
}

impl App {
    /// A tailer that has read nothing: empty channels, no handle, size 0,
    /// capped views. `date` is the instant at which it is made, in seconds
    /// since 1970-01-01 00:00:00 UTC; it stands for the last poll until the
    /// first poll finds the file.
    pub fn new(date: i64) -> (r: App)
        ensures
            r@.limit,
            r@.channels == crate::buffers::empty_store(),
            r@.tail == (TailState { file_open: false, file_size: 0, date }),
    {
        App { limit: true, buffers: ChannelBuffers::new(), tail: TailState::new(date) }
    }

    /// What the caller has to do with the file before `read_log`: whether to
    /// open it anew, and which span of it to read.
    pub fn plan_read(&self, date: i64, file_size: Option<u64>) -> (r: Result<ReadPlan, ReadError>)
        ensures
            match r {
                Ok(p) => plan_of(self@.tail, date, file_size) == Ok::<ReadPlan, ReadErrorView>(p),
                Err(e) => plan_of(self@.tail, date, file_size) == Err::<ReadPlan, ReadErrorView>(
                    e@,
                ),
            },
    {
        self.tail.plan(date, file_size)
    }

    /// One poll of the log. `content` holds the bytes of the span that
    /// `plan_read` asked for with the same `date` and `file_size`; it is not
    /// looked at where the plan reads nothing.
    pub fn read_log(&mut self, date: i64, file_size: Option<u64>, content: &[u8]) -> (r: Result<
        ReadStatus,
        ReadError,
    >)
        ensures
            seven(old(self)@.channels),
            final(self)@ == polled(old(self)@, date, file_size, content@).0,
            match r {
                Ok(s) => polled(old(self)@, date, file_size, content@).1 == Ok::<
                    ReadStatus,
                    ReadErrorView,
                >(s),
                Err(e) => polled(old(self)@, date, file_size, content@).1 == Err::<
                    ReadStatus,
                    ReadErrorView,
                >(e@),
            },
    {
        self.buffers.reset_flags();
        let plan = match self.tail.plan(date, file_size) {
            Err(e) => {
                return Err(e);
            },
            Ok(p) => p,
        };
        let size: u64 = match file_size {
            None => {
                return Ok(ReadStatus::Idle);
            },
            Some(size) => size,
        };
        match plan {
            ReadPlan::Absent => Ok(ReadStatus::Idle),
            ReadPlan::Baseline { .. } => {
                self.tail = TailState { file_open: true, file_size: size, date };
                Ok(ReadStatus::Idle)
            },
            ReadPlan::Unchanged { .. } => {
                self.tail = TailState { file_open: true, file_size: size, date };
                Ok(ReadStatus::Unchanged)
            },
            ReadPlan::Fetch { rollover, .. } => {
                let text = match decode(content) {
                    None => {
                        return Err(ReadError::TooLarge);
                    },
                    Some(text) => text,
                };
                let lines = split_lines(text.as_str());
                let first: usize = if !rollover {
                    0
                } else if lines.len() > HEADER_LINES {
                    HEADER_LINES
                } else {
                    lines.len()
                };
                proof {
                    let all = crate::text::texts(lines@);
                    assert(all.skip(first as int) =~= span_lines(content@, rollover));
                }
                match store_lines(&mut self.buffers, &lines, first) {
                    Err(e) => Err(ReadError::Parse(e)),
                    Ok(_) => {
                        self.tail = TailState { file_open: true, file_size: size, date };
                        Ok(ReadStatus::Updated)
                    },
                }
            },
        }
    }

    /// The gain per second, per minute and per hour at the instant `now`,
    /// given in seconds since 1970-01-01 00:00:00 UTC: the gains that the
    /// `System` channel reports within the last `WINDOW_SECONDS` seconds,
    /// by the times of day that the entries state, over the window's length.
    pub fn calc_exp(&self, now: i64) -> (r: Option<(i64, i64, i64)>)
        ensures
            r == rate_at(self@.channels[Channel::System.slot()].0, tokyo_time(now as int)),
    {
        let clock = match tokyo_clock(now) {
            Some(c) => c,
            None => {
                return None;
            },
        };
        let seconds: i64 = clock.hour as i64 * 3600 + clock.minute as i64 * 60
            + clock.second as i64;
        let sum = window_sum(&self.buffers, seconds);
        proof {
            let entries = self@.channels[Channel::System.slot()].0;
            assert(clock_seconds(clock) == seconds);
            lemma_total_nonnegative(entries, seconds as int);
            if let Some(t) = window_total(entries, seconds as int) {
                if t > i64::MAX {
                    assert(t / 3 * 3600 > i64::MAX);
                }
            }
        }
        match sum {
            Some(total) => rates(total),
            None => None,
        }
    }

    /// The channels as they are shown: each with its flag, and with its
    /// entries, of which only the last `VIEW_CAP` where `limit` is set. The
    /// store keeps all of them.
    pub fn get_messages(&self) -> (r: Vec<(Vec<LogEntry>, bool)>)
        ensures
            seven(self@.channels),
            channel_views(r@) == shown(
                self@.channels,
                if self@.limit {
                    Some(VIEW_CAP)
                } else {
                    None
                },
            ),
    {
        let cap: Option<usize> = if self.limit {
            Some(VIEW_CAP)
        } else {
            None
        };
        let mut out: Vec<(Vec<LogEntry>, bool)> = Vec::new();
        let mut i: usize = 0;
        while i < 7
            invariant
                i <= 7,
                out@.len() == i,
                i > 0 ==> seven(self@.channels),
                forall|j: int|
                    0 <= j < i ==> (#[trigger] channel_views(out@)[j]) == shown(
                        self@.channels,
                        cap,
                    )[j],
            decreases 7 - i,
        {
            let ch = match Channel::from_index(i) {
                Some(ch) => ch,
                None => Channel::All,
            };
            let ghost before = out@;
            let view = self.buffers.read(ch, cap);
            out.push(view);
            proof {
                assert forall|j: int| 0 <= j < i + 1 implies (#[trigger] channel_views(out@)[j])
                    == shown(self@.channels, cap)[j] by {
                    if j < i {
                        assert(channel_views(out@)[j] == channel_views(before)[j]);
                    }
                }
            }
            i += 1;
        }
        assert(channel_views(out@) =~= shown(self@.channels, cap));
        out
    }
}

} // verus!
