//! The state of the tailer and the decision that one poll takes: whether to
//! do nothing, to note where the file ends, or to read a span of it.

use crate::entry::ParseError;
use crate::entry::ParseErrorView;
use crate::outside::tokyo_clock;
use crate::outside::tokyo_time;
use vstd::prelude::*;

verus! {

/// How a poll ended.
#[derive(Clone, Copy, Debug, PartialEq, Eq, Structural)]
pub enum ReadStatus {
    /// Nothing was read: there is no file, or the file was seen for the first
    /// time and its end was noted.
    Idle,
    /// A span of the file was read and its entries were stored.
    Updated,
    /// The file has not grown since the last poll.
    Unchanged,
}

/// Why a poll failed.
#[derive(Clone, Debug, PartialEq, Eq)]
pub enum ReadError {
    /// The span is longer than the decoder takes.
    TooLarge,
    /// The instant of this poll or of the last one is outside the calendar.
    Clock,
    /// The file is shorter than it was, though the day has not changed.
    Shrunk,
    /// A line of the span is no entry.
    Parse(ParseError),
}

/// The mathematical value of a `ReadError`.
pub enum ReadErrorView {
    TooLarge,
    Clock,
    Shrunk,
    Parse(ParseErrorView),
}

impl View for ReadError {
    type V = ReadErrorView;

    open spec fn view(&self) -> ReadErrorView {
        match self {
            ReadError::TooLarge => ReadErrorView::TooLarge,
            ReadError::Clock => ReadErrorView::Clock,
            ReadError::Shrunk => ReadErrorView::Shrunk,
            ReadError::Parse(e) => ReadErrorView::Parse(e@),
        }
    }
}

/// What the tailer remembers between polls.
#[derive(Clone, Copy, Debug, PartialEq, Eq, Structural)]
pub struct TailState {
    /// Whether the caller holds an open handle on the file.
    pub file_open: bool,
    /// The size of the file at the last poll that succeeded; 0 before the
    /// first.
    pub file_size: u64,
    /// The instant of the last poll that found the file, in seconds since
    /// 1970-01-01 00:00:00 UTC.
    pub date: i64,
}

/// What the caller has to do with the file in a poll.
#[derive(Clone, Copy, Debug, PartialEq, Eq, Structural)]
pub enum ReadPlan {
    /// There is no file: nothing to do.
    Absent,
    /// The file is seen for the first time: move to its end, read nothing.
    Baseline { reopen: bool },
    /// The file has not grown: read nothing.
    Unchanged { reopen: bool },
    /// Read `length` bytes from byte `offset` on. After a change of day the
    /// span is the whole file, and its header lines are to be dropped.
    Fetch { reopen: bool, offset: u64, length: u64, rollover: bool },
}

/// The plan of a poll at the instant `date` that finds a file of the size
/// `file_size`, or no file.
///
/// The day counts as changed when the day of the month in Tokyo differs
/// between this poll and the last. The handle is opened anew when there is
/// none or the day has changed. A stored size of 0 marks the first poll.
pub open spec fn plan_of(tail: TailState, date: i64, file_size: Option<u64>) -> Result<
    ReadPlan,
    ReadErrorView,
> {
    match file_size {
        None => Ok(ReadPlan::Absent),
        Some(size) => match (tokyo_time(date as int), tokyo_time(tail.date as int)) {
            (Some(now), Some(past)) => {
                let rollover = now.day != past.day;
                let reopen = !tail.file_open || rollover;
                if tail.file_size == 0 {
                    Ok(ReadPlan::Baseline { reopen })
                } else if rollover {
                    Ok(ReadPlan::Fetch { reopen, offset: 0, length: size, rollover })
                } else if size == tail.file_size {
                    Ok(ReadPlan::Unchanged { reopen })
                } else if size < tail.file_size {
                    Err(ReadErrorView::Shrunk)
                } else {
                    Ok(
                        ReadPlan::Fetch {
                            reopen,
                            offset: tail.file_size,
                            length: (size - tail.file_size) as u64,
                            rollover,
                        },
                    )
                }
            },
            _ => Err(ReadErrorView::Clock),
        },
    }
}

/// The state after a poll at `date` that found a file of the size `size` and
/// succeeded.
pub open spec fn advanced(date: i64, size: u64) -> TailState {
    TailState { file_open: true, file_size: size, date }
}

impl TailState {
    /// The state before the first poll: no handle, nothing read.
    pub fn new(date: i64) -> (r: TailState)
        ensures
            r == (TailState { file_open: false, file_size: 0, date }),
    {
        TailState { file_open: false, file_size: 0, date }
    }

    /// Decides what a poll has to do with the file. The state is left as it
    /// is, so that a poll that fails on the way is tried again by the next.
    pub fn plan(&self, date: i64, file_size: Option<u64>) -> (r: Result<ReadPlan, ReadError>)
        ensures
            match r {
                Ok(p) => plan_of(*self, date, file_size) == Ok::<ReadPlan, ReadErrorView>(p),
                Err(e) => plan_of(*self, date, file_size) == Err::<ReadPlan, ReadErrorView>(e@),
            },
    {
        let size: u64 = match file_size {
            None => {
                return Ok(ReadPlan::Absent);
            },
            Some(size) => size,
        };
        let now = match tokyo_clock(date) {
            None => {
                return Err(ReadError::Clock);
            },
            Some(t) => t,
        };
        let past = match tokyo_clock(self.date) {
            None => {
                return Err(ReadError::Clock);
            },
            Some(t) => t,
        };
        let rollover: bool = now.day != past.day;
        let reopen: bool = !self.file_open || rollover;
        if self.file_size == 0 {
            Ok(ReadPlan::Baseline { reopen })
        } else if rollover {
            Ok(ReadPlan::Fetch { reopen, offset: 0, length: size, rollover })
        } else if size == self.file_size {
            Ok(ReadPlan::Unchanged { reopen })
        } else if size < self.file_size {
            Err(ReadError::Shrunk)
        } else {
            Ok(
                ReadPlan::Fetch {
                    reopen,
                    offset: self.file_size,
                    length: size - self.file_size,
                    rollover,
                },
            )
        }
    }
}

} // verus!
