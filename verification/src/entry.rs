//! Log entries, and how one line of the log is read into an entry.

use crate::channel::channel_of_color;
use crate::channel::classify;
use crate::channel::Channel;
use crate::outside::regex_search;
use crate::outside::search;
use crate::outside::Captured;
use crate::outside::CapturedView;
use crate::text::unescape;
use crate::text::unescaped;
use vstd::prelude::*;

verus! {

/// One entry of the log: what was said, the colour it was marked with, and
/// the time of day that the log wrote beside it.
#[derive(Clone, Debug, PartialEq, Eq)]
pub struct LogEntry {
    pub message: String,
    pub color: String,
    pub timestamp: String,
}

/// The mathematical value of a `LogEntry`.
pub struct EntryView {
    pub message: Seq<char>,
    pub color: Seq<char>,
    pub timestamp: Seq<char>,
}

impl View for LogEntry {
    type V = EntryView;

    open spec fn view(&self) -> EntryView {
        EntryView { message: self.message@, color: self.color@, timestamp: self.timestamp@ }
    }
}

/// The views of a sequence of entries.
pub open spec fn entry_views(v: Seq<LogEntry>) -> Seq<EntryView> {
    v.map_values(|e: LogEntry| e@)
}

impl LogEntry {
    /// An entry with the given fields.
    pub fn new(message: &str, color: &str, timestamp: &str) -> (r: LogEntry)
        ensures
            r@ == (EntryView { message: message@, color: color@, timestamp: timestamp@ }),
    {
        LogEntry {
            message: message.to_owned(),
            color: color.to_owned(),
            timestamp: timestamp.to_owned(),
        }
    }

    /// A copy of the entry.
    pub fn duplicate(&self) -> (r: LogEntry)
        ensures
            r@ == self@,
    {
        LogEntry {
            message: self.message.clone(),
            color: self.color.clone(),
            timestamp: self.timestamp.clone(),
        }
    }
}

/// Why a line of the log could not be taken in.
#[derive(Clone, Debug, PartialEq, Eq)]
pub enum ParseError {
    /// The line does not have the shape of an entry. It is kept as it was
    /// read.
    Malformed(String),
    /// The line has the shape of an entry, but its colour marks no channel.
    UnknownColor(LogEntry),
}

/// The mathematical value of a `ParseError`.
pub enum ParseErrorView {
    Malformed(Seq<char>),
    UnknownColor(EntryView),
}

impl View for ParseError {
    type V = ParseErrorView;

    open spec fn view(&self) -> ParseErrorView {
        match self {
            ParseError::Malformed(line) => ParseErrorView::Malformed(line@),
            ParseError::UnknownColor(entry) => ParseErrorView::UnknownColor(entry@),
        }
    }
}

/// The shape of an entry line: a `font` element that holds the time of day
/// between two spaces, a space, and a `font` element with a `color` attribute
/// that holds the message, closed by a line break. The three groups are the
/// time, the colour and the message.
pub const LINE_PATTERN: &'static str =
    "^<font.+> (.+) </font> <font.+color=\"(.+)\">(.+)</font></br>$";

/// The entry in what a search with `LINE_PATTERN` gave: with a match of three
/// groups that all took part, the entry made of them, the message unescaped.
pub open spec fn entry_in(found: CapturedView) -> Option<EntryView> {
    match found {
        CapturedView::Groups(g) => if g.len() == 4 && g[1] is Some && g[2] is Some
            && g[3] is Some {
            Some(
                EntryView {
                    message: unescaped(g[3]->0),
                    color: g[2]->0,
                    timestamp: g[1]->0,
                },
            )
        } else {
            None
        },
        _ => None,
    }
}

/// Makes the entry out of what a search with `LINE_PATTERN` gave.
pub fn entry_of(found: &Captured) -> (r: Option<LogEntry>)
    ensures
        match r {
            Some(e) => entry_in(found@) == Some(e@),
            None => entry_in(found@) is None,
        },
{
    match found {
        Captured::Groups(g) => {
            if g.len() != 4 {
                return None;
            }
            match (&g[1], &g[2], &g[3]) {
                (Some(time), Some(color), Some(body)) => Some(
                    LogEntry {
                        message: unescape(body.as_str()),
                        color: color.clone(),
                        timestamp: time.clone(),
                    },
                ),
                _ => None,
            }
        },
        _ => None,
    }
}

/// What a line of the log holds: its entry and the entry's channel, or the
/// reason why it holds none.
pub open spec fn parsed_line(line: Seq<char>) -> Result<(Channel, EntryView), ParseErrorView> {
    match entry_in(regex_search(LINE_PATTERN@, line)) {
        None => Err(ParseErrorView::Malformed(line)),
        Some(e) => match channel_of_color(e.color) {
            None => Err(ParseErrorView::UnknownColor(e)),
            Some(ch) => Ok((ch, e)),
        },
    }
}

/// Reads one line of the log.
pub fn parse_line(line: &str) -> (r: Result<(Channel, LogEntry), ParseError>)
    ensures
        match r {
            Ok((ch, e)) => parsed_line(line@) == Ok::<_, ParseErrorView>((ch, e@)) && ch
                != Channel::All,
            Err(err) => parsed_line(line@) == Err::<(Channel, EntryView), _>(err@),
        },
{
    let found = search(LINE_PATTERN, line);
    match entry_of(&found) {
        None => Err(ParseError::Malformed(line.to_owned())),
        Some(e) => match classify(e.color.as_str()) {
            None => Err(ParseError::UnknownColor(e)),
            Some(ch) => Ok((ch, e)),
        },
    }
}

} // verus!
