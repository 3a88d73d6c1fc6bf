//! The channels of the chat, and the colour by which the log marks each.

use crate::text::same_text;
use vstd::prelude::*;

verus! {

/// A channel of the chat. `All` holds every entry; each entry belongs to
/// exactly one of the other six as well.
#[derive(Clone, Copy, Debug, PartialEq, Eq, Structural)]
pub enum Channel {
    All,
    Public,
    Private,
    Team,
    Club,
    System,
    Server,
}

impl Channel {
    /// The channel's place among the seven, from 0.
    pub open spec fn slot(self) -> int {
        match self {
            Channel::All => 0,
            Channel::Public => 1,
            Channel::Private => 2,
            Channel::Team => 3,
            Channel::Club => 4,
            Channel::System => 5,
            Channel::Server => 6,
        }
    }

    /// The channel's place among the seven, from 0.
    pub fn index(self) -> (r: usize)
        ensures
            r == self.slot(),
            r < 7,
    {
        match self {
            Channel::All => 0,
            Channel::Public => 1,
            Channel::Private => 2,
            Channel::Team => 3,
            Channel::Club => 4,
            Channel::System => 5,
            Channel::Server => 6,
        }
    }

    /// The channel that stands at place `i`, if `i` is below 7.
    pub open spec fn at_slot(i: int) -> Option<Channel> {
        if i == 0 {
            Some(Channel::All)
        } else if i == 1 {
            Some(Channel::Public)
        } else if i == 2 {
            Some(Channel::Private)
        } else if i == 3 {
            Some(Channel::Team)
        } else if i == 4 {
            Some(Channel::Club)
        } else if i == 5 {
            Some(Channel::System)
        } else if i == 6 {
            Some(Channel::Server)
        } else {
            None
        }
    }

    /// The channel that stands at place `i`, if `i` is below 7.
    pub fn from_index(i: usize) -> (r: Option<Channel>)
        ensures
            r == Channel::at_slot(i as int),
            r matches Some(c) ==> c.slot() == i,
            r is Some <==> i < 7,
    {
        if i == 0 {
            Some(Channel::All)
        } else if i == 1 {
            Some(Channel::Public)
        } else if i == 2 {
            Some(Channel::Private)
        } else if i == 3 {
            Some(Channel::Team)
        } else if i == 4 {
            Some(Channel::Club)
        } else if i == 5 {
            Some(Channel::System)
        } else if i == 6 {
            Some(Channel::Server)
        } else {
            None
        }
    }
}

/// The channel that a colour marks: the table of the colours that the log is
/// known to use. Several colours mark the same channel; none marks `All`.
pub open spec fn channel_of_color(color: Seq<char>) -> Option<Channel> {
    if color == "#c8ffc8"@ || color == "#ffffff"@ {
        Some(Channel::Public)
    } else if color == "#64ff64"@ {
        Some(Channel::Private)
    } else if color == "#f7b73c"@ {
        Some(Channel::Team)
    } else if color == "#94ddfa"@ {
        Some(Channel::Club)
    } else if color == "#ff64ff"@ || color == "#ff6464"@ || color == "#64ff80"@ {
        Some(Channel::System)
    } else if color == "#c896c8"@ {
        Some(Channel::Server)
    } else {
        None
    }
}

/// Finds the channel that a colour marks. A colour outside the table marks
/// none, and is never given a channel by default.
pub fn classify(color: &str) -> (r: Option<Channel>)
    ensures
        r == channel_of_color(color@),
        r != Some(Channel::All),
{
    if same_text(color, "#c8ffc8") || same_text(color, "#ffffff") {
        Some(Channel::Public)
    } else if same_text(color, "#64ff64") {
        Some(Channel::Private)
    } else if same_text(color, "#f7b73c") {
        Some(Channel::Team)
    } else if same_text(color, "#94ddfa") {
        Some(Channel::Club)
    } else if same_text(color, "#ff64ff") || same_text(color, "#ff6464") || same_text(
        color,
        "#64ff80",
    ) {
        Some(Channel::System)
    } else if same_text(color, "#c896c8") {
        Some(Channel::Server)
    } else {
        None
    }
}

} // verus!
