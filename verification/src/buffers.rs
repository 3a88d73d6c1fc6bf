//! The store of entries: one sequence per channel, each with a flag that
//! tells whether the channel received anything in the latest poll.

use crate::channel::Channel;
use crate::entry::entry_views;
use crate::entry::EntryView;
use crate::entry::LogEntry;
use vstd::prelude::*;

verus! {

/// What one channel holds: its entries, oldest first, and its flag.
pub type ChannelView = (Seq<EntryView>, bool);

/// Seven channels.
pub open spec fn seven(v: Seq<ChannelView>) -> bool {
    v.len() == 7
}

/// The store in which every channel is empty and no flag is set.
pub open spec fn empty_store() -> Seq<ChannelView> {
    Seq::new(7, |i: int| (Seq::<EntryView>::empty(), false))
}

/// The store `v` after `entry` was appended to channel `ch`: the entry stands
/// last in that channel, the channel's flag is set, and nothing else changed.
pub open spec fn appended(v: Seq<ChannelView>, ch: Channel, entry: EntryView) -> Seq<
    ChannelView,
> {
    v.update(ch.slot(), (v[ch.slot()].0.push(entry), true))
}

/// The store `v` with every flag cleared.
pub open spec fn cleared(v: Seq<ChannelView>) -> Seq<ChannelView> {
    Seq::new(v.len(), |i: int| (v[i].0, false))
}

/// The most recent entries of a channel: all of them without a cap, and with
/// a cap the last `cap` of them, or all where there are no more than that.
pub open spec fn recent(entries: Seq<EntryView>, cap: Option<usize>) -> Seq<EntryView> {
    match cap {
        None => entries,
        Some(n) => if entries.len() > n {
            entries.skip(entries.len() - n)
        } else {
            entries
        },
    }
}

/// The entries of the seven channels.
#[derive(Debug)]
pub struct ChannelBuffers {
    channels: Vec<(Vec<LogEntry>, bool)>,
}

impl View for ChannelBuffers {
    type V = Seq<ChannelView>;

    closed spec fn view(&self) -> Seq<ChannelView> {
        Seq::new(
            self.channels@.len(),
            |i: int| (entry_views(self.channels@[i].0@), self.channels@[i].1),
        )
    }
}

impl ChannelBuffers {
    #[verifier::type_invariant]
    spec fn has_seven(self) -> bool {
        self.channels@.len() == 7
    }

    /// A store of seven empty channels.
    pub fn new() -> (r: ChannelBuffers)
        ensures
            r@ == empty_store(),
    {
        let mut channels: Vec<(Vec<LogEntry>, bool)> = Vec::new();
        let mut i: usize = 0;
        while i < 7
            invariant
                i <= 7,
                channels@.len() == i,
                forall|j: int| 0 <= j < i ==> channels@[j].0@.len() == 0 && !channels@[j].1,
            decreases 7 - i,
        {
            channels.push((Vec::new(), false));
            i += 1;
        }
        let r = ChannelBuffers { channels };
        assert(r@ =~~= empty_store());
        r
    }

    /// Appends an entry to a channel and sets the channel's flag.
    pub fn append(&mut self, ch: Channel, entry: LogEntry)
        ensures
            seven(old(self)@),
            final(self)@ == appended(old(self)@, ch, entry@),
    {
        proof {
            use_type_invariant(&*self);
        }
        let i: usize = ch.index();
        let ghost before = self.channels@;
        self.channels[i].0.push(entry);
        self.channels[i].1 = true;
        proof {
            assert(self.channels@.len() == 7);
            assert(self.channels@[i as int].0@ == before[i as int].0@.push(entry));
            assert(forall|j: int| 0 <= j < 7 && j != i ==> self.channels@[j] == before[j]);
            assert(entry_views(before[i as int].0@.push(entry)) =~= entry_views(
                before[i as int].0@,
            ).push(entry@));
            assert(self@ =~~= appended(old(self)@, ch, entry@));
        }
    }

    /// Clears the flag of every channel.
    pub fn reset_flags(&mut self)
        ensures
            seven(old(self)@),
            final(self)@ == cleared(old(self)@),
    {
        proof {
            use_type_invariant(&*self);
        }
        let ghost before = self.channels@;
        let mut i: usize = 0;
        while i < 7
            invariant
                i <= 7,
                self.channels@.len() == 7,
                before.len() == 7,
                forall|j: int| 0 <= j < 7 ==> (#[trigger] self.channels@[j]).0 == before[j].0,
                forall|j: int| 0 <= j < i ==> !(#[trigger] self.channels@[j]).1,
                forall|j: int| i <= j < 7 ==> (#[trigger] self.channels@[j]).1 == before[j].1,
            decreases 7 - i,
        {
            self.channels[i].1 = false;
            i += 1;
        }
        assert(self@ =~~= cleared(old(self)@));
    }

    /// The number of entries that a channel holds.
    pub fn len(&self, ch: Channel) -> (r: usize)
        ensures
            seven(self@),
            r == self@[ch.slot()].0.len(),
    {
        proof {
            use_type_invariant(self);
        }
        self.channels[ch.index()].0.len()
    }

    /// Whether a channel received an entry in the latest poll.
    pub fn updated(&self, ch: Channel) -> (r: bool)
        ensures
            seven(self@),
            r == self@[ch.slot()].1,
    {
        proof {
            use_type_invariant(self);
        }
        self.channels[ch.index()].1
    }

    /// The entry at place `i` of a channel, counted from the oldest.
    pub fn entry(&self, ch: Channel, i: usize) -> (r: &LogEntry)
        requires
            i < self@[ch.slot()].0.len(),
        ensures
            seven(self@),
            r@ == self@[ch.slot()].0[i as int],
    {
        proof {
            use_type_invariant(self);
        }
        &self.channels[ch.index()].0[i]
    }

    /// Copies out the most recent entries of a channel, oldest first, with
    /// the channel's flag. Nothing is removed from the store.
    pub fn read(&self, ch: Channel, cap: Option<usize>) -> (r: (Vec<LogEntry>, bool))
        ensures
            seven(self@),
            entry_views(r.0@) == recent(self@[ch.slot()].0, cap),
            r.1 == self@[ch.slot()].1,
    {
        proof {
            use_type_invariant(self);
        }
        let slot = &self.channels[ch.index()];
        let n: usize = slot.0.len();
        let first: usize = match cap {
            None => 0,
            Some(c) => if n > c {
                n - c
            } else {
                0
            },
        };
        let mut out: Vec<LogEntry> = Vec::new();
        let mut i: usize = first;
        while i < n
            invariant
                first <= i <= n,
                n == slot.0@.len(),
                entry_views(out@) == entry_views(slot.0@).subrange(first as int, i as int),
            decreases n - i,
        {
            let ghost before = out@;
            out.push(slot.0[i].duplicate());
            assert(entry_views(out@) =~= entry_views(before).push(slot.0@[i as int]@));
            i += 1;
        }
        assert(entry_views(out@) =~= recent(self@[ch.slot()].0, cap));
        (out, slot.1)
    }
}

/// A capped view of a channel is as long as the smaller of the channel's
/// length and the cap, and holds the channel's last entries in their order.
pub proof fn law_capped_view_is_suffix(entries: Seq<EntryView>, cap: usize)
    ensures
        recent(entries, Some(cap)).len() == if entries.len() <= cap {
            entries.len()
        } else {
            cap as nat
        },
        forall|i: int|
            0 <= i < recent(entries, Some(cap)).len() ==> recent(entries, Some(cap))[i]
                == entries[entries.len() - recent(entries, Some(cap)).len() + i],
{
}

} // verus!
