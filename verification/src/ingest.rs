//! From the bytes of a span of the log to the entries in the store.

use crate::buffers::appended;
use crate::buffers::seven;
use crate::buffers::ChannelBuffers;
use crate::buffers::ChannelView;
use crate::channel::Channel;
use crate::entry::parse_line;
use crate::entry::parsed_line;
use crate::entry::EntryView;
use crate::entry::ParseError;
use crate::entry::ParseErrorView;
use crate::outside::decode_shift_jis;
use crate::outside::decoded_text;
use crate::outside::opt_text;
use crate::text::log_lines;
use crate::text::texts;
use vstd::prelude::*;

verus! {

/// The number of lines at the head of each day's file that are no entries.
pub const HEADER_LINES: usize = 4;

/// The longest span, in bytes, that is decoded in one piece: the decoder
/// sizes its buffer as a multiple of the span's length, which has to fit the
/// machine's word.
pub const MAX_SPAN: usize = usize::MAX / 16;

/// The text of a span of the log: the bytes decoded as the log's encoding,
/// Shift_JIS, with every malformed sequence replaced; none where the span is
/// longer than `MAX_SPAN`.
pub open spec fn span_text(content: Seq<u8>) -> Option<Seq<char>> {
    if content.len() <= MAX_SPAN {
        Some(decoded_text(content))
    } else {
        None
    }
}

/// Decodes a span of the log. Bytes that are no text never fail the
/// decoding; only a span that is too long is refused.
pub fn decode(content: &[u8]) -> (r: Option<String>)
    ensures
        opt_text(r) == span_text(content@),
{
    if content.len() > MAX_SPAN {
        None
    } else {
        Some(decode_shift_jis(content))
    }
}

/// An entry with the channel that its colour marks.
pub type Item = (Channel, EntryView);

/// `lines` without the header of a day's file; nothing where the header is
/// all there is.
pub open spec fn without_header(lines: Seq<Seq<char>>) -> Seq<Seq<char>> {
    if lines.len() > HEADER_LINES {
        lines.skip(HEADER_LINES as int)
    } else {
        Seq::empty()
    }
}

/// The lines of a span that are to be read as entries: its lines that are
/// not blank, after a change of day without the file's header.
pub open spec fn span_lines(content: Seq<u8>, rollover: bool) -> Seq<Seq<char>> {
    let lines = log_lines(decoded_text(content));
    if rollover {
        without_header(lines)
    } else {
        lines
    }
}

/// Reading `lines` in order up to the first that is no entry: the entries
/// read, and the error of the line that stopped the reading, if one did.
pub open spec fn parsed_lines(lines: Seq<Seq<char>>) -> (Seq<Item>, Option<ParseErrorView>)
    decreases lines.len(),
{
    if lines.len() == 0 {
        (Seq::empty(), None)
    } else {
        match parsed_line(lines[0]) {
            Err(e) => (Seq::empty(), Some(e)),
            Ok(item) => {
                let rest = parsed_lines(lines.drop_first());
                (seq![item] + rest.0, rest.1)
            },
        }
    }
}

/// The entries among `items` that channel `ch` receives, in their order:
/// `All` receives every one, another channel those that it is the channel of.
pub open spec fn items_for(items: Seq<Item>, ch: Channel) -> Seq<EntryView>
    decreases items.len(),
{
    if items.len() == 0 {
        Seq::empty()
    } else {
        let before = items_for(items.drop_last(), ch);
        if ch == Channel::All || items.last().0 == ch {
            before.push(items.last().1)
        } else {
            before
        }
    }
}

/// The store `v` after `items` were stored: each channel holds what it held,
/// followed by the entries that it receives, and its flag is set if it
/// receives any.
pub open spec fn stored(v: Seq<ChannelView>, items: Seq<Item>) -> Seq<ChannelView> {
    Seq::new(
        v.len(),
        |i: int|
            match Channel::at_slot(i) {
                Some(ch) => (v[i].0 + items_for(items, ch), v[i].1 || items_for(items, ch).len() > 0),
                None => v[i],
            },
    )
}

/// Storing one more item is appending its entry to `All` and to its channel.
pub proof fn lemma_stored_push(v: Seq<ChannelView>, items: Seq<Item>, ch: Channel, e: EntryView)
    requires
        seven(v),
        ch != Channel::All,
    ensures
        stored(v, items.push((ch, e))) == appended(
            appended(stored(v, items), Channel::All, e),
            ch,
            e,
        ),
{
    let more = items.push((ch, e));
    assert(more.drop_last() =~= items);
    let a = stored(v, more);
    let b = appended(appended(stored(v, items), Channel::All, e), ch, e);
    assert(a.len() == b.len());
    assert forall|i: int| 0 <= i < 7 implies a[i] =~~= b[i] by {
        let c = Channel::at_slot(i)->0;
        assert(c.slot() == i);
        if c == Channel::All || c == ch {
            assert(items_for(more, c) == items_for(items, c).push(e));
            assert(v[i].0 + items_for(items, c).push(e) =~= (v[i].0 + items_for(items, c)).push(e));
        } else {
            assert(items_for(more, c) == items_for(items, c));
        }
    }
    assert(a =~~= b);
}

/// Storing nothing changes nothing.
pub proof fn lemma_stored_none(v: Seq<ChannelView>)
    requires
        seven(v),
    ensures
        stored(v, Seq::empty()) == v,
{
    assert forall|i: int| 0 <= i < 7 implies stored(v, Seq::empty())[i] =~~= v[i] by {
        let c = Channel::at_slot(i)->0;
        assert(items_for(Seq::<Item>::empty(), c) =~= Seq::<EntryView>::empty());
        assert(v[i].0 + Seq::<EntryView>::empty() =~= v[i].0);
    }
    assert(stored(v, Seq::empty()) =~~= v);
}

/// Reads the lines from `first` on as entries and stores each in `All` and
/// in its channel, up to the first line that is no entry.
pub fn store_lines(buffers: &mut ChannelBuffers, lines: &Vec<String>, first: usize) -> (r: Result<
    (),
    ParseError,
>)
    requires
        seven(old(buffers)@),
        first <= lines@.len(),
    ensures
        final(buffers)@ == stored(
            old(buffers)@,
            parsed_lines(texts(lines@).skip(first as int)).0,
        ),
        match r {
            Ok(_) => parsed_lines(texts(lines@).skip(first as int)).1 is None,
            Err(e) => parsed_lines(texts(lines@).skip(first as int)).1 == Some(e@),
        },
{
    let ghost all = texts(lines@);
    let ghost start = buffers@;
    let ghost mut done: Seq<Item> = Seq::empty();
    let n: usize = lines.len();
    proof {
        lemma_stored_none(start);
        assert(done + parsed_lines(all.skip(first as int)).0 =~= parsed_lines(
            all.skip(first as int),
        ).0);
    }
    let mut i: usize = first;
    while i < n
        invariant
            first <= i <= n,
            n == lines@.len(),
            all == texts(lines@),
            seven(start),
            start == old(buffers)@,
            buffers@ == stored(start, done),
            parsed_lines(all.skip(first as int)).0 == done + parsed_lines(all.skip(i as int)).0,
            parsed_lines(all.skip(first as int)).1 == parsed_lines(all.skip(i as int)).1,
        decreases n - i,
    {
        proof {
            assert(all.skip(i as int)[0] == lines@[i as int]@);
            assert(all.skip(i as int).drop_first() =~= all.skip(i + 1));
        }
        match parse_line(lines[i].as_str()) {
            Err(e) => {
                proof {
                    assert(done + Seq::<Item>::empty() =~= done);
                }
                return Err(e);
            },
            Ok((ch, entry)) => {
                let ghost item = (ch, entry@);
                let ghost rest = parsed_lines(all.skip(i + 1)).0;
                proof {
                    assert(done + (seq![item] + rest) =~= done.push(item) + rest);
                    lemma_stored_push(start, done, ch, entry@);
                }
                buffers.append(Channel::All, entry.duplicate());
                buffers.append(ch, entry);
                proof {
                    done = done.push(item);
                }
            },
        }
        i += 1;
    }
    proof {
        assert(done + Seq::<Item>::empty() =~= done);
    }
    Ok(())
}

} // verus!
