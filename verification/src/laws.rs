//! What holds of every poll, stated over the model of the tailer.

use crate::app::polled;
use crate::app::AppView;
use crate::buffers::cleared;
use crate::buffers::seven;
use crate::channel::channel_of_color;
use crate::channel::Channel;
use crate::entry::parsed_line;
use crate::entry::ParseErrorView;
use crate::entry::EntryView;
use crate::ingest::items_for;
use crate::ingest::parsed_lines;
use crate::ingest::span_lines;
use crate::ingest::stored;
use crate::ingest::without_header;
use crate::ingest::Item;
use crate::ingest::MAX_SPAN;
use crate::outside::decoded_text;
use crate::outside::tokyo_time;
use crate::rate::rates_of;
use crate::tail::advanced;
use crate::tail::plan_of;
use crate::tail::ReadErrorView;
use crate::tail::ReadPlan;
use crate::tail::ReadStatus;
use crate::tail::TailState;
use crate::text::log_lines;
use vstd::prelude::*;

verus! {

/// Whether the clock in Tokyo shows the same day of the month at two
/// instants, both within the calendar.
pub open spec fn same_day(a: i64, b: i64) -> bool {
    match (tokyo_time(a as int), tokyo_time(b as int)) {
        (Some(x), Some(y)) => x.day == y.day,
        _ => false,
    }
}

/// Whether the clock in Tokyo shows different days of the month at two
/// instants, both within the calendar.
pub open spec fn other_day(a: i64, b: i64) -> bool {
    match (tokyo_time(a as int), tokyo_time(b as int)) {
        (Some(x), Some(y)) => x.day != y.day,
        _ => false,
    }
}

/// The entries of a sequence of items.
pub open spec fn entries_of(items: Seq<Item>) -> Seq<EntryView> {
    items.map_values(|item: Item| item.1)
}

/// The items whose channel is `ch`.
pub open spec fn of_channel(items: Seq<Item>, ch: Channel) -> Seq<Item> {
    items.filter(|item: Item| item.0 == ch)
}

/// The entries of channel `ch` in a model of the tailer.
pub open spec fn entries_in(app: AppView, ch: Channel) -> Seq<EntryView> {
    app.channels[ch.slot()].0
}

/// The flag of channel `ch` in a model of the tailer.
pub open spec fn flag_in(app: AppView, ch: Channel) -> bool {
    app.channels[ch.slot()].1
}

/// `All` receives every item; another channel receives the items whose
/// channel it is; in both cases in the order of the items.
pub proof fn lemma_items_by_channel(items: Seq<Item>, ch: Channel)
    ensures
        items_for(items, Channel::All) == entries_of(items),
        ch != Channel::All ==> items_for(items, ch) == entries_of(of_channel(items, ch)),
    decreases items.len(),
{
    reveal(Seq::filter);
    if items.len() == 0 {
        assert(items_for(items, Channel::All) =~= entries_of(items));
        assert(items_for(items, ch) =~= entries_of(of_channel(items, ch)));
    } else {
        lemma_items_by_channel(items.drop_last(), ch);
        assert(entries_of(items) =~= entries_of(items.drop_last()).push(items.last().1));
        if ch != Channel::All {
            let rest = of_channel(items.drop_last(), ch);
            if items.last().0 == ch {
                assert(of_channel(items, ch) == rest.push(items.last()));
                assert(entries_of(rest.push(items.last())) =~= entries_of(rest).push(
                    items.last().1,
                ));
            } else {
                assert(of_channel(items, ch) == rest);
            }
        }
    }
}

/// Where every line is an entry, reading the lines gives one item for each
/// line, in the order of the lines, and no error.
pub proof fn lemma_all_lines_parse(lines: Seq<Seq<char>>)
    requires
        forall|i: int| 0 <= i < lines.len() ==> parsed_line(#[trigger] lines[i]) is Ok,
    ensures
        parsed_lines(lines).1 is None,
        parsed_lines(lines).0.len() == lines.len(),
        forall|i: int|
            0 <= i < lines.len() ==> parsed_line(lines[i]) == Ok::<Item, ParseErrorView>(
                #[trigger] parsed_lines(lines).0[i],
            ),
    decreases lines.len(),
{
    if lines.len() > 0 {
        let rest = lines.drop_first();
        assert forall|i: int| 0 <= i < rest.len() implies parsed_line(#[trigger] rest[i]) is Ok by {
            assert(rest[i] == lines[i + 1]);
        }
        lemma_all_lines_parse(rest);
        assert forall|i: int| 0 <= i < lines.len() implies parsed_line(lines[i]) == Ok::<Item, ParseErrorView>(
            #[trigger] parsed_lines(lines).0[i],
        ) by {
            if i > 0 {
                assert(rest[i - 1] == lines[i]);
                assert(parsed_lines(lines).0[i] == parsed_lines(rest).0[i - 1]);
            }
        }
    }
}

/// A poll never removes or reorders what is stored, and after it the flag of
/// a channel tells whether the channel received an entry in this poll.
pub proof fn law_flags_mark_new_entries(
    pre: AppView,
    date: i64,
    file_size: Option<u64>,
    content: Seq<u8>,
    ch: Channel,
)
    requires
        seven(pre.channels),
    ensures
        seven(polled(pre, date, file_size, content).0.channels),
        entries_in(pre, ch).is_prefix_of(entries_in(polled(pre, date, file_size, content).0, ch)),
        flag_in(polled(pre, date, file_size, content).0, ch) == (entries_in(
            polled(pre, date, file_size, content).0,
            ch,
        ).len() > entries_in(pre, ch).len()),
        polled(pre, date, file_size, content).0.limit == pre.limit,
{
    let post = polled(pre, date, file_size, content).0;
    let i = ch.slot();
    assert(Channel::at_slot(i) == Some(ch));
    assert(cleared(pre.channels)[i] == (pre.channels[i].0, false));
    match plan_of(pre.tail, date, file_size) {
        Ok(ReadPlan::Fetch { rollover, .. }) => {
            if content.len() <= MAX_SPAN {
                let found = parsed_lines(span_lines(content, rollover));
                assert(post.channels == stored(cleared(pre.channels), found.0));
                assert(post.channels[i].0 == pre.channels[i].0 + items_for(found.0, ch));
            }
        },
        _ => {},
    }
    assert(entries_in(post, ch).take(entries_in(pre, ch).len() as int) =~= entries_in(pre, ch));
}

/// A poll that fails leaves the tail state as it was, so that the next poll
/// takes the same decision again.
pub proof fn law_failure_keeps_tail(
    pre: AppView,
    date: i64,
    file_size: Option<u64>,
    content: Seq<u8>,
)
    requires
        polled(pre, date, file_size, content).1 is Err,
    ensures
        polled(pre, date, file_size, content).0.tail == pre.tail,
{
}

/// Where there is no file, a poll reports `Idle`, stores nothing, and leaves
/// the tail state as it was.
pub proof fn law_no_file_is_idle(pre: AppView, date: i64, content: Seq<u8>, ch: Channel)
    requires
        seven(pre.channels),
    ensures
        polled(pre, date, None, content).1 == Ok::<_, ReadErrorView>(ReadStatus::Idle),
        polled(pre, date, None, content).0.tail == pre.tail,
        entries_in(polled(pre, date, None, content).0, ch) == entries_in(pre, ch),
{
}

/// Two polls in a row that find the file at the size that is stored, on the
/// day of the last poll, both report `Unchanged`, and neither stores
/// anything. (With a stored size of 0 the file counts as not yet seen, and
/// the poll reports `Idle`.)
pub proof fn law_unchanged_polls_repeat(
    pre: AppView,
    first_date: i64,
    second_date: i64,
    size: u64,
    first_content: Seq<u8>,
    second_content: Seq<u8>,
    ch: Channel,
)
    requires
        seven(pre.channels),
        pre.tail.file_size == size,
        size != 0,
        same_day(pre.tail.date, first_date),
        same_day(first_date, second_date),
    ensures
        ({
            let first = polled(pre, first_date, Some(size), first_content);
            let second = polled(first.0, second_date, Some(size), second_content);
            &&& first.1 == Ok::<_, ReadErrorView>(ReadStatus::Unchanged)
            &&& second.1 == Ok::<_, ReadErrorView>(ReadStatus::Unchanged)
            &&& entries_in(first.0, ch) == entries_in(pre, ch)
            &&& entries_in(second.0, ch) == entries_in(pre, ch)
            &&& second.0.tail.file_size == size
        }),
{
}

/// Every line is an entry.
pub open spec fn all_entries(lines: Seq<Seq<char>>) -> bool {
    forall|i: int| 0 <= i < lines.len() ==> parsed_line(#[trigger] lines[i]) is Ok
}

/// What a poll stores of lines that are all entries: one item for each line,
/// in the order of the lines; all of them in `All`, and each in the channel of
/// its colour, which is never `All`; the flags of the channels that received
/// an entry, and of no other.
pub open spec fn lines_stored(pre: AppView, post: AppView, lines: Seq<Seq<char>>, ch: Channel)
    -> bool {
    let items = parsed_lines(lines).0;
    &&& items.len() == lines.len()
    &&& forall|i: int|
        0 <= i < lines.len() ==> parsed_line(lines[i]) == Ok::<Item, ParseErrorView>(
            #[trigger] items[i],
        )
    &&& forall|i: int|
        0 <= i < items.len() ==> (#[trigger] items[i]).0 != Channel::All && channel_of_color(
            items[i].1.color,
        ) == Some(items[i].0)
    &&& entries_in(post, Channel::All) == entries_in(pre, Channel::All) + entries_of(items)
    &&& flag_in(post, Channel::All) == (items.len() > 0)
    &&& ch != Channel::All ==> entries_in(post, ch) == entries_in(pre, ch) + entries_of(
        of_channel(items, ch),
    )
    &&& ch != Channel::All ==> flag_in(post, ch) == (of_channel(items, ch).len() > 0)
}

/// An item that a line gave has the channel of its colour, which is one of
/// the six and not `All`.
pub proof fn lemma_items_have_their_channel(lines: Seq<Seq<char>>, i: int)
    requires
        0 <= i < parsed_lines(lines).0.len(),
    ensures
        parsed_lines(lines).0[i].0 != Channel::All,
        channel_of_color(parsed_lines(lines).0[i].1.color) == Some(parsed_lines(lines).0[i].0),
    decreases lines.len(),
{
    if lines.len() > 0 && i > 0 {
        lemma_items_have_their_channel(lines.drop_first(), i - 1);
    }
}

/// Items of which none has the channel `All` fall into the six other
/// channels, each item into one: the six counts add up to the number of items.
pub proof fn law_channels_partition(items: Seq<Item>)
    requires
        forall|i: int| 0 <= i < items.len() ==> (#[trigger] items[i]).0 != Channel::All,
    ensures
        of_channel(items, Channel::Public).len() + of_channel(items, Channel::Private).len()
            + of_channel(items, Channel::Team).len() + of_channel(items, Channel::Club).len()
            + of_channel(items, Channel::System).len() + of_channel(items, Channel::Server).len()
            == items.len(),
    decreases items.len(),
{
    reveal(Seq::filter);
    if items.len() > 0 {
        let rest = items.drop_last();
        assert forall|i: int| 0 <= i < rest.len() implies (#[trigger] rest[i]).0
            != Channel::All by {
            assert(rest[i] == items[i]);
        }
        law_channels_partition(rest);
        assert(items.last() == items[items.len() - 1]);
    }
}

/// A poll that reads a span, on the same day or after a change of day, and
/// finds every line of the span to be an entry, reports `Updated`, stores
/// the lines as `lines_stored` says, and records the instant and the file's
/// size. The span is within `MAX_SPAN`, the longest that the machine decodes.
pub proof fn law_span_is_stored(
    pre: AppView,
    date: i64,
    size: u64,
    content: Seq<u8>,
    rollover: bool,
    ch: Channel,
)
    requires
        seven(pre.channels),
        plan_of(pre.tail, date, Some(size)) matches Ok(ReadPlan::Fetch { rollover: r, .. }) && r
            == rollover,
        content.len() <= MAX_SPAN,
        all_entries(span_lines(content, rollover)),
    ensures
        polled(pre, date, Some(size), content).1 == Ok::<_, ReadErrorView>(ReadStatus::Updated),
        polled(pre, date, Some(size), content).0.tail == advanced(date, size),
        lines_stored(
            pre,
            polled(pre, date, Some(size), content).0,
            span_lines(content, rollover),
            ch,
        ),
{
    let lines = span_lines(content, rollover);
    let items = parsed_lines(lines).0;
    lemma_all_lines_parse(lines);
    lemma_items_by_channel(items, ch);
    assert forall|i: int| 0 <= i < items.len() implies (#[trigger] items[i]).0 != Channel::All
        && channel_of_color(items[i].1.color) == Some(items[i].0) by {
        lemma_items_have_their_channel(lines, i);
    }
    let post = polled(pre, date, Some(size), content).0;
    assert(post.channels == stored(cleared(pre.channels), items));
    assert(Channel::at_slot(ch.slot()) == Some(ch));
    assert(Channel::at_slot(Channel::All.slot()) == Some(Channel::All));
    assert(entries_of(items).len() == items.len());
    assert(entries_of(of_channel(items, ch)).len() == of_channel(items, ch).len());
}

/// Where the file has grown since the last poll on the same day, the poll
/// asks for exactly the bytes that were added. If every line among them is an
/// entry, it reports `Updated`, stores one entry for each line, all of them in
/// `All` and each in the one channel of its colour, in the order of the lines,
/// sets the flags of the channels that received an entry, and of no other, and
/// records the new size.
pub proof fn law_growth_is_ingested(
    pre: AppView,
    date: i64,
    size: u64,
    content: Seq<u8>,
    ch: Channel,
)
    requires
        seven(pre.channels),
        pre.tail.file_size != 0,
        pre.tail.file_size < size,
        same_day(pre.tail.date, date),
        content.len() <= MAX_SPAN,
        all_entries(log_lines(decoded_text(content))),
    ensures
        plan_of(pre.tail, date, Some(size)) == Ok::<_, ReadErrorView>(
            ReadPlan::Fetch {
                reopen: !pre.tail.file_open,
                offset: pre.tail.file_size,
                length: (size - pre.tail.file_size) as u64,
                rollover: false,
            },
        ),
        polled(pre, date, Some(size), content).1 == Ok::<_, ReadErrorView>(ReadStatus::Updated),
        polled(pre, date, Some(size), content).0.tail == advanced(date, size),
        lines_stored(
            pre,
            polled(pre, date, Some(size), content).0,
            log_lines(decoded_text(content)),
            ch,
        ),
{
    law_span_is_stored(pre, date, size, content, false, ch);
}

/// When the day has changed since the last poll, the poll asks to open the
/// file anew and to read all of it from its first byte. What it then does
/// does not depend on the size that is stored, nor on whether a handle is
/// held: with another size stored it reports the same and stores the same,
/// the lines of the whole file without the header. If every
/// line after the header is an entry, it reports `Updated`, stores them as
/// `lines_stored` says, and records the file's size.
pub proof fn law_rollover_rereads(
    pre: AppView,
    date: i64,
    size: u64,
    content: Seq<u8>,
    other_size: u64,
    other_open: bool,
    ch: Channel,
)
    requires
        seven(pre.channels),
        pre.tail.file_size != 0,
        other_size != 0,
        other_day(pre.tail.date, date),
        content.len() <= MAX_SPAN,
    ensures
        ({
            let lines = without_header(log_lines(decoded_text(content)));
            let post = polled(pre, date, Some(size), content);
            let other = AppView {
                tail: TailState { file_open: other_open, file_size: other_size, ..pre.tail },
                ..pre
            };
            &&& plan_of(pre.tail, date, Some(size)) == Ok::<_, ReadErrorView>(
                ReadPlan::Fetch { reopen: true, offset: 0, length: size, rollover: true },
            )
            &&& polled(other, date, Some(size), content).1 == post.1
            &&& polled(other, date, Some(size), content).0.channels == post.0.channels
            &&& post.1 is Ok ==> polled(other, date, Some(size), content).0.tail == post.0.tail
            &&& post.0.channels == stored(cleared(pre.channels), parsed_lines(lines).0)
            &&& all_entries(lines) ==> {
                &&& post.1 == Ok::<_, ReadErrorView>(ReadStatus::Updated)
                &&& post.0.tail == advanced(date, size)
                &&& lines_stored(pre, post.0, lines, ch)
            }
        }),
{
    let lines = without_header(log_lines(decoded_text(content)));
    if all_entries(lines) {
        law_span_is_stored(pre, date, size, content, true, ch);
    }
}

/// A poll that reads a span of one line, an entry, stores the entry in `All`
/// and in the channel that the table gives its colour, and in no other
/// channel. This holds on the same day and after a change of day.
pub proof fn law_entry_goes_to_its_channel(
    pre: AppView,
    date: i64,
    size: u64,
    content: Seq<u8>,
    rollover: bool,
    line: Seq<char>,
    ch: Channel,
)
    requires
        seven(pre.channels),
        plan_of(pre.tail, date, Some(size)) matches Ok(ReadPlan::Fetch { rollover: r, .. }) && r
            == rollover,
        content.len() <= MAX_SPAN,
        span_lines(content, rollover) == seq![line],
        parsed_line(line) is Ok,
    ensures
        ({
            let post = polled(pre, date, Some(size), content).0;
            let of = parsed_line(line)->Ok_0.0;
            let entry = parsed_line(line)->Ok_0.1;
            &&& channel_of_color(entry.color) == Some(of)
            &&& of != Channel::All
            &&& entries_in(post, Channel::All) == entries_in(pre, Channel::All).push(entry)
            &&& entries_in(post, of) == entries_in(pre, of).push(entry)
            &&& (ch != Channel::All && ch != of) ==> entries_in(post, ch) == entries_in(pre, ch)
        }),
{
    let lines = seq![line];
    assert(lines[0] == line);
    assert(lines.drop_first() =~= Seq::<Seq<char>>::empty());
    let item = parsed_line(line)->Ok_0;
    let items = parsed_lines(lines).0;
    assert(parsed_lines(lines.drop_first()).0 =~= Seq::<Item>::empty());
    assert(items =~= seq![item]);
    assert(items.drop_last() =~= Seq::<Item>::empty());
    assert(items.last() == item);
    let post = polled(pre, date, Some(size), content).0;
    assert(post.channels == stored(cleared(pre.channels), items));
    assert(Channel::at_slot(ch.slot()) == Some(ch));
    assert(Channel::at_slot(item.0.slot()) == Some(item.0));
    assert(Channel::at_slot(Channel::All.slot()) == Some(Channel::All));
    assert(items_for(items.drop_last(), ch) =~= Seq::<EntryView>::empty());
    assert(items_for(items.drop_last(), item.0) =~= Seq::<EntryView>::empty());
    assert(items_for(items.drop_last(), Channel::All) =~= Seq::<EntryView>::empty());
    assert(entries_in(post, Channel::All) =~= entries_in(pre, Channel::All).push(item.1));
    assert(entries_in(post, item.0) =~= entries_in(pre, item.0).push(item.1));
    if ch != Channel::All && ch != item.0 {
        assert(entries_in(post, ch) =~= entries_in(pre, ch));
    }
}

/// While the stored size is 0 the file counts as not yet seen, and a poll
/// stores nothing, whatever the file holds. Such a poll that finds the file,
/// at an instant within the calendar, reports `Idle` and records the file's
/// size; if the file is not empty, a later poll on the same day that finds it
/// grown reads exactly the bytes that were added since.
pub proof fn law_first_poll_sets_baseline(
    pre: AppView,
    date: i64,
    file_size: Option<u64>,
    content: Seq<u8>,
    later: i64,
    later_size: u64,
    ch: Channel,
)
    requires
        seven(pre.channels),
        pre.tail.file_size == 0,
    ensures
        ({
            let post = polled(pre, date, file_size, content);
            &&& entries_in(post.0, ch) == entries_in(pre, ch)
            &&& !flag_in(post.0, ch)
            &&& (file_size is Some && tokyo_time(pre.tail.date as int) is Some && tokyo_time(
                date as int,
            ) is Some) ==> {
                &&& post.1 == Ok::<_, ReadErrorView>(ReadStatus::Idle)
                &&& post.0.tail.file_size == file_size->0
                &&& (0 < file_size->0 < later_size && same_day(date, later)) ==> plan_of(
                    post.0.tail,
                    later,
                    Some(later_size),
                ) == Ok::<_, ReadErrorView>(
                    ReadPlan::Fetch {
                        reopen: false,
                        offset: file_size->0,
                        length: (later_size - file_size->0) as u64,
                        rollover: false,
                    },
                )
            }
        }),
{
}

/// Each colour of the table marks the channel that the table gives it: no
/// line of the table is hidden by another.
pub proof fn law_known_colours()
    ensures
        channel_of_color("#c8ffc8"@) == Some(Channel::Public),
        channel_of_color("#ffffff"@) == Some(Channel::Public),
        channel_of_color("#64ff64"@) == Some(Channel::Private),
        channel_of_color("#f7b73c"@) == Some(Channel::Team),
        channel_of_color("#94ddfa"@) == Some(Channel::Club),
        channel_of_color("#ff64ff"@) == Some(Channel::System),
        channel_of_color("#ff6464"@) == Some(Channel::System),
        channel_of_color("#64ff80"@) == Some(Channel::System),
        channel_of_color("#c896c8"@) == Some(Channel::Server),
{
    reveal_strlit("#c8ffc8");
    reveal_strlit("#ffffff");
    reveal_strlit("#64ff64");
    reveal_strlit("#f7b73c");
    reveal_strlit("#94ddfa");
    reveal_strlit("#ff64ff");
    reveal_strlit("#ff6464");
    reveal_strlit("#64ff80");
    reveal_strlit("#c896c8");
    assert("#c8ffc8"@[1] == 'c' && "#c8ffc8"@[3] == 'f');
    assert("#ffffff"@[1] == 'f' && "#ffffff"@[2] == 'f' && "#ffffff"@[3] == 'f');
    assert("#64ff64"@[1] == '6' && "#64ff64"@[5] == '6');
    assert("#f7b73c"@[1] == 'f' && "#f7b73c"@[2] == '7');
    assert("#94ddfa"@[1] == '9');
    assert("#ff64ff"@[1] == 'f' && "#ff64ff"@[2] == 'f' && "#ff64ff"@[3] == '6' && "#ff64ff"@[5]
        == 'f');
    assert("#ff6464"@[1] == 'f' && "#ff6464"@[2] == 'f' && "#ff6464"@[3] == '6' && "#ff6464"@[5]
        == '6');
    assert("#64ff80"@[1] == '6' && "#64ff80"@[5] == '8');
    assert("#c896c8"@[1] == 'c' && "#c896c8"@[3] == '9');
}

/// A colour marks a channel only if it stands in the table, and it never
/// marks `All`.
pub proof fn law_only_known_colours(color: Seq<char>)
    ensures
        channel_of_color(color) is Some <==> (color == "#c8ffc8"@ || color == "#ffffff"@ || color
            == "#64ff64"@ || color == "#f7b73c"@ || color == "#94ddfa"@ || color == "#ff64ff"@
            || color == "#ff6464"@ || color == "#64ff80"@ || color == "#c896c8"@),
        channel_of_color(color) != Some(Channel::All),
{
}

/// The three rates are one number scaled: the sum over the window's length,
/// rounded down, then times 60, then times 60 again.
pub proof fn law_rates_scale(total: int)
    ensures
        rates_of(total) matches Some(r) ==> r.0 == total / 3 && r.1 == 60 * r.0 && r.2 == 60
            * r.1,
{
}

} // verus!
