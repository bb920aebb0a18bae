//! The event query: which of the deliveries that a time-seeked cursor yields
//! are a user's events within a time window.
use crate::broker::ConsumerCursor;
use crate::error::StreamError;
use crate::event::{delivery_views, event_views, Delivery, DeliveryView, Event, EventView};
use crate::timestamp::{lemma_reads_from_is_earliest, lemma_reads_from_is_held, Timestamp};
use vstd::prelude::*;

verus! {

/// Most messages that a query asks of its cursor in one batch.
pub const QUERY_BATCH: usize = 10000;

/// The rule by which a query takes an event from a delivery.
pub open spec fn taking() -> spec_fn(DeliveryView) -> Option<EventView> {
    |delivery: DeliveryView| delivery.taken()
}

/// How many deliveries a query bounded by `end_time` reads before it stops:
/// the place of the first one beyond the bound, or all of them.
pub open spec fn cut(deliveries: Seq<DeliveryView>, end_time: Option<Timestamp>) -> int
    decreases deliveries.len(),
{
    if deliveries.len() == 0 || deliveries.first().ends(end_time) {
        0
    } else {
        1 + cut(deliveries.drop_first(), end_time)
    }
}

/// The events that a query bounded by `end_time` returns of what its cursor
/// yielded: of the deliveries before the first one beyond the bound, in
/// their order, each event that can be taken.
pub open spec fn selected(deliveries: Seq<DeliveryView>, end_time: Option<Timestamp>) -> Seq<
    EventView,
> {
    deliveries.take(cut(deliveries, end_time)).filter_map(taking())
}

/// `cut` is within the deliveries, none before it lies beyond the bound, and
/// the one at it, if any, does.
pub proof fn lemma_cut_is_first_beyond(deliveries: Seq<DeliveryView>, end_time: Option<Timestamp>)
    ensures
        0 <= cut(deliveries, end_time) <= deliveries.len(),
        forall|j: int|
            0 <= j < cut(deliveries, end_time) ==> !(#[trigger] deliveries[j]).ends(end_time),
        cut(deliveries, end_time) < deliveries.len() ==> deliveries[cut(deliveries, end_time)].ends(
            end_time,
        ),
    decreases deliveries.len(),
{
    if deliveries.len() == 0 || deliveries.first().ends(end_time) {
    } else {
        let rest = deliveries.drop_first();
        lemma_cut_is_first_beyond(rest, end_time);
        assert forall|j: int| 0 <= j < cut(deliveries, end_time) implies !(
        #[trigger] deliveries[j]).ends(end_time) by {
            if j > 0 {
                assert(deliveries[j] == rest[j - 1]);
            }
        }
        assert(cut(deliveries, end_time) < deliveries.len() ==> deliveries[cut(
            deliveries,
            end_time,
        )] == rest[cut(rest, end_time)]);
    }
}

/// The place that `lemma_cut_is_first_beyond` describes is the only one.
pub proof fn lemma_cut_is_unique(
    deliveries: Seq<DeliveryView>,
    end_time: Option<Timestamp>,
    place: int,
)
    requires
        0 <= place <= deliveries.len(),
        forall|j: int| 0 <= j < place ==> !(#[trigger] deliveries[j]).ends(end_time),
        place < deliveries.len() ==> deliveries[place].ends(end_time),
    ensures
        cut(deliveries, end_time) == place,
{
    lemma_cut_is_first_beyond(deliveries, end_time);
    let found = cut(deliveries, end_time);
    if found < place {
        assert(!deliveries[found].ends(end_time));
    } else if place < found {
        assert(!deliveries[place].ends(end_time));
    }
}

/// Taking events commutes with putting two runs of deliveries end to end.
pub proof fn lemma_taking_concat(first: Seq<DeliveryView>, second: Seq<DeliveryView>)
    ensures
        (first + second).filter_map(taking()) == first.filter_map(taking()) + second.filter_map(
            taking(),
        ),
    decreases second.len(),
{
    if second.len() == 0 {
        assert(first + second =~= first);
        assert(first.filter_map(taking()) + second.filter_map(taking()) =~= first.filter_map(
            taking(),
        ));
    } else {
        let whole = first + second;
        assert(whole.drop_last() =~= first + second.drop_last());
        assert(whole.last() == second.last());
        lemma_taking_concat(first, second.drop_last());
        assert((first + second).filter_map(taking()) =~= first.filter_map(taking())
            + second.filter_map(taking()));
    }
}

/// Where the first of two runs of deliveries holds one beyond the bound, the
/// query stops there and the second run adds nothing; else the query returns
/// what it returns of the first, followed by what it returns of the second.
pub proof fn lemma_selected_concat(
    first: Seq<DeliveryView>,
    second: Seq<DeliveryView>,
    end_time: Option<Timestamp>,
)
    ensures
        cut(first, end_time) < first.len() ==> cut(first + second, end_time) == cut(
            first,
            end_time,
        ) && selected(first + second, end_time) == selected(first, end_time),
        cut(first, end_time) == first.len() ==> cut(first + second, end_time) == first.len() + cut(
            second,
            end_time,
        ) && selected(first + second, end_time) == selected(first, end_time) + selected(
            second,
            end_time,
        ),
{
    let whole = first + second;
    let stop = cut(first, end_time);
    lemma_cut_is_first_beyond(first, end_time);
    lemma_cut_is_first_beyond(second, end_time);
    if stop < first.len() {
        assert forall|j: int| 0 <= j < stop implies !(#[trigger] whole[j]).ends(end_time) by {
            assert(whole[j] == first[j]);
        }
        assert(whole[stop] == first[stop]);
        lemma_cut_is_unique(whole, end_time, stop);
        assert(whole.take(stop) =~= first.take(stop));
    } else {
        let more = cut(second, end_time);
        assert forall|j: int| 0 <= j < stop + more implies !(#[trigger] whole[j]).ends(
            end_time,
        ) by {
            if j < stop {
                assert(whole[j] == first[j]);
            } else {
                assert(whole[j] == second[j - stop]);
            }
        }
        if more < second.len() {
            assert(whole[stop + more] == second[more]);
        }
        lemma_cut_is_unique(whole, end_time, stop + more);
        assert(whole.take(stop + more) =~= first + second.take(more));
        assert(first.take(stop) =~= first);
        lemma_taking_concat(first, second.take(more));
    }
}

/// What a query returns of a single delivery: nothing where the delivery
/// lies beyond the bound, else the event that can be taken from it, if any.
pub proof fn lemma_selected_single(delivery: DeliveryView, end_time: Option<Timestamp>)
    ensures
        cut(seq![delivery], end_time) == (if delivery.ends(end_time) {
            0int
        } else {
            1int
        }),
        selected(seq![delivery], end_time) == (if delivery.ends(end_time) {
            Seq::<EventView>::empty()
        } else {
            match delivery.taken() {
                Some(event) => seq![event],
                None => Seq::<EventView>::empty(),
            }
        }),
{
    let one = seq![delivery];
    if delivery.ends(end_time) {
        lemma_cut_is_unique(one, end_time, 0);
        assert(one.take(0).filter_map(taking()) =~= Seq::<EventView>::empty());
    } else {
        lemma_cut_is_unique(one, end_time, 1);
        assert(one.take(1) =~= one);
        Seq::lemma_filter_map_singleton(delivery, taking());
    }
}

/// A query that stops reading at the first delivery beyond its bound loses
/// nothing: of the deliveries up to and including that one it returns what
/// it would return of all of them.
pub proof fn lemma_stopping_early_loses_nothing(
    deliveries: Seq<DeliveryView>,
    end_time: Option<Timestamp>,
    place: int,
)
    requires
        0 <= place < deliveries.len(),
        deliveries[place].ends(end_time),
    ensures
        selected(deliveries.take(place + 1), end_time) == selected(deliveries, end_time),
{
    let read = deliveries.take(place + 1);
    let unread = deliveries.skip(place + 1);
    assert(read + unread =~= deliveries);
    lemma_cut_is_first_beyond(read, end_time);
    if cut(read, end_time) == read.len() {
        assert(!read[place].ends(end_time));
    }
    lemma_selected_concat(read, unread, end_time);
}

/// Whatever the order in which the deliveries come, a query returns no
/// event from beyond its bound: each event that it returns was taken from a
/// delivery that does not lie beyond `end_time`.
pub proof fn lemma_nothing_from_beyond(
    deliveries: Seq<DeliveryView>,
    end_time: Option<Timestamp>,
    event: EventView,
)
    requires
        selected(deliveries, end_time).contains(event),
    ensures
        exists|j: int|
            0 <= j < deliveries.len() && !(#[trigger] deliveries[j]).ends(end_time)
                && deliveries[j].taken() == Some(event),
{
    let read = deliveries.take(cut(deliveries, end_time));
    lemma_cut_is_first_beyond(deliveries, end_time);
    read.lemma_filter_map_contains(taking(), event);
    let taken = choose|t: DeliveryView| #[trigger] read.contains(t) && taking()(t) == Some(event);
    let j = choose|j: int| 0 <= j < read.len() && read[j] == taken;
    assert(deliveries[j] == taken);
}

/// A delivery within the window whose payload is no canonical event but a
/// legacy chat message is returned as the event that the message stands
/// for.
pub proof fn lemma_legacy_is_lifted(delivery: DeliveryView, end_time: Option<Timestamp>)
    requires
        delivery.instant() is Some,
        !delivery.ends(end_time),
        delivery.canonical is None,
        delivery.legacy is Some,
    ensures
        selected(seq![delivery], end_time) == seq![delivery.legacy->Some_0.lifted()],
{
    lemma_selected_single(delivery, end_time);
}

/// A delivery from which no event can be taken, because its instant is
/// unknown or its payload decodes in neither shape, is skipped: the query
/// returns what it would return had the delivery not been there.
pub proof fn lemma_undecodable_is_skipped(
    before: Seq<DeliveryView>,
    delivery: DeliveryView,
    after: Seq<DeliveryView>,
    end_time: Option<Timestamp>,
)
    requires
        delivery.taken() is None,
        !delivery.ends(end_time),
    ensures
        selected(before + seq![delivery] + after, end_time) == selected(before + after, end_time),
{
    let one = seq![delivery];
    lemma_selected_single(delivery, end_time);
    lemma_cut_is_first_beyond(before, end_time);
    lemma_cut_is_first_beyond(before + one, end_time);
    lemma_selected_concat(before, one, end_time);
    lemma_selected_concat(before + one, after, end_time);
    lemma_selected_concat(before, after, end_time);
    assert(selected(before, end_time) + Seq::<EventView>::empty() =~= selected(before, end_time));
}

/// The rule of a cursor that reads from `start_time`: it yields the
/// messages that the broker took at that instant or later.
pub open spec fn since(start_time: Timestamp) -> spec_fn(DeliveryView) -> bool {
    |delivery: DeliveryView|
        match delivery.published {
            Some(at) => at.at_or_after(start_time),
            None => false,
        }
}

/// The messages that the broker took within the window from `start_time`
/// to `end_time`, both included; without an `end_time` the window is open.
pub open spec fn within(start_time: Timestamp, end_time: Option<Timestamp>) -> spec_fn(
    DeliveryView,
) -> bool {
    |delivery: DeliveryView|
        match delivery.published {
            Some(at) => at.at_or_after(start_time) && match end_time {
                Some(end) => !at.later_than(end),
                None => true,
            },
            None => false,
        }
}

/// What a cursor that reads from `start_time` yields of a log: the
/// messages that pass `since`, in the log's order. The broker does this
/// work; the function states what the query relies on.
pub open spec fn yielded_from(log: Seq<DeliveryView>, start_time: Timestamp) -> Seq<DeliveryView> {
    log.filter(since(start_time))
}

/// What a query from `start_time` to `end_time` returns of a log, the
/// cursor yielding what `yielded_from` says from the instant that the query
/// asks it to read from; nothing where there is no query to put,
/// `start_time` lying after every instant of the broker's clock.
pub open spec fn queried(
    log: Seq<DeliveryView>,
    start_time: Timestamp,
    end_time: Option<Timestamp>,
) -> Seq<EventView> {
    match start_time.reads_from() {
        Some(from) => selected(yielded_from(log, from), end_time),
        None => Seq::empty(),
    }
}

/// Every message of `log` is an event that can be taken, and the broker took
/// them in the order of the log: no message earlier than the one before it.
pub open spec fn in_publish_order(log: Seq<DeliveryView>) -> bool {
    &&& forall|i: int| 0 <= i < log.len() ==> (#[trigger] log[i]).taken() is Some
    &&& forall|i: int, j: int|
        0 <= i < j < log.len() ==> !(#[trigger] log[i]).published->Some_0.later_than(
            (#[trigger] log[j]).published->Some_0,
        )
}

/// Every message of `log` bears an instant of the broker's clock, as the
/// broker stamps each message that it takes.
pub open spec fn stamped_by_broker(log: Seq<DeliveryView>) -> bool {
    forall|i: int|
        0 <= i < log.len() ==> match (#[trigger] log[i]).published {
            Some(at) => at.on_offset(),
            None => false,
        }
}

/// Two rules that agree on every message of a log keep the same messages
/// of it.
pub proof fn lemma_filter_agrees(
    log: Seq<DeliveryView>,
    first: spec_fn(DeliveryView) -> bool,
    second: spec_fn(DeliveryView) -> bool,
)
    requires
        forall|i: int| 0 <= i < log.len() ==> first(#[trigger] log[i]) == second(log[i]),
    ensures
        log.filter(first) == log.filter(second),
    decreases log.len(),
{
    if log.len() == 0 {
        assert(log.filter(first) =~= log.filter(second)) by {
            log.lemma_filter_len(first);
            log.lemma_filter_len(second);
        }
    } else {
        let rest = log.drop_last();
        assert forall|i: int| 0 <= i < rest.len() implies first(#[trigger] rest[i]) == second(
            rest[i],
        ) by {
            assert(rest[i] == log[i]);
        }
        lemma_filter_agrees(rest, first, second);
        rest.lemma_filter_push(log.last(), first);
        rest.lemma_filter_push(log.last(), second);
        assert(rest.push(log.last()) =~= log);
        assert(first(log[log.len() - 1]) == second(log[log.len() - 1]));
    }
}

/// Of a log in publish order, a cursor that reads from `start_time` and a
/// query bounded by `end_time` return exactly the events that the broker
/// took within the window, in the log's order.
pub proof fn lemma_window_of_cursor(
    log: Seq<DeliveryView>,
    start_time: Timestamp,
    end_time: Option<Timestamp>,
)
    requires
        in_publish_order(log),
    ensures
        selected(yielded_from(log, start_time), end_time) == log.filter(
            within(start_time, end_time),
        ).map_values(|delivery: DeliveryView| delivery.taken()->Some_0),
    decreases log.len(),
{
    let unwrap = |delivery: DeliveryView| delivery.taken()->Some_0;
    let yielded = yielded_from(log, start_time);
    let inside = within(start_time, end_time);
    if log.len() == 0 {
        assert(yielded =~= Seq::<DeliveryView>::empty());
        lemma_cut_is_unique(yielded, end_time, 0);
        assert(yielded.take(0).filter_map(taking()) =~= Seq::<EventView>::empty());
        assert(log.filter(inside).map_values(unwrap) =~= Seq::<EventView>::empty());
    } else {
        let rest = log.drop_last();
        let last = log.last();
        let earlier = yielded_from(rest, start_time);
        assert(rest.push(last) =~= log);
        assert(in_publish_order(rest)) by {
            assert forall|i: int| 0 <= i < rest.len() implies (#[trigger] rest[i]).taken()
                is Some by {
                assert(rest[i] == log[i]);
            }
            assert forall|i: int, j: int| 0 <= i < j < rest.len() implies !(
            #[trigger] rest[i]).published->Some_0.later_than(
                (#[trigger] rest[j]).published->Some_0,
            ) by {
                assert(rest[i] == log[i]);
                assert(rest[j] == log[j]);
            }
        }
        lemma_window_of_cursor(rest, start_time, end_time);
        rest.lemma_filter_push(last, since(start_time));
        rest.lemma_filter_push(last, inside);
        if since(start_time)(last) {
            assert(earlier.push(last) =~= earlier + seq![last]);
            lemma_selected_single(last, end_time);
            lemma_selected_concat(earlier, seq![last], end_time);
            lemma_cut_is_first_beyond(earlier, end_time);
            if last.ends(end_time) {
                assert(selected(earlier, end_time) + Seq::<EventView>::empty() =~= selected(
                    earlier,
                    end_time,
                ));
            } else {
                if cut(earlier, end_time) < earlier.len() {
                    let beyond = earlier[cut(earlier, end_time)];
                    assert(earlier.contains(beyond));
                    rest.lemma_filter_contains_rev(since(start_time), beyond);
                    let k = choose|k: int| 0 <= k < rest.len() && rest[k] == beyond;
                    assert(log[k] == beyond);
                    assert(log[log.len() - 1] == last);
                    assert(false);
                }
                assert(rest.filter(inside).push(last).map_values(unwrap) =~= rest.filter(
                    inside,
                ).map_values(unwrap).push(last.taken()->Some_0));
            }
        }
    }
}

/// Of a log in publish order, whose messages the broker stamped, a query
/// from `start_time` to `end_time` returns exactly the events that the
/// broker took within the window, in the log's order: none missing, none
/// added, none twice. This holds of every `start_time`, also of one that
/// the broker's clock does not hold.
pub proof fn lemma_time_window(
    log: Seq<DeliveryView>,
    start_time: Timestamp,
    end_time: Option<Timestamp>,
)
    requires
        in_publish_order(log),
        stamped_by_broker(log),
    ensures
        queried(log, start_time, end_time) == log.filter(within(start_time, end_time)).map_values(
            |delivery: DeliveryView| delivery.taken()->Some_0,
        ),
{
    let unwrap = |delivery: DeliveryView| delivery.taken()->Some_0;
    let inside = within(start_time, end_time);
    match start_time.reads_from() {
        Some(from) => {
            lemma_window_of_cursor(log, from, end_time);
            assert forall|i: int| 0 <= i < log.len() implies within(from, end_time)(
                #[trigger] log[i],
            ) == inside(log[i]) by {
                lemma_reads_from_is_earliest(start_time, log[i].published->Some_0);
            }
            lemma_filter_agrees(log, within(from, end_time), inside);
        },
        None => {
            assert forall|e: DeliveryView| log.contains(e) implies !(#[trigger] inside(e)) by {
                let k = choose|k: int| 0 <= k < log.len() && log[k] == e;
                lemma_reads_from_is_earliest(start_time, log[k].published->Some_0);
            }
            log.lemma_all_neg_filter_empty(inside);
            assert(log.filter(inside).map_values(unwrap) =~= Seq::<EventView>::empty());
        },
    }
}

/// Where the first delivery that the cursor yields lies beyond `end_time`,
/// the query reads no further and returns no event.
pub proof fn lemma_end_before_first(deliveries: Seq<DeliveryView>, end_time: Option<Timestamp>)
    requires
        deliveries.len() > 0,
        deliveries.first().ends(end_time),
    ensures
        cut(deliveries, end_time) == 0,
        selected(deliveries, end_time) == Seq::<EventView>::empty(),
{
    assert(deliveries.take(0).filter_map(taking()) =~= Seq::<EventView>::empty());
}

/// Where `start_time` lies after every message of the log, however far,
/// the query returns no event.
pub proof fn lemma_start_after_all(
    log: Seq<DeliveryView>,
    start_time: Timestamp,
    end_time: Option<Timestamp>,
)
    requires
        forall|i: int|
            0 <= i < log.len() ==> match (#[trigger] log[i]).published {
                Some(at) => start_time.later_than(at),
                None => true,
            },
    ensures
        queried(log, start_time, end_time) == Seq::<EventView>::empty(),
{
    match start_time.reads_from() {
        Some(from) => {
            lemma_reads_from_is_held(start_time);
            let yielded = yielded_from(log, from);
            assert forall|e: DeliveryView| log.contains(e) implies !(#[trigger] since(from)(
                e,
            )) by {
                let k = choose|k: int| 0 <= k < log.len() && log[k] == e;
                assert(log[k] == e);
            }
            log.lemma_all_neg_filter_empty(since(from));
            assert(yielded =~= Seq::<DeliveryView>::empty());
            lemma_cut_is_unique(yielded, end_time, 0);
            assert(yielded.take(0).filter_map(taking()) =~= Seq::<EventView>::empty());
        },
        None => {},
    }
}

/// A delivery within the window whose payload is no canonical event but a
/// legacy chat message is returned in its place: where the query reaches
/// it, the event that the message stands for comes after what the query
/// returns of the deliveries before it and before what it returns of
/// those after it.
pub proof fn lemma_legacy_in_place(
    before: Seq<DeliveryView>,
    delivery: DeliveryView,
    after: Seq<DeliveryView>,
    end_time: Option<Timestamp>,
)
    requires
        cut(before, end_time) == before.len(),
        delivery.instant() is Some,
        !delivery.ends(end_time),
        delivery.canonical is None,
        delivery.legacy is Some,
    ensures
        selected(before + seq![delivery] + after, end_time) == selected(before, end_time)
            + seq![delivery.legacy->Some_0.lifted()] + selected(after, end_time),
{
    let one = seq![delivery];
    lemma_selected_single(delivery, end_time);
    lemma_selected_concat(before, one, end_time);
    lemma_selected_concat(before + one, after, end_time);
}

/// Nothing is cut short: of deliveries none of which lies beyond
/// `end_time` and from each of which an event can be taken, however many
/// they are, the query returns the event of each, in order.
pub proof fn lemma_nothing_is_cut_short(deliveries: Seq<DeliveryView>, end_time: Option<Timestamp>)
    requires
        forall|i: int|
            0 <= i < deliveries.len() ==> (#[trigger] deliveries[i]).taken() is Some
                && !deliveries[i].ends(end_time),
    ensures
        selected(deliveries, end_time) == deliveries.map_values(
            |delivery: DeliveryView| delivery.taken()->Some_0,
        ),
        selected(deliveries, end_time).len() == deliveries.len(),
    decreases deliveries.len(),
{
    let unwrap = |delivery: DeliveryView| delivery.taken()->Some_0;
    lemma_cut_is_unique(deliveries, end_time, deliveries.len() as int);
    assert(deliveries.take(deliveries.len() as int) =~= deliveries);
    if deliveries.len() == 0 {
        assert(deliveries.filter_map(taking()) =~= deliveries.map_values(unwrap));
    } else {
        let rest = deliveries.drop_last();
        assert forall|i: int| 0 <= i < rest.len() implies (#[trigger] rest[i]).taken() is Some
            && !rest[i].ends(end_time) by {
            assert(rest[i] == deliveries[i]);
        }
        lemma_nothing_is_cut_short(rest, end_time);
        lemma_cut_is_unique(rest, end_time, rest.len() as int);
        assert(rest.take(rest.len() as int) =~= rest);
        assert(deliveries[deliveries.len() - 1].taken() is Some);
        assert(deliveries.filter_map(taking()) =~= rest.filter_map(taking()).push(
            deliveries.last().taken()->Some_0,
        ));
        assert(deliveries.filter_map(taking()) =~= deliveries.map_values(unwrap));
    }
}

/// What a query asks for next while it reads its cursor.
#[derive(Clone, Copy, Debug, PartialEq, Eq, Structural)]
pub enum Next {
    /// Ask the cursor for a batch of at most this many messages, and hand
    /// over what it yields.
    Fetch(usize),
    /// Hand over the next delivery of the batch, or its end.
    Deliver,
    /// Nothing more is read: the cursor is exhausted or the query has
    /// reached the end of its window.
    Finish,
}

/// What a `Reading` holds.
pub struct ReadingView {
    /// The deliveries read so far, in order.
    pub read: Seq<DeliveryView>,
    /// Whether the batch being read has yielded anything.
    pub yielded: bool,
    /// Whether the reading is over.
    pub done: bool,
}

impl ReadingView {
    /// A reading before its first batch.
    pub open spec fn started() -> ReadingView {
        ReadingView { read: Seq::empty(), yielded: false, done: false }
    }

    /// The reading after `signal`, which is a delivery or, as `None`, the
    /// end of a batch, and what is asked for next. A delivery is kept; the
    /// reading is over with it where it lies beyond `end_time`. At the end
    /// of a batch another is asked for where this one yielded anything;
    /// else the cursor is exhausted and the reading over. Once over, a
    /// reading takes nothing more.
    pub open spec fn next(
        self,
        signal: Option<DeliveryView>,
        end_time: Option<Timestamp>,
        max_messages: usize,
    ) -> (ReadingView, Next) {
        if self.done {
            (self, Next::Finish)
        } else {
            match signal {
                Some(delivery) => if delivery.ends(end_time) {
                    (
                        ReadingView { read: self.read.push(delivery), yielded: true, done: true },
                        Next::Finish,
                    )
                } else {
                    (
                        ReadingView { read: self.read.push(delivery), yielded: true, done: false },
                        Next::Deliver,
                    )
                },
                None => if self.yielded {
                    (ReadingView { yielded: false, ..self }, Next::Fetch(max_messages))
                } else {
                    (ReadingView { done: true, ..self }, Next::Finish)
                },
            }
        }
    }

    /// The reading after the signals of `signals`, in their order.
    pub open spec fn run(
        self,
        signals: Seq<Option<DeliveryView>>,
        end_time: Option<Timestamp>,
        max_messages: usize,
    ) -> ReadingView
        decreases signals.len(),
    {
        if signals.len() == 0 {
            self
        } else {
            self.run(signals.drop_last(), end_time, max_messages).next(
                signals.last(),
                end_time,
                max_messages,
            ).0
        }
    }

    /// No delivery that was read lies beyond `end_time` but, where the
    /// reading is over, the last.
    pub open spec fn stopped_in_time(self, end_time: Option<Timestamp>) -> bool {
        forall|j: int|
            0 <= j < self.read.len() && (#[trigger] self.read[j]).ends(end_time) ==> self.done
                && j == self.read.len() - 1
    }
}

/// The deliveries among `signals`, in their order.
pub open spec fn delivered(signals: Seq<Option<DeliveryView>>) -> Seq<DeliveryView> {
    signals.filter_map(|signal: Option<DeliveryView>| signal)
}

/// Whatever a cursor yields in whatever batches, a reading keeps the
/// deliveries in their order, all of them as long as it is not over, and
/// never reads past one that lies beyond `end_time`.
pub proof fn lemma_reading_stops_in_time(
    signals: Seq<Option<DeliveryView>>,
    end_time: Option<Timestamp>,
    max_messages: usize,
)
    ensures
        ({
            let reading = ReadingView::started().run(signals, end_time, max_messages);
            &&& reading.stopped_in_time(end_time)
            &&& reading.read.len() <= delivered(signals).len()
            &&& reading.read == delivered(signals).take(reading.read.len() as int)
            &&& !reading.done ==> reading.read == delivered(signals)
        }),
    decreases signals.len(),
{
    let pick = |signal: Option<DeliveryView>| signal;
    let reading = ReadingView::started().run(signals, end_time, max_messages);
    if signals.len() == 0 {
        assert(delivered(signals) =~= Seq::<DeliveryView>::empty());
        assert(reading.read =~= delivered(signals).take(0));
    } else {
        let rest = signals.drop_last();
        let before = ReadingView::started().run(rest, end_time, max_messages);
        lemma_reading_stops_in_time(rest, end_time, max_messages);
        assert(delivered(signals) =~= delivered(rest) + (match signals.last() {
            Some(delivery) => seq![delivery],
            None => Seq::<DeliveryView>::empty(),
        }));
        assert(reading.read =~= delivered(signals).take(reading.read.len() as int));
        if !reading.done {
            assert(reading.read =~= delivered(signals));
        }
    }
}

/// A batch's size cuts nothing short: as long as every batch yields
/// something and no delivery lies beyond `end_time`, a reading is not over,
/// holds every delivery, and answers the end of each batch by asking for
/// another.
pub proof fn lemma_reading_goes_on(
    signals: Seq<Option<DeliveryView>>,
    end_time: Option<Timestamp>,
    max_messages: usize,
)
    requires
        forall|i: int|
            0 <= i < signals.len() ==> match #[trigger] signals[i] {
                Some(delivery) => !delivery.ends(end_time),
                None => i > 0 && signals[i - 1] is Some,
            },
    ensures
        ({
            let reading = ReadingView::started().run(signals, end_time, max_messages);
            &&& !reading.done
            &&& reading.read == delivered(signals)
            &&& reading.yielded == (signals.len() > 0 && signals.last() is Some)
            &&& signals.len() > 0 && signals.last() is None ==> ReadingView::started().run(
                signals.drop_last(),
                end_time,
                max_messages,
            ).next(None, end_time, max_messages).1 == Next::Fetch(max_messages)
        }),
    decreases signals.len(),
{
    lemma_reading_stops_in_time(signals, end_time, max_messages);
    if signals.len() > 0 {
        let rest = signals.drop_last();
        assert forall|i: int| 0 <= i < rest.len() implies match #[trigger] rest[i] {
            Some(delivery) => !delivery.ends(end_time),
            None => i > 0 && rest[i - 1] is Some,
        } by {
            assert(rest[i] == signals[i]);
            if i > 0 {
                assert(rest[i - 1] == signals[i - 1]);
            }
        }
        lemma_reading_goes_on(rest, end_time, max_messages);
        let last = signals.len() - 1;
        assert(signals[last] == signals.last());
        if signals.last() is None {
            assert(rest[last - 1] == signals[last - 1]);
            assert(rest.last() == rest[last - 1]);
        }
    }
}

/// What a query has read of its cursor.
#[derive(Debug)]
pub struct Reading {
    deliveries: Vec<Delivery>,
    yielded: bool,
    done: bool,
}

impl View for Reading {
    type V = ReadingView;

    closed spec fn view(&self) -> ReadingView {
        ReadingView {
            read: delivery_views(self.deliveries@),
            yielded: self.yielded,
            done: self.done,
        }
    }
}

/// What the broker answered to a query's cursor.
#[derive(Debug)]
pub enum Fetched {
    /// The broker refused to make the cursor; its words.
    Refused(String),
    /// The broker failed to hand out a batch.
    Failed(async_nats::error::Error<async_nats::jetstream::consumer::pull::BatchErrorKind>),
    /// What the cursor yielded until it was exhausted or the query stopped
    /// reading, in order.
    Batch(Vec<Delivery>),
}

/// A query for a user's events, ready to be put to the broker.
#[derive(Debug)]
pub struct EventQuery {
    /// Name of the log that is queried.
    pub log: String,
    /// The cursor to create on the log: private, read-only, and seeked to the
    /// start of the window.
    pub cursor: ConsumerCursor,
    /// Most messages to ask for in one batch.
    pub max_messages: usize,
    /// End of the window, where it has one.
    pub end_time: Option<Timestamp>,
}

impl Reading {
    /// What was read, as the broker's answer to the query.
    pub fn into_fetched(self) -> (fetched: Fetched)
        ensures
            fetched matches Fetched::Batch(deliveries) && delivery_views(deliveries@) == self@.read,
    {
        Fetched::Batch(self.deliveries)
    }
}

impl EventQuery {
    /// Begins to read the query's cursor: nothing is read yet, and the
    /// first batch is asked for.
    pub fn start(&self) -> (begun: (Reading, Next))
        ensures
            begun.0@ == ReadingView::started(),
            begun.1 == Next::Fetch(self.max_messages),
    {
        let reading = Reading { deliveries: Vec::new(), yielded: false, done: false };
        assert(reading@.read =~= Seq::<DeliveryView>::empty());
        (reading, Next::Fetch(self.max_messages))
    }

    /// Takes what the cursor yielded next, a delivery or, as `None`, the end
    /// of a batch, and says what to ask for; see `ReadingView::next`.
    pub fn read(&self, reading: &mut Reading, signal: Option<Delivery>) -> (next: Next)
        ensures
            (final(reading)@, next) == old(reading)@.next(
                match signal {
                    Some(delivery) => Some(delivery@),
                    None => None,
                },
                self.end_time,
                self.max_messages,
            ),
    {
        if reading.done {
            return Next::Finish;
        }
        match signal {
            Some(delivery) => {
                let ghost before = reading.deliveries@;
                let beyond = delivery.is_past(self.end_time);
                reading.deliveries.push(delivery);
                reading.yielded = true;
                reading.done = beyond;
                assert(delivery_views(reading.deliveries@) =~= delivery_views(before).push(
                    delivery@,
                ));
                if beyond {
                    Next::Finish
                } else {
                    Next::Deliver
                }
            },
            None => {
                if reading.yielded {
                    reading.yielded = false;
                    Next::Fetch(self.max_messages)
                } else {
                    reading.done = true;
                    Next::Finish
                }
            },
        }
    }

    /// The events of `deliveries` that lie within the window.
    pub fn select(&self, deliveries: &Vec<Delivery>) -> (events: Vec<Event>)
        ensures
            event_views(events@) == selected(delivery_views(deliveries@), self.end_time),
    {
        let ghost views = delivery_views(deliveries@);
        let mut events: Vec<Event> = Vec::new();
        let mut i: usize = 0;
        assert(views.take(0).filter_map(taking()) =~= Seq::<EventView>::empty());
        while i < deliveries.len()
            invariant_except_break
                event_views(events@) =~= views.take(i as int).filter_map(taking()),
            invariant
                i <= deliveries.len(),
                views == delivery_views(deliveries@),
                forall|j: int| 0 <= j < i ==> !(#[trigger] views[j]).ends(self.end_time),
            ensures
                i < deliveries.len() ==> views[i as int].ends(self.end_time),
                event_views(events@) =~= views.take(i as int).filter_map(taking()),
            decreases deliveries.len() - i,
        {
            let delivery = &deliveries[i];
            assert(views[i as int] == delivery@);
            let ghost before = events@;
            match delivery.instant() {
                Some(at) => {
                    let beyond = match self.end_time {
                        Some(end) => at.is_after(&end),
                        None => false,
                    };
                    if beyond {
                        break ;
                    }
                    match delivery.decode() {
                        Some(event) => {
                            events.push(event);
                            assert(event_views(events@) =~= event_views(before).push(event@));
                        },
                        None => {},
                    }
                },
                None => {},
            }
            proof {
                views.lemma_filter_map_take_succ(taking(), i as int);
            }
            i += 1;
        }
        proof {
            lemma_cut_is_unique(views, self.end_time, i as int);
        }
        events
    }

    /// The result of the query, given the broker's answer: the broker's
    /// refusal or failure as this library's error, else the events of the
    /// deliveries that lie within the window.
    pub fn collect(&self, fetched: Fetched) -> (r: Result<Vec<Event>, StreamError>)
        ensures
            match fetched {
                Fetched::Refused(reason) => r == Err::<Vec<Event>, StreamError>(
                    StreamError::InvalidConnection(reason),
                ),
                Fetched::Failed(error) => r == Err::<Vec<Event>, StreamError>(
                    StreamError::Batch(error),
                ),
                Fetched::Batch(deliveries) => r is Ok && event_views(r->Ok_0@) == selected(
                    delivery_views(deliveries@),
                    self.end_time,
                ),
            },
    {
        match fetched {
            Fetched::Refused(reason) => Err(StreamError::InvalidConnection(reason)),
            Fetched::Failed(error) => Err(StreamError::Batch(error)),
            Fetched::Batch(deliveries) => Ok(self.select(&deliveries)),
        }
    }
}

} // verus!
