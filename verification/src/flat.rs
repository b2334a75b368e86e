//! What the bridge makes of whole values.
//!
//! The bridge starts containers on the root builder only. The values that it
//! can build are therefore flat: a primitive, a sequence of primitives, a map
//! whose keys and values are primitives. On a builder that does not fail it
//! accepts each of them, builds it one to one, and ends up with the builder's
//! output.

use vstd::prelude::*;
use crate::bridge::{Bridge, Current, Event, Order};
use crate::error::Violation;
use crate::stack::Pos;

verus! {

/// The structural calls for the first `n` elements of a sequence of
/// primitives.
pub open spec fn elem_events(n: nat) -> Seq<Event>
    decreases n,
{
    if n == 0 {
        Seq::empty()
    } else {
        elem_events((n - 1) as nat) + seq![Event::SeqElem] + seq![Event::Primitive]
    }
}

/// The structural calls for the first `n` entries of a map of primitives.
pub open spec fn entry_events(n: nat) -> Seq<Event>
    decreases n,
{
    if n == 0 {
        Seq::empty()
    } else {
        entry_events((n - 1) as nat) + seq![Event::MapKey] + seq![Event::Primitive]
            + seq![Event::MapValue] + seq![Event::Primitive]
    }
}

/// The structural calls for a sequence of `n` primitives.
pub open spec fn seq_events(len: Option<usize>, n: nat) -> Seq<Event> {
    seq![Event::SeqBegin(len)] + elem_events(n) + seq![Event::SeqEnd]
}

/// The structural calls for a map of `n` entries, keys and values
/// primitives.
pub open spec fn map_events(len: Option<usize>, n: nat) -> Seq<Event> {
    seq![Event::MapBegin(len)] + entry_events(n) + seq![Event::MapEnd]
}

/// Driving the bridge over two runs in a row is driving it over the second
/// from where the first one ended; a violation in the first ends both.
pub proof fn lemma_drive_concat<T>(b: Bridge<T>, first: Seq<Event>, second: Seq<Event>, output: T)
    ensures
        b.drive(first + second, output) == match b.drive(first, output) {
            Ok(mid) => mid.drive(second, output),
            Err(v) => Err(v),
        },
    decreases first.len(),
{
    if first.len() == 0 {
        assert(first + second == second);
    } else {
        assert((first + second)[0] == first[0]);
        assert((first + second).subrange(1, (first + second).len() as int) == first.subrange(
            1,
            first.len() as int,
        ) + second);
        match b.advance(first[0], output) {
            Ok(next) => {
                lemma_drive_concat(next, first.subrange(1, first.len() as int), second, output);
            },
            Err(_) => {},
        }
    }
}

/// Driving the bridge over one call is one step.
pub proof fn lemma_drive_one<T>(b: Bridge<T>, event: Event, output: T)
    ensures
        b.drive(seq![event], output) == b.advance(event, output),
{
    let events = seq![event];
    assert(events[0] == event);
    assert(events.subrange(1, events.len() as int) == Seq::<Event>::empty());
    match b.advance(event, output) {
        Ok(next) => {
            assert(next.drive(Seq::<Event>::empty(), output) == Ok::<Bridge<T>, Violation>(next));
        },
        Err(_) => {},
    }
}

/// While a sequence builder is current, the elements of a sequence of
/// primitives all go to it, and it stays current.
pub proof fn lemma_elems_forwarded<T>(b: Bridge<T>, n: nat, output: T)
    requires
        b.current == Some(Current::SerializeSeq),
    ensures
        b.drive(elem_events(n), output) == Ok::<Bridge<T>, Violation>(
            Bridge { pos: if n == 0 { b.pos } else { None }, ..b },
        ),
    decreases n,
{
    if n == 0 {
        assert(b.drive(Seq::<Event>::empty(), output) == Ok::<Bridge<T>, Violation>(b));
    } else {
        let before = elem_events((n - 1) as nat);
        lemma_elems_forwarded(b, (n - 1) as nat, output);
        let b1 = b.drive(before, output)->Ok_0;
        lemma_drive_one(b1, Event::SeqElem, output);
        let b2 = b1.advance(Event::SeqElem, output)->Ok_0;
        lemma_drive_one(b2, Event::Primitive, output);
        lemma_drive_concat(b, before, seq![Event::SeqElem], output);
        lemma_drive_concat(b, before + seq![Event::SeqElem], seq![Event::Primitive], output);
    }
}

/// While a map builder is current, the keys and values of a map of
/// primitives all go to it, and it stays current.
pub proof fn lemma_entries_forwarded<T>(b: Bridge<T>, n: nat, output: T)
    requires
        b.current == Some(Current::SerializeMap),
    ensures
        b.drive(entry_events(n), output) == Ok::<Bridge<T>, Violation>(
            Bridge { pos: if n == 0 { b.pos } else { None }, ..b },
        ),
    decreases n,
{
    if n == 0 {
        assert(b.drive(Seq::<Event>::empty(), output) == Ok::<Bridge<T>, Violation>(b));
    } else {
        let before = entry_events((n - 1) as nat);
        lemma_entries_forwarded(b, (n - 1) as nat, output);
        let b1 = b.drive(before, output)->Ok_0;
        lemma_drive_one(b1, Event::MapKey, output);
        let b2 = b1.advance(Event::MapKey, output)->Ok_0;
        lemma_drive_one(b2, Event::Primitive, output);
        let b3 = b2.advance(Event::Primitive, output)->Ok_0;
        lemma_drive_one(b3, Event::MapValue, output);
        let b4 = b3.advance(Event::MapValue, output)->Ok_0;
        lemma_drive_one(b4, Event::Primitive, output);
        let k = seq![Event::MapKey];
        let p = seq![Event::Primitive];
        let v = seq![Event::MapValue];
        lemma_drive_concat(b, before, k, output);
        lemma_drive_concat(b, before + k, p, output);
        lemma_drive_concat(b, before + k + p, v, output);
        lemma_drive_concat(b, before + k + p + v, p, output);
    }
}

/// A primitive at the root of a fresh bridge is accepted: it uses the root
/// builder up, and what the builder hands out is the stream's output.
pub proof fn lemma_root_primitive_accepted<T>(output: T)
    ensures
        Bridge::<T>::start().drive(seq![Event::Primitive], output) == Ok::<Bridge<T>, Violation>(
            Bridge { ok: Some(output), pos: None, current: None },
        ),
{
    lemma_drive_one(Bridge::<T>::start(), Event::Primitive, output);
}

/// A sequence of primitives, of any length, is accepted by a fresh bridge
/// whose builder does not fail: every call succeeds, and what the builder
/// hands out at the end is the stream's output.
pub proof fn lemma_seq_of_primitives_accepted<T>(len: Option<usize>, n: nat, output: T)
    ensures
        Bridge::<T>::start().drive(seq_events(len, n), output) == Ok::<Bridge<T>, Violation>(
            Bridge {
                ok: Some(output),
                pos: if n == 0 { Some(Pos::Root) } else { None },
                current: None,
            },
        ),
{
    let b = Bridge::<T>::start();
    lemma_drive_one(b, Event::SeqBegin(len), output);
    let opened = b.advance(Event::SeqBegin(len), output)->Ok_0;
    lemma_elems_forwarded(opened, n, output);
    let filled = opened.drive(elem_events(n), output)->Ok_0;
    lemma_drive_one(filled, Event::SeqEnd, output);
    lemma_drive_concat(b, seq![Event::SeqBegin(len)], elem_events(n), output);
    lemma_drive_concat(
        b,
        seq![Event::SeqBegin(len)] + elem_events(n),
        seq![Event::SeqEnd],
        output,
    );
}

/// A map of primitive keys and values, of any length, is accepted by a fresh
/// bridge whose builder does not fail: every call succeeds, and what the
/// builder hands out at the end is the stream's output.
pub proof fn lemma_map_of_primitives_accepted<T>(len: Option<usize>, n: nat, output: T)
    ensures
        Bridge::<T>::start().drive(map_events(len, n), output) == Ok::<Bridge<T>, Violation>(
            Bridge {
                ok: Some(output),
                pos: if n == 0 { Some(Pos::Root) } else { None },
                current: None,
            },
        ),
{
    let b = Bridge::<T>::start();
    lemma_drive_one(b, Event::MapBegin(len), output);
    let opened = b.advance(Event::MapBegin(len), output)->Ok_0;
    lemma_entries_forwarded(opened, n, output);
    let filled = opened.drive(entry_events(n), output)->Ok_0;
    lemma_drive_one(filled, Event::MapEnd, output);
    lemma_drive_concat(b, seq![Event::MapBegin(len)], entry_events(n), output);
    lemma_drive_concat(
        b,
        seq![Event::MapBegin(len)] + entry_events(n),
        seq![Event::MapEnd],
        output,
    );
}

/// A container cannot be started through the bridge while another one is
/// active, nor once the root builder is used up: only the root builder
/// starts one. The slot is empty afterwards.
pub proof fn lemma_begin_needs_root_builder<T>(b: Bridge<T>, len: Option<usize>, output: T)
    requires
        b.current != Some(Current::Serializer),
    ensures
        b.advance(Event::SeqBegin(len), output) is Err,
        b.advance(Event::MapBegin(len), output) is Err,
        b.on(Event::SeqBegin(len)).0.current is None,
        b.on(Event::MapBegin(len)).0.current is None,
{
}

/// No structural call sets the output by itself, legal or not: the output
/// only changes when the builder has completed the value. A rejected call
/// asks nothing of the builder either.
pub proof fn lemma_call_commits_no_output<T>(b: Bridge<T>, event: Event, output: T)
    ensures
        b.on(event).0.ok == b.ok,
        b.on(event).1 is Err ==> b.orders(seq![event], output) == Seq::<Order>::empty(),
        b.on(event).1 is Err ==> b.drive(seq![event], output) is Err,
{
    lemma_orders_one(b, event, output);
    lemma_drive_one(b, event, output);
}

/// The operations that `n` elements of a sequence are built with.
pub open spec fn elem_orders(n: nat) -> Seq<Order>
    decreases n,
{
    if n == 0 {
        Seq::empty()
    } else {
        elem_orders((n - 1) as nat) + seq![Order::SerializeElement]
    }
}

/// The operations that `n` entries of a map are built with.
pub open spec fn entry_orders(n: nat) -> Seq<Order>
    decreases n,
{
    if n == 0 {
        Seq::empty()
    } else {
        entry_orders((n - 1) as nat) + seq![Order::SerializeKey] + seq![Order::SerializeValue]
    }
}

/// The operations asked for over two runs in a row are those of the first
/// run, then those of the second from where the first one ended.
pub proof fn lemma_orders_concat<T>(b: Bridge<T>, first: Seq<Event>, second: Seq<Event>, output: T)
    ensures
        b.orders(first + second, output) == b.orders(first, output) + (match b.drive(
            first,
            output,
        ) {
            Ok(mid) => mid.orders(second, output),
            Err(_) => Seq::empty(),
        }),
    decreases first.len(),
{
    if first.len() == 0 {
        assert(first + second == second);
        assert(Seq::<Order>::empty() + b.orders(second, output) == b.orders(second, output));
    } else {
        let rest = first.subrange(1, first.len() as int);
        assert((first + second)[0] == first[0]);
        assert((first + second).subrange(1, (first + second).len() as int) == rest + second);
        match b.on(first[0]) {
            (next, Ok(Some(order))) => {
                let after = next.done(order, Some(output));
                lemma_orders_concat(after, rest, second, output);
                let tail = match after.drive(rest, output) {
                    Ok(mid) => mid.orders(second, output),
                    Err(_) => Seq::empty(),
                };
                assert(seq![order] + (after.orders(rest, output) + tail) == (seq![order]
                    + after.orders(rest, output)) + tail);
            },
            (next, Ok(None)) => {
                lemma_orders_concat(next, rest, second, output);
            },
            (_, Err(_)) => {
                assert(Seq::<Order>::empty() + Seq::<Order>::empty() == Seq::<Order>::empty());
            },
        }
    }
}

/// The operations asked for over one call: the one that the bridge decides
/// on, if any.
pub proof fn lemma_orders_one<T>(b: Bridge<T>, event: Event, output: T)
    ensures
        b.orders(seq![event], output) == match b.on(event).1 {
            Ok(Some(order)) => seq![order],
            _ => Seq::empty(),
        },
{
    let events = seq![event];
    assert(events[0] == event);
    let rest = events.subrange(1, events.len() as int);
    assert(rest == Seq::<Event>::empty());
    match b.on(event) {
        (next, Ok(Some(order))) => {
            assert(next.done(order, Some(output)).orders(rest, output) == Seq::<Order>::empty());
            assert(seq![order] + Seq::<Order>::empty() == seq![order]);
        },
        (next, Ok(None)) => {
            assert(next.orders(rest, output) == Seq::<Order>::empty());
        },
        (_, Err(_)) => {},
    }
}

/// While a sequence builder is current, each element of a sequence of
/// primitives is one `SerializeElement`.
pub proof fn lemma_elems_ordered<T>(b: Bridge<T>, n: nat, output: T)
    requires
        b.current == Some(Current::SerializeSeq),
    ensures
        b.orders(elem_events(n), output) == elem_orders(n),
    decreases n,
{
    if n > 0 {
        let before = elem_events((n - 1) as nat);
        lemma_elems_ordered(b, (n - 1) as nat, output);
        lemma_elems_forwarded(b, (n - 1) as nat, output);
        let b1 = b.drive(before, output)->Ok_0;
        lemma_orders_one(b1, Event::SeqElem, output);
        lemma_drive_one(b1, Event::SeqElem, output);
        let b2 = b1.advance(Event::SeqElem, output)->Ok_0;
        lemma_orders_one(b2, Event::Primitive, output);
        lemma_orders_concat(b, before, seq![Event::SeqElem], output);
        lemma_drive_concat(b, before, seq![Event::SeqElem], output);
        lemma_orders_concat(b, before + seq![Event::SeqElem], seq![Event::Primitive], output);
        assert(elem_orders((n - 1) as nat) + Seq::<Order>::empty() == elem_orders((n - 1) as nat));
    }
}

/// While a map builder is current, each entry of a map of primitives is one
/// `SerializeKey` and then one `SerializeValue`.
pub proof fn lemma_entries_ordered<T>(b: Bridge<T>, n: nat, output: T)
    requires
        b.current == Some(Current::SerializeMap),
    ensures
        b.orders(entry_events(n), output) == entry_orders(n),
    decreases n,
{
    if n > 0 {
        let before = entry_events((n - 1) as nat);
        let done = entry_orders((n - 1) as nat);
        lemma_entries_ordered(b, (n - 1) as nat, output);
        lemma_entries_forwarded(b, (n - 1) as nat, output);
        let k = seq![Event::MapKey];
        let p = seq![Event::Primitive];
        let v = seq![Event::MapValue];
        let b1 = b.drive(before, output)->Ok_0;
        lemma_orders_one(b1, Event::MapKey, output);
        lemma_drive_one(b1, Event::MapKey, output);
        let b2 = b1.advance(Event::MapKey, output)->Ok_0;
        lemma_orders_one(b2, Event::Primitive, output);
        lemma_drive_one(b2, Event::Primitive, output);
        let b3 = b2.advance(Event::Primitive, output)->Ok_0;
        lemma_orders_one(b3, Event::MapValue, output);
        lemma_drive_one(b3, Event::MapValue, output);
        let b4 = b3.advance(Event::MapValue, output)->Ok_0;
        lemma_orders_one(b4, Event::Primitive, output);
        lemma_orders_concat(b, before, k, output);
        lemma_drive_concat(b, before, k, output);
        lemma_orders_concat(b, before + k, p, output);
        lemma_drive_concat(b, before + k, p, output);
        lemma_orders_concat(b, before + k + p, v, output);
        lemma_drive_concat(b, before + k + p, v, output);
        lemma_orders_concat(b, before + k + p + v, p, output);
        assert(done + Seq::<Order>::empty() == done);
        assert(done + seq![Order::SerializeKey] + Seq::<Order>::empty() == done
            + seq![Order::SerializeKey]);
    }
}

/// A primitive at the root is built with one `Serialize` on the root
/// builder.
pub proof fn lemma_root_primitive_ordered<T>(output: T)
    ensures
        Bridge::<T>::start().orders(seq![Event::Primitive], output) == seq![Order::Serialize],
{
    lemma_orders_one(Bridge::<T>::start(), Event::Primitive, output);
}

/// A sequence of `n` primitives is built one to one: the sequence is
/// started with the length that the call gave, each element is serialized
/// once, in order, and the sequence is ended.
pub proof fn lemma_seq_of_primitives_ordered<T>(len: Option<usize>, n: nat, output: T)
    ensures
        Bridge::<T>::start().orders(seq_events(len, n), output) == seq![Order::SerializeSeq(len)]
            + elem_orders(n) + seq![Order::EndSeq],
{
    let b = Bridge::<T>::start();
    let begin = seq![Event::SeqBegin(len)];
    lemma_orders_one(b, Event::SeqBegin(len), output);
    lemma_drive_one(b, Event::SeqBegin(len), output);
    let opened = b.advance(Event::SeqBegin(len), output)->Ok_0;
    lemma_elems_ordered(opened, n, output);
    lemma_elems_forwarded(opened, n, output);
    let filled = opened.drive(elem_events(n), output)->Ok_0;
    lemma_orders_one(filled, Event::SeqEnd, output);
    lemma_orders_concat(b, begin, elem_events(n), output);
    lemma_drive_concat(b, begin, elem_events(n), output);
    lemma_orders_concat(b, begin + elem_events(n), seq![Event::SeqEnd], output);
}

/// A map of `n` entries, keys and values primitives, is built one to one:
/// the map is started with the length that the call gave, each entry is
/// serialized as a key and then a value, in order, and the map is ended.
pub proof fn lemma_map_of_primitives_ordered<T>(len: Option<usize>, n: nat, output: T)
    ensures
        Bridge::<T>::start().orders(map_events(len, n), output) == seq![Order::SerializeMap(len)]
            + entry_orders(n) + seq![Order::EndMap],
{
    let b = Bridge::<T>::start();
    let begin = seq![Event::MapBegin(len)];
    lemma_orders_one(b, Event::MapBegin(len), output);
    lemma_drive_one(b, Event::MapBegin(len), output);
    let opened = b.advance(Event::MapBegin(len), output)->Ok_0;
    lemma_entries_ordered(opened, n, output);
    lemma_entries_forwarded(opened, n, output);
    let filled = opened.drive(entry_events(n), output)->Ok_0;
    lemma_orders_one(filled, Event::MapEnd, output);
    lemma_orders_concat(b, begin, entry_events(n), output);
    lemma_drive_concat(b, begin, entry_events(n), output);
    lemma_orders_concat(b, begin + entry_events(n), seq![Event::MapEnd], output);
}

} // verus!
