//! Where the validation stack and the bridge meet: the values that both
//! accept.
//!
//! The validation stack accepts the calls of every value. The bridge starts
//! containers on the root builder only, so it accepts a primitive, a sequence
//! of primitives and a map of primitives, and rejects a container inside a
//! container.

use vstd::prelude::*;
use crate::bridge::{Bridge, Event};
use crate::flat::{
    elem_events,
    entry_events,
    lemma_drive_concat,
    lemma_drive_one,
    lemma_map_of_primitives_accepted,
    lemma_root_primitive_accepted,
    lemma_seq_of_primitives_accepted,
    map_events,
    seq_events,
};
use crate::error::Violation;
use crate::shape::{lemma_run_concat, lemma_run_one, lemma_value_accepted, Shape};
use crate::stack::{Call, State};

verus! {

/// The structural call that the validation stack sees for a call that
/// reaches the bridge.
pub open spec fn event_call(event: Event) -> Call {
    match event {
        Event::SeqBegin(_) => Call::SeqBegin,
        Event::SeqElem => Call::SeqElem,
        Event::SeqEnd => Call::SeqEnd,
        Event::MapBegin(_) => Call::MapBegin,
        Event::MapKey => Call::MapKey,
        Event::MapValue => Call::MapValue,
        Event::MapEnd => Call::MapEnd,
        Event::Primitive => Call::Primitive,
    }
}

/// The structural calls that the validation stack sees for a run of calls
/// that reach the bridge.
pub open spec fn calls_of(events: Seq<Event>) -> Seq<Call> {
    Seq::new(events.len(), |i: int| event_call(events[i]))
}

/// The elements of a sequence of `n` primitives.
pub open spec fn leaves(n: nat) -> Seq<Shape> {
    Seq::new(n, |i: int| Shape::Leaf)
}

/// The entries of a map of `n` entries, keys and values primitives.
pub open spec fn leaf_entries(n: nat) -> Seq<(Shape, Shape)> {
    Seq::new(n, |i: int| (Shape::Leaf, Shape::Leaf))
}

proof fn lemma_calls_of_concat(first: Seq<Event>, second: Seq<Event>)
    ensures
        calls_of(first + second) == calls_of(first) + calls_of(second),
{
    assert(calls_of(first + second) =~= calls_of(first) + calls_of(second));
}

proof fn lemma_calls_of_one(event: Event)
    ensures
        calls_of(seq![event]) == seq![event_call(event)],
{
    assert(calls_of(seq![event]) =~= seq![event_call(event)]);
}

proof fn lemma_elem_calls(n: nat, k: nat)
    requires
        k <= n,
    ensures
        calls_of(elem_events(k)) == Shape::item_calls(leaves(n), k),
    decreases k,
{
    if k == 0 {
        assert(calls_of(Seq::<Event>::empty()) =~= Seq::<Call>::empty());
    } else {
        let before = elem_events((k - 1) as nat);
        lemma_elem_calls(n, (k - 1) as nat);
        lemma_calls_of_concat(before, seq![Event::SeqElem]);
        lemma_calls_of_concat(before + seq![Event::SeqElem], seq![Event::Primitive]);
        lemma_calls_of_one(Event::SeqElem);
        lemma_calls_of_one(Event::Primitive);
        assert(leaves(n)[k - 1] == Shape::Leaf);
        assert(Shape::Leaf.calls() == seq![Call::Primitive]);
    }
}

proof fn lemma_entry_calls(n: nat, k: nat)
    requires
        k <= n,
    ensures
        calls_of(entry_events(k)) == Shape::entry_calls(leaf_entries(n), k),
    decreases k,
{
    if k == 0 {
        assert(calls_of(Seq::<Event>::empty()) =~= Seq::<Call>::empty());
    } else {
        let before = entry_events((k - 1) as nat);
        let key = seq![Event::MapKey];
        let p = seq![Event::Primitive];
        let v = seq![Event::MapValue];
        lemma_entry_calls(n, (k - 1) as nat);
        lemma_calls_of_concat(before, key);
        lemma_calls_of_concat(before + key, p);
        lemma_calls_of_concat(before + key + p, v);
        lemma_calls_of_concat(before + key + p + v, p);
        lemma_calls_of_one(Event::MapKey);
        lemma_calls_of_one(Event::Primitive);
        lemma_calls_of_one(Event::MapValue);
        assert(leaf_entries(n)[k - 1] == (Shape::Leaf, Shape::Leaf));
        assert(Shape::Leaf.calls() == seq![Call::Primitive]);
    }
}

/// The calls of a sequence of `n` primitives, as they reach the bridge, are
/// the calls of that shape.
pub proof fn lemma_seq_events_are_calls(len: Option<usize>, n: nat)
    ensures
        calls_of(seq_events(len, n)) == Shape::SeqOf(leaves(n)).calls(),
{
    lemma_elem_calls(n, n);
    lemma_calls_of_concat(seq![Event::SeqBegin(len)], elem_events(n));
    lemma_calls_of_concat(seq![Event::SeqBegin(len)] + elem_events(n), seq![Event::SeqEnd]);
    lemma_calls_of_one(Event::SeqBegin(len));
    lemma_calls_of_one(Event::SeqEnd);
}

/// The calls of a map of `n` entries of primitives, as they reach the
/// bridge, are the calls of that shape.
pub proof fn lemma_map_events_are_calls(len: Option<usize>, n: nat)
    ensures
        calls_of(map_events(len, n)) == Shape::MapOf(leaf_entries(n)).calls(),
{
    lemma_entry_calls(n, n);
    lemma_calls_of_concat(seq![Event::MapBegin(len)], entry_events(n));
    lemma_calls_of_concat(seq![Event::MapBegin(len)] + entry_events(n), seq![Event::MapEnd]);
    lemma_calls_of_one(Event::MapBegin(len));
    lemma_calls_of_one(Event::MapEnd);
}

/// A primitive at the root is accepted by both: the validation stack accepts
/// its call, and the bridge, on a builder that does not fail, accepts it and
/// has the builder's output as its own.
pub proof fn lemma_both_accept_root_primitive<T>(output: T)
    ensures
        calls_of(seq![Event::Primitive]) == Shape::Leaf.calls(),
        State::start().run(calls_of(seq![Event::Primitive])) is Ok,
        Bridge::<T>::start().drive(seq![Event::Primitive], output) is Ok,
        Bridge::<T>::start().drive(seq![Event::Primitive], output)->Ok_0.ok == Some(output),
{
    lemma_calls_of_one(Event::Primitive);
    assert(Shape::Leaf.calls() == seq![Call::Primitive]);
    lemma_value_accepted(State::start(), Shape::Leaf);
    lemma_root_primitive_accepted(output);
}

/// A sequence of primitives, of any length, is accepted by both: the
/// validation stack accepts its calls, and the bridge, on a builder that
/// does not fail, accepts them and has the builder's output as its own.
pub proof fn lemma_both_accept_seq_of_primitives<T>(len: Option<usize>, n: nat, output: T)
    ensures
        calls_of(seq_events(len, n)) == Shape::SeqOf(leaves(n)).calls(),
        State::start().run(calls_of(seq_events(len, n))) is Ok,
        Bridge::<T>::start().drive(seq_events(len, n), output) is Ok,
        Bridge::<T>::start().drive(seq_events(len, n), output)->Ok_0.ok == Some(output),
{
    lemma_seq_events_are_calls(len, n);
    lemma_value_accepted(State::start(), Shape::SeqOf(leaves(n)));
    lemma_seq_of_primitives_accepted(len, n, output);
}

/// A map of primitive keys and values, of any length, is accepted by both:
/// the validation stack accepts its calls, and the bridge, on a builder that
/// does not fail, accepts them and has the builder's output as its own.
pub proof fn lemma_both_accept_map_of_primitives<T>(len: Option<usize>, n: nat, output: T)
    ensures
        calls_of(map_events(len, n)) == Shape::MapOf(leaf_entries(n)).calls(),
        State::start().run(calls_of(map_events(len, n))) is Ok,
        Bridge::<T>::start().drive(map_events(len, n), output) is Ok,
        Bridge::<T>::start().drive(map_events(len, n), output)->Ok_0.ok == Some(output),
{
    lemma_map_events_are_calls(len, n);
    lemma_value_accepted(State::start(), Shape::MapOf(leaf_entries(n)));
    lemma_map_of_primitives_accepted(len, n, output);
}

/// A container inside a container is accepted by the validation stack and
/// rejected by the bridge: with a sequence active, the start of a second one
/// finds no root builder.
pub proof fn lemma_nested_seq_parts_them<T>(outer: Option<usize>, inner: Option<usize>, output: T)
    ensures
        State::start().run(
            seq![Call::SeqBegin, Call::SeqElem] + seq![Call::SeqBegin],
        ) is Ok,
        Bridge::<T>::start().drive(
            seq![Event::SeqBegin(outer), Event::SeqElem] + seq![Event::SeqBegin(inner)],
            output,
        ) == Err::<Bridge<T>, Violation>(Violation::InvalidSerializerValue),
{
    let s = State::start();
    lemma_run_one(s, Call::SeqBegin);
    let s1 = s.after(Call::SeqBegin);
    lemma_run_one(s1, Call::SeqElem);
    let s2 = s1.after(Call::SeqElem);
    lemma_run_one(s2, Call::SeqBegin);
    assert(seq![Call::SeqBegin, Call::SeqElem] == seq![Call::SeqBegin] + seq![Call::SeqElem]);
    lemma_run_concat(s, seq![Call::SeqBegin], seq![Call::SeqElem]);
    lemma_run_concat(
        s,
        seq![Call::SeqBegin] + seq![Call::SeqElem],
        seq![Call::SeqBegin],
    );
    let b = Bridge::<T>::start();
    lemma_drive_one(b, Event::SeqBegin(outer), output);
    let b1 = b.advance(Event::SeqBegin(outer), output)->Ok_0;
    lemma_drive_one(b1, Event::SeqElem, output);
    let b2 = b1.advance(Event::SeqElem, output)->Ok_0;
    lemma_drive_one(b2, Event::SeqBegin(inner), output);
    assert(seq![Event::SeqBegin(outer), Event::SeqElem] == seq![Event::SeqBegin(outer)]
        + seq![Event::SeqElem]);
    lemma_drive_concat(
        b,
        seq![Event::SeqBegin(outer)],
        seq![Event::SeqElem],
        output,
    );
    lemma_drive_concat(
        b,
        seq![Event::SeqBegin(outer)] + seq![Event::SeqElem],
        seq![Event::SeqBegin(inner)],
        output,
    );
}

} // verus!
