//! Well-formed runs of structural calls, and what the validation stack makes
//! of them.
//!
//! A well-formed run is the trace of a value: a primitive, a map whose every
//! key is followed by its value, or a sequence of elements, each of them a
//! value again. The validation stack accepts every such trace, and a run that
//! holds an illegal call is rejected at that call.

use vstd::prelude::*;
use crate::error::Violation;
use crate::stack::{Call, Frame, State};

verus! {

/// The shape of a value: what remains of it when the primitives' contents
/// are left out.
pub enum Shape {
    /// A primitive.
    Leaf,
    /// A map, as its entries: each a key and a value.
    MapOf(Seq<(Shape, Shape)>),
    /// A sequence, as its elements.
    SeqOf(Seq<Shape>),
}

impl Shape {
    /// The structural calls that describe a value of this shape.
    pub open spec fn calls(self) -> Seq<Call>
        decreases self, 0nat,
    {
        match self {
            Shape::Leaf => seq![Call::Primitive],
            Shape::MapOf(entries) => seq![Call::MapBegin] + Self::entry_calls(
                entries,
                entries.len(),
            ) + seq![Call::MapEnd],
            Shape::SeqOf(items) => seq![Call::SeqBegin] + Self::item_calls(items, items.len())
                + seq![Call::SeqEnd],
        }
    }

    /// The calls that describe the first `n` entries of a map.
    pub open spec fn entry_calls(entries: Seq<(Shape, Shape)>, n: nat) -> Seq<Call>
        decreases entries, n,
    {
        if n == 0 || n > entries.len() {
            Seq::empty()
        } else {
            Self::entry_calls(entries, (n - 1) as nat) + seq![Call::MapKey] + entries[n
                - 1].0.calls() + seq![Call::MapValue] + entries[n - 1].1.calls()
        }
    }

    /// The calls that describe the first `n` elements of a sequence.
    pub open spec fn item_calls(items: Seq<Shape>, n: nat) -> Seq<Call>
        decreases items, n,
    {
        if n == 0 || n > items.len() {
            Seq::empty()
        } else {
            Self::item_calls(items, (n - 1) as nat) + seq![Call::SeqElem] + items[n - 1].calls()
        }
    }

    /// The calls of a whole stream that carries one value of this shape.
    pub open spec fn stream(self) -> Seq<Call> {
        seq![Call::Begin] + self.calls() + seq![Call::End]
    }
}

/// Whether a value may start in the state: at the root, or where a key, a
/// value or an element was announced.
pub open spec fn value_expected(s: State) -> bool {
    s.frames.len() == 0 || s.pos is Some
}

/// A run over two runs in a row is the run over the second from where the
/// first one ended; a violation in the first ends both.
pub proof fn lemma_run_concat(s: State, a: Seq<Call>, b: Seq<Call>)
    ensures
        s.run(a + b) == match s.run(a) {
            Ok(mid) => mid.run(b),
            Err(v) => Err(v),
        },
    decreases a.len(),
{
    if a.len() == 0 {
        assert(a + b == b);
    } else {
        assert((a + b)[0] == a[0]);
        assert((a + b).subrange(1, (a + b).len() as int) == a.subrange(1, a.len() as int) + b);
        match s.step(a[0]) {
            Ok(next) => {
                lemma_run_concat(next, a.subrange(1, a.len() as int), b);
            },
            Err(_) => {},
        }
    }
}

/// A run of one call is one step.
pub proof fn lemma_run_one(s: State, call: Call)
    ensures
        s.run(seq![call]) == s.step(call),
{
    let calls = seq![call];
    assert(calls[0] == call);
    assert(calls.subrange(1, calls.len() as int) == Seq::<Call>::empty());
    match s.step(call) {
        Ok(next) => {
            assert(next.run(Seq::<Call>::empty()) == Ok::<State, Violation>(next));
        },
        Err(_) => {},
    }
}

/// Where a value may start, the calls of any shape are accepted. They leave
/// the open containers as they were and use the position up.
pub proof fn lemma_value_accepted(s: State, shape: Shape)
    requires
        value_expected(s),
    ensures
        s.run(shape.calls()) == Ok::<State, Violation>(State { frames: s.frames, pos: None }),
    decreases shape, 0nat,
{
    match shape {
        Shape::Leaf => {
            lemma_run_one(s, Call::Primitive);
        },
        Shape::MapOf(entries) => {
            let body = Shape::entry_calls(entries, entries.len());
            let opened = s.after(Call::MapBegin);
            lemma_run_one(s, Call::MapBegin);
            lemma_entries_accepted(opened, entries, entries.len());
            let filled = opened.run(body)->Ok_0;
            lemma_run_one(filled, Call::MapEnd);
            assert(filled.frames.drop_last() == s.frames);
            lemma_run_concat(s, seq![Call::MapBegin], body);
            lemma_run_concat(s, seq![Call::MapBegin] + body, seq![Call::MapEnd]);
        },
        Shape::SeqOf(items) => {
            let body = Shape::item_calls(items, items.len());
            let opened = s.after(Call::SeqBegin);
            lemma_run_one(s, Call::SeqBegin);
            lemma_items_accepted(opened, items, items.len());
            let filled = opened.run(body)->Ok_0;
            lemma_run_one(filled, Call::SeqEnd);
            assert(filled.frames.drop_last() == s.frames);
            lemma_run_concat(s, seq![Call::SeqBegin], body);
            lemma_run_concat(s, seq![Call::SeqBegin] + body, seq![Call::SeqEnd]);
        },
    }
}

/// In an open map that awaits a key, the calls of any entries are accepted,
/// and the map awaits a key again after them.
pub proof fn lemma_entries_accepted(s: State, entries: Seq<(Shape, Shape)>, n: nat)
    requires
        n <= entries.len(),
        s.frames.len() > 0,
        s.top() == (Frame::InMap { awaits_value: false }),
    ensures
        s.run(Shape::entry_calls(entries, n)) is Ok,
        s.run(Shape::entry_calls(entries, n))->Ok_0.frames == s.frames,
    decreases entries, n,
{
    if n == 0 {
        assert(s.run(Seq::<Call>::empty()) == Ok::<State, Violation>(s));
    } else {
        let before = Shape::entry_calls(entries, (n - 1) as nat);
        let key = entries[n - 1].0;
        let value = entries[n - 1].1;
        lemma_entries_accepted(s, entries, (n - 1) as nat);
        let s1 = s.run(before)->Ok_0;
        lemma_run_one(s1, Call::MapKey);
        let s2 = s1.after(Call::MapKey);
        lemma_value_accepted(s2, key);
        let s3 = State { frames: s2.frames, pos: None };
        lemma_run_one(s3, Call::MapValue);
        let s4 = s3.after(Call::MapValue);
        lemma_value_accepted(s4, value);
        assert(s4.frames == s.frames);
        lemma_run_concat(s, before, seq![Call::MapKey]);
        lemma_run_concat(s, before + seq![Call::MapKey], key.calls());
        lemma_run_concat(s, before + seq![Call::MapKey] + key.calls(), seq![Call::MapValue]);
        lemma_run_concat(
            s,
            before + seq![Call::MapKey] + key.calls() + seq![Call::MapValue],
            value.calls(),
        );
    }
}

/// In an open sequence, the calls of any elements are accepted, and the
/// sequence is the innermost open container again after them.
pub proof fn lemma_items_accepted(s: State, items: Seq<Shape>, n: nat)
    requires
        n <= items.len(),
        s.frames.len() > 0,
        s.top() is InSeq,
    ensures
        s.run(Shape::item_calls(items, n)) is Ok,
        s.run(Shape::item_calls(items, n))->Ok_0.frames.len() == s.frames.len(),
        s.run(Shape::item_calls(items, n))->Ok_0.frames.drop_last() == s.frames.drop_last(),
        s.run(Shape::item_calls(items, n))->Ok_0.top() is InSeq,
    decreases items, n,
{
    if n == 0 {
        assert(s.run(Seq::<Call>::empty()) == Ok::<State, Violation>(s));
    } else {
        let before = Shape::item_calls(items, (n - 1) as nat);
        let item = items[n - 1];
        lemma_items_accepted(s, items, (n - 1) as nat);
        let s1 = s.run(before)->Ok_0;
        lemma_run_one(s1, Call::SeqElem);
        let s2 = s1.after(Call::SeqElem);
        lemma_value_accepted(s2, item);
        assert(s2.frames.drop_last() == s1.frames.drop_last());
        lemma_run_concat(s, before, seq![Call::SeqElem]);
        lemma_run_concat(s, before + seq![Call::SeqElem], item.calls());
    }
}

/// The validation stack accepts the stream of every value: from a fresh
/// stack, `begin`, the calls of any shape and `end` all succeed, and nothing
/// is left open.
pub proof fn lemma_well_formed_stream_accepted(shape: Shape)
    ensures
        State::start().run(shape.stream()) == Ok::<State, Violation>(
            State { frames: Seq::empty(), pos: None },
        ),
{
    let s = State::start();
    lemma_run_one(s, Call::Begin);
    lemma_value_accepted(s, shape);
    let closed = State { frames: s.frames, pos: None };
    lemma_run_one(closed, Call::End);
    lemma_run_concat(s, seq![Call::Begin], shape.calls());
    lemma_run_concat(s, seq![Call::Begin] + shape.calls(), seq![Call::End]);
}

/// A run that holds an illegal call is rejected with that call's violation:
/// where the calls before index `i` are accepted and the call at `i` is
/// illegal in the state they lead to, the whole run fails with its violation,
/// whatever follows.
pub proof fn lemma_malformed_run_rejected(s: State, calls: Seq<Call>, i: int)
    requires
        0 <= i < calls.len(),
        s.run(calls.take(i)) is Ok,
        s.run(calls.take(i))->Ok_0.violation(calls[i]) is Some,
    ensures
        s.run(calls) == Err::<State, Violation>(
            s.run(calls.take(i))->Ok_0.violation(calls[i])->Some_0,
        ),
{
    let head = calls.take(i);
    let tail = calls.skip(i);
    let mid = s.run(head)->Ok_0;
    assert(calls == head + tail);
    assert(tail[0] == calls[i]);
    lemma_run_concat(s, head, tail);
}

/// The illegal calls that come from an unmatched call: a value announced in
/// a map that got no key, a sequence closed where none is innermost, and a
/// stream ended while a container is open.
pub proof fn lemma_unmatched_calls_rejected(s: State)
    ensures
        !(s.frames.len() > 0 && s.top() == (Frame::InMap { awaits_value: true })) ==> s.step(
            Call::MapValue,
        ) == Err::<State, Violation>(Violation::MapValueWithoutKey),
        !(s.frames.len() > 0 && s.top() is InSeq) ==> s.step(Call::SeqEnd) == Err::<
            State,
            Violation,
        >(Violation::SeqEndOutsideSeq),
        s.frames.len() > 0 ==> s.step(Call::End) == Err::<State, Violation>(
            Violation::EndWithOpenContainers,
        ),
{
}

} // verus!
