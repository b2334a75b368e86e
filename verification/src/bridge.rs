//! The bridge from structural calls to an incremental builder.
//!
//! The builder is foreign: it has a root builder, from which a sequence
//! builder or a map builder can be started, and each of its operations may
//! fail. The bridge does not hold the builders. It keeps track of which one is
//! current and of where the next primitive belongs, decides for each
//! structural call what the builder has to be asked to do, and takes note of
//! how that went.

use vstd::prelude::*;
use crate::error::{Context, Error, Violation};
use crate::stack::Pos;

verus! {

/// The builder that is current.
#[derive(Clone, Copy, Debug, PartialEq, Eq, Structural)]
pub enum Current {
    /// The root builder.
    Serializer,
    /// A sequence builder that was started and not yet ended.
    SerializeSeq,
    /// A map builder that was started and not yet ended.
    SerializeMap,
}

/// An operation of the foreign builder that the bridge asks for.
#[derive(Clone, Copy, Debug, PartialEq, Eq, Structural)]
pub enum Order {
    /// Start a sequence on the root builder, with the length if it is known.
    SerializeSeq(Option<usize>),
    /// Start a map on the root builder, with the length if it is known.
    SerializeMap(Option<usize>),
    /// Serialize the primitive as a key of the active map.
    SerializeKey,
    /// Serialize the primitive as a value of the active map.
    SerializeValue,
    /// Serialize the primitive as an element of the active sequence.
    SerializeElement,
    /// Serialize the primitive on the root builder, which this uses up.
    Serialize,
    /// End the active sequence.
    EndSeq,
    /// End the active map.
    EndMap,
}

/// A structural call that reaches the bridge.
#[derive(Clone, Copy, Debug, PartialEq, Eq, Structural)]
pub enum Event {
    SeqBegin(Option<usize>),
    SeqElem,
    SeqEnd,
    MapBegin(Option<usize>),
    MapKey,
    MapValue,
    MapEnd,
    Primitive,
}

/// The mathematical state of a bridge.
pub struct Bridge<T> {
    /// The output value, once it has been produced.
    pub ok: Option<T>,
    /// Where the next primitive belongs, if that was announced.
    pub pos: Option<Pos>,
    /// The builder that is current; `None` once it was taken.
    pub current: Option<Current>,
}

impl Order {
    /// The operation's name in an error that reports its failure.
    pub open spec fn context(self) -> Context {
        match self {
            Order::SerializeSeq(_) | Order::SerializeMap(_) => Context::Begin,
            Order::SerializeKey => Context::MapKey,
            Order::SerializeValue => Context::MapValue,
            Order::SerializeElement => Context::SeqElem,
            Order::Serialize => Context::Root,
            Order::EndSeq => Context::SeqEnd,
            Order::EndMap => Context::MapEnd,
        }
    }

    /// The context under which a failure of this operation is reported.
    pub fn error_context(&self) -> (res: Context)
        ensures
            res == self.context(),
    {
        match self {
            Order::SerializeSeq(_) | Order::SerializeMap(_) => Context::Begin,
            Order::SerializeKey => Context::MapKey,
            Order::SerializeValue => Context::MapValue,
            Order::SerializeElement => Context::SeqElem,
            Order::Serialize => Context::Root,
            Order::EndSeq => Context::SeqEnd,
            Order::EndMap => Context::MapEnd,
        }
    }
}

impl Current {
    /// What stands in the way of using the slot's content as a `want`: an
    /// empty slot, or a builder of another kind.
    pub open spec fn mismatch(slot: Option<Current>, want: Current) -> Option<Violation> {
        match slot {
            None => Some(Violation::InvalidSerializer),
            Some(c) => if c == want {
                None
            } else {
                Some(Violation::InvalidSerializerValue)
            },
        }
    }

    /// What a check for `want` owes on this builder.
    pub open spec fn checked(self, want: Current, res: Result<(), Error>) -> bool {
        if self == want {
            res is Ok
        } else {
            res == Err::<(), Error>(Error::Protocol(Violation::InvalidSerializerValue))
        }
    }

    fn require(self, want: Current) -> (res: Result<(), Error>)
        ensures
            self.checked(want, res),
    {
        if self == want {
            Ok(())
        } else {
            Err(Error::msg(Violation::InvalidSerializerValue))
        }
    }

    /// Succeeds on the root builder, which the caller then owns.
    pub fn take_serializer(self) -> (res: Result<(), Error>)
        ensures
            self.checked(Current::Serializer, res),
    {
        self.require(Current::Serializer)
    }

    /// Succeeds on an active sequence builder, which stays current.
    pub fn expect_serialize_seq(&self) -> (res: Result<(), Error>)
        ensures
            self.checked(Current::SerializeSeq, res),
    {
        self.require(Current::SerializeSeq)
    }

    /// Succeeds on an active sequence builder, which the caller then owns.
    pub fn take_serialize_seq(self) -> (res: Result<(), Error>)
        ensures
            self.checked(Current::SerializeSeq, res),
    {
        self.require(Current::SerializeSeq)
    }

    /// Succeeds on an active map builder, which stays current.
    pub fn expect_serialize_map(&self) -> (res: Result<(), Error>)
        ensures
            self.checked(Current::SerializeMap, res),
    {
        self.require(Current::SerializeMap)
    }

    /// Succeeds on an active map builder, which the caller then owns.
    pub fn take_serialize_map(self) -> (res: Result<(), Error>)
        ensures
            self.checked(Current::SerializeMap, res),
    {
        self.require(Current::SerializeMap)
    }
}

impl<T> Bridge<T> {
    /// The state at the start of a stream: no output, a value expected at the
    /// root, the root builder current.
    pub open spec fn start() -> Bridge<T> {
        Bridge { ok: None, pos: Some(Pos::Root), current: Some(Current::Serializer) }
    }

    /// Taking the current builder as a `want` and asking for `order`: the
    /// slot is empty afterwards whether or not the builder was of that kind.
    pub open spec fn take_for(self, want: Current, order: Order) -> (
        Bridge<T>,
        Result<Option<Order>, Violation>,
    ) {
        let next = Bridge { current: None, ..self };
        match Current::mismatch(self.current, want) {
            Some(v) => (next, Err(v)),
            None => (next, Ok(Some(order))),
        }
    }

    /// Using the current builder as a `want` for the primitive at hand: the
    /// builder stays, the position is used up.
    pub open spec fn forward_to(self, want: Current, order: Order) -> (
        Bridge<T>,
        Result<Option<Order>, Violation>,
    ) {
        let next = Bridge { pos: None, ..self };
        match Current::mismatch(self.current, want) {
            Some(v) => (next, Err(v)),
            None => (next, Ok(Some(order))),
        }
    }

    /// What the bridge decides on a structural call: its next state, and the
    /// operation to ask of the builder, if any, or the violation.
    pub open spec fn on(self, event: Event) -> (Bridge<T>, Result<Option<Order>, Violation>) {
        match event {
            Event::SeqBegin(len) => self.take_for(Current::Serializer, Order::SerializeSeq(len)),
            Event::MapBegin(len) => self.take_for(Current::Serializer, Order::SerializeMap(len)),
            Event::SeqEnd => self.take_for(Current::SerializeSeq, Order::EndSeq),
            Event::MapEnd => self.take_for(Current::SerializeMap, Order::EndMap),
            Event::SeqElem => (Bridge { pos: Some(Pos::Elem), ..self }, Ok(None)),
            Event::MapKey => (Bridge { pos: Some(Pos::Key), ..self }, Ok(None)),
            Event::MapValue => (Bridge { pos: Some(Pos::Value), ..self }, Ok(None)),
            Event::Primitive => match self.pos {
                Some(Pos::Key) => self.forward_to(Current::SerializeMap, Order::SerializeKey),
                Some(Pos::Value) => self.forward_to(Current::SerializeMap, Order::SerializeValue),
                Some(Pos::Elem) => self.forward_to(Current::SerializeSeq, Order::SerializeElement),
                Some(Pos::Root) => (Bridge { pos: None, ..self }).take_for(
                    Current::Serializer,
                    Order::Serialize,
                ),
                None => (self, Err(Violation::InvalidSerializer)),
            },
        }
    }

    /// The state once the builder has done what `order` asked for, and has
    /// handed out `output` if that completed the value.
    pub open spec fn done(self, order: Order, output: Option<T>) -> Bridge<T> {
        match order {
            Order::SerializeSeq(_) => Bridge { current: Some(Current::SerializeSeq), ..self },
            Order::SerializeMap(_) => Bridge { current: Some(Current::SerializeMap), ..self },
            Order::SerializeKey | Order::SerializeValue | Order::SerializeElement => self,
            Order::Serialize | Order::EndSeq | Order::EndMap => Bridge { ok: output, ..self },
        }
    }

    /// The state after a structural call on a builder that does not fail
    /// and whose every output is `output`.
    pub open spec fn advance(self, event: Event, output: T) -> Result<Bridge<T>, Violation> {
        match self.on(event) {
            (next, Ok(Some(order))) => Ok(next.done(order, Some(output))),
            (next, Ok(None)) => Ok(next),
            (_, Err(v)) => Err(v),
        }
    }

    /// The state after a sequence of structural calls on a builder that does
    /// not fail and whose every output is `output`, or the first violation.
    pub open spec fn drive(self, events: Seq<Event>, output: T) -> Result<Bridge<T>, Violation>
        decreases events.len(),
    {
        if events.len() == 0 {
            Ok(self)
        } else {
            match self.advance(events[0], output) {
                Ok(next) => next.drive(events.subrange(1, events.len() as int), output),
                Err(v) => Err(v),
            }
        }
    }

    /// The operations that the bridge asks for, in order, over a sequence of
    /// structural calls on a builder that does not fail and whose every
    /// output is `output`; it asks for nothing more once a call was illegal.
    pub open spec fn orders(self, events: Seq<Event>, output: T) -> Seq<Order>
        decreases events.len(),
    {
        if events.len() == 0 {
            Seq::empty()
        } else {
            let rest = events.subrange(1, events.len() as int);
            match self.on(events[0]) {
                (next, Ok(Some(order))) => seq![order] + next.done(order, Some(output)).orders(
                    rest,
                    output,
                ),
                (next, Ok(None)) => next.orders(rest, output),
                (_, Err(_)) => Seq::empty(),
            }
        }
    }
}

/// The bridge.
pub struct Stream<T> {
    ok: Option<T>,
    pos: Option<Pos>,
    current: Option<Current>,
}

impl<T> View for Stream<T> {
    type V = Bridge<T>;

    closed spec fn view(&self) -> Bridge<T> {
        Bridge { ok: self.ok, pos: self.pos, current: self.current }
    }
}

impl<T> Stream<T> {
    /// What a structural call owes: the state and the order that
    /// [`Bridge::on`] gives, or its violation as an error.
    pub open spec fn decided(
        pre: Bridge<T>,
        event: Event,
        post: Bridge<T>,
        res: Result<Option<Order>, Error>,
    ) -> bool {
        post == pre.on(event).0 && match pre.on(event).1 {
            Ok(order) => res == Ok::<Option<Order>, Error>(order),
            Err(v) => res == Err::<Option<Order>, Error>(Error::Protocol(v)),
        }
    }

    /// A bridge at the start of a stream, for a root builder that the caller
    /// holds.
    pub fn begin() -> (res: Stream<T>)
        ensures
            res@ == Bridge::<T>::start(),
    {
        Stream { ok: None, pos: Some(Pos::Root), current: Some(Current::Serializer) }
    }

    /// Whether the output value has been produced.
    pub fn has_ok(&self) -> (res: bool)
        ensures
            res == (self@.ok is Some),
    {
        self.ok.is_some()
    }

    /// Where the next primitive belongs, if that was announced.
    pub fn pos(&self) -> (res: Option<Pos>)
        ensures
            res == self@.pos,
    {
        self.pos
    }

    /// Ends the stream and hands out its output value, which must have been
    /// produced.
    pub fn expect_ok(self) -> (res: T)
        requires
            self@.ok is Some,
        ensures
            Some(res) == self@.ok,
    {
        self.ok.unwrap()
    }

    /// Ends the stream and hands out its output value, if it was produced.
    pub fn into_ok(self) -> (res: Option<T>)
        ensures
            res == self@.ok,
    {
        self.ok
    }

    /// Takes the current builder out of the slot.
    pub fn take(&mut self) -> (res: Result<Current, Error>)
        ensures
            final(self)@ == (Bridge { current: None, ..old(self)@ }),
            match old(self)@.current {
                Some(c) => res == Ok::<Current, Error>(c),
                None => res == Err::<Current, Error>(
                    Error::Protocol(Violation::InvalidSerializer),
                ),
            },
    {
        match self.current.take() {
            Some(c) => Ok(c),
            None => Err(Error::msg(Violation::InvalidSerializer)),
        }
    }

    /// Looks at the current builder, which stays in the slot.
    pub fn expect(&self) -> (res: Result<Current, Error>)
        ensures
            match self@.current {
                Some(c) => res == Ok::<Current, Error>(c),
                None => res == Err::<Current, Error>(
                    Error::Protocol(Violation::InvalidSerializer),
                ),
            },
    {
        match self.current {
            Some(c) => Ok(c),
            None => Err(Error::msg(Violation::InvalidSerializer)),
        }
    }

    /// Takes the root builder out of the slot, to have a container started on
    /// it.
    pub fn map_serializer(&mut self, order: Order) -> (res: Result<Option<Order>, Error>)
        ensures
            final(self)@ == old(self)@.take_for(Current::Serializer, order).0,
            match old(self)@.take_for(Current::Serializer, order).1 {
                Ok(o) => res == Ok::<Option<Order>, Error>(o),
                Err(v) => res == Err::<Option<Order>, Error>(Error::Protocol(v)),
            },
    {
        match self.take() {
            Ok(c) => match c.take_serializer() {
                Ok(()) => Ok(Some(order)),
                Err(e) => Err(e),
            },
            Err(e) => Err(e),
        }
    }

    /// A primitive value: it goes where the position says, as a key or a
    /// value of the active map, as an element of the active sequence, or to
    /// the root builder, which is then used up. The position is used up in
    /// every case; with none set the call fails.
    pub fn primitive(&mut self) -> (res: Result<Option<Order>, Error>)
        ensures
            Self::decided(old(self)@, Event::Primitive, final(self)@, res),
    {
        match self.pos.take() {
            Some(Pos::Key) => match self.expect() {
                Ok(c) => match c.expect_serialize_map() {
                    Ok(()) => Ok(Some(Order::SerializeKey)),
                    Err(e) => Err(e),
                },
                Err(e) => Err(e),
            },
            Some(Pos::Value) => match self.expect() {
                Ok(c) => match c.expect_serialize_map() {
                    Ok(()) => Ok(Some(Order::SerializeValue)),
                    Err(e) => Err(e),
                },
                Err(e) => Err(e),
            },
            Some(Pos::Elem) => match self.expect() {
                Ok(c) => match c.expect_serialize_seq() {
                    Ok(()) => Ok(Some(Order::SerializeElement)),
                    Err(e) => Err(e),
                },
                Err(e) => Err(e),
            },
            Some(Pos::Root) => match self.take() {
                Ok(c) => match c.take_serializer() {
                    Ok(()) => Ok(Some(Order::Serialize)),
                    Err(e) => Err(e),
                },
                Err(e) => Err(e),
            },
            None => Err(Error::msg(Violation::InvalidSerializer)),
        }
    }

    /// The start of a sequence: the root builder is taken to start it.
    pub fn seq_begin(&mut self, len: Option<usize>) -> (res: Result<Option<Order>, Error>)
        ensures
            Self::decided(old(self)@, Event::SeqBegin(len), final(self)@, res),
    {
        self.map_serializer(Order::SerializeSeq(len))
    }

    /// An element is next.
    pub fn seq_elem(&mut self) -> (res: Result<Option<Order>, Error>)
        ensures
            Self::decided(old(self)@, Event::SeqElem, final(self)@, res),
    {
        self.pos = Some(Pos::Elem);
        Ok(None)
    }

    /// The end of a sequence: the active sequence builder is taken to end it.
    pub fn seq_end(&mut self) -> (res: Result<Option<Order>, Error>)
        ensures
            Self::decided(old(self)@, Event::SeqEnd, final(self)@, res),
    {
        match self.take() {
            Ok(c) => match c.take_serialize_seq() {
                Ok(()) => Ok(Some(Order::EndSeq)),
                Err(e) => Err(e),
            },
            Err(e) => Err(e),
        }
    }

    /// The start of a map: the root builder is taken to start it.
    pub fn map_begin(&mut self, len: Option<usize>) -> (res: Result<Option<Order>, Error>)
        ensures
            Self::decided(old(self)@, Event::MapBegin(len), final(self)@, res),
    {
        self.map_serializer(Order::SerializeMap(len))
    }

    /// A key is next.
    pub fn map_key(&mut self) -> (res: Result<Option<Order>, Error>)
        ensures
            Self::decided(old(self)@, Event::MapKey, final(self)@, res),
    {
        self.pos = Some(Pos::Key);
        Ok(None)
    }

    /// A value is next.
    pub fn map_value(&mut self) -> (res: Result<Option<Order>, Error>)
        ensures
            Self::decided(old(self)@, Event::MapValue, final(self)@, res),
    {
        self.pos = Some(Pos::Value);
        Ok(None)
    }

    /// The end of a map: the active map builder is taken to end it.
    pub fn map_end(&mut self) -> (res: Result<Option<Order>, Error>)
        ensures
            Self::decided(old(self)@, Event::MapEnd, final(self)@, res),
    {
        match self.take() {
            Ok(c) => match c.take_serialize_map() {
                Ok(()) => Ok(Some(Order::EndMap)),
                Err(e) => Err(e),
            },
            Err(e) => Err(e),
        }
    }

    /// Makes the structural call that `event` names.
    pub fn handle(&mut self, event: Event) -> (res: Result<Option<Order>, Error>)
        ensures
            Self::decided(old(self)@, event, final(self)@, res),
    {
        match event {
            Event::SeqBegin(len) => self.seq_begin(len),
            Event::SeqElem => self.seq_elem(),
            Event::SeqEnd => self.seq_end(),
            Event::MapBegin(len) => self.map_begin(len),
            Event::MapKey => self.map_key(),
            Event::MapValue => self.map_value(),
            Event::MapEnd => self.map_end(),
            Event::Primitive => self.primitive(),
        }
    }

    /// Takes note of how the builder fared with `order`. After a success a
    /// started builder becomes current, and the output of an ended container
    /// or of a root primitive becomes the stream's output. A failure comes
    /// back as an error that names the operation and carries what the builder
    /// reported; the bridge is left as it was.
    pub fn complete(&mut self, order: Order, outcome: Result<Option<T>, String>) -> (res: Result<
        (),
        Error,
    >)
        ensures
            match outcome {
                Ok(output) => res is Ok && final(self)@ == old(self)@.done(order, output),
                Err(detail) => res == Err::<(), Error>(
                    Error::Foreign { context: order.context(), detail },
                ) && final(self)@ == old(self)@,
            },
    {
        match outcome {
            Ok(output) => {
                match order {
                    Order::SerializeSeq(_) => {
                        self.current = Some(Current::SerializeSeq);
                    },
                    Order::SerializeMap(_) => {
                        self.current = Some(Current::SerializeMap);
                    },
                    Order::SerializeKey | Order::SerializeValue | Order::SerializeElement => {},
                    Order::Serialize | Order::EndSeq | Order::EndMap => {
                        self.ok = output;
                    },
                }
                Ok(())
            },
            Err(detail) => Err(Error::foreign(order.error_context(), detail)),
        }
    }
}

} // verus!
