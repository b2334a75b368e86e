//! The validation stack: a pushdown automaton over open containers that
//! accepts exactly the legal orders of structural calls.

use vstd::prelude::*;
use crate::error::{Error, Violation};

verus! {

/// Where the next primitive value belongs.
#[derive(Clone, Copy, Debug, PartialEq, Eq, Structural)]
pub enum Pos {
    Root,
    Key,
    Value,
    Elem,
}

/// An open container, with what it takes to know its next legal call.
#[derive(Clone, Copy, Debug, PartialEq, Eq, Structural)]
pub enum Frame {
    /// An open map; `awaits_value` holds between `map_key` and `map_value`.
    InMap { awaits_value: bool },
    /// An open sequence; `touched` holds once an element was announced.
    InSeq { touched: bool },
}

/// A structural call.
#[derive(Clone, Copy, Debug, PartialEq, Eq, Structural)]
pub enum Call {
    Begin,
    Primitive,
    MapBegin,
    MapKey,
    MapValue,
    MapEnd,
    SeqBegin,
    SeqElem,
    SeqEnd,
    End,
}

/// The mathematical state of a validation stack: the open containers,
/// outermost first, and the position announced for the next value, if any.
pub struct State {
    pub frames: Seq<Frame>,
    pub pos: Option<Pos>,
}

impl State {
    /// The state of a fresh stack: nothing open, a value expected at the root.
    pub open spec fn start() -> State {
        State { frames: Seq::empty(), pos: Some(Pos::Root) }
    }

    /// The innermost open container.
    pub open spec fn top(self) -> Frame
        recommends
            self.frames.len() > 0,
    {
        self.frames.last()
    }

    /// The state with its innermost container replaced and the position set.
    pub open spec fn retop(self, frame: Frame, pos: Option<Pos>) -> State {
        State { frames: self.frames.drop_last().push(frame), pos }
    }

    /// The violation that the call commits in this state, if it is illegal.
    pub open spec fn violation(self, call: Call) -> Option<Violation> {
        let open = self.frames.len() > 0;
        match call {
            Call::Begin => if open { Some(Violation::BeginInsideContainer) } else { None },
            Call::Primitive => if open && self.pos is None {
                Some(Violation::PrimitiveWithoutPosition)
            } else {
                None
            },
            Call::MapBegin | Call::SeqBegin => None,
            Call::MapKey => if open && self.top() == (Frame::InMap { awaits_value: false }) {
                None
            } else {
                Some(Violation::MapKeyNotExpected)
            },
            Call::MapValue => if open && self.top() == (Frame::InMap { awaits_value: true }) {
                None
            } else {
                Some(Violation::MapValueWithoutKey)
            },
            Call::MapEnd => if open && self.top() == (Frame::InMap { awaits_value: false }) {
                None
            } else {
                Some(Violation::MapEndNotExpected)
            },
            Call::SeqElem => if open && self.top() is InSeq {
                None
            } else {
                Some(Violation::SeqElemOutsideSeq)
            },
            Call::SeqEnd => if open && self.top() is InSeq {
                None
            } else {
                Some(Violation::SeqEndOutsideSeq)
            },
            Call::End => if open { Some(Violation::EndWithOpenContainers) } else { None },
        }
    }

    /// The state that a legal call leads to.
    pub open spec fn after(self, call: Call) -> State
        recommends
            self.violation(call) is None,
    {
        match call {
            Call::Begin => State { frames: self.frames, pos: Some(Pos::Root) },
            Call::Primitive => State { frames: self.frames, pos: None },
            Call::MapBegin => State {
                frames: self.frames.push(Frame::InMap { awaits_value: false }),
                pos: None,
            },
            Call::SeqBegin => State {
                frames: self.frames.push(Frame::InSeq { touched: false }),
                pos: None,
            },
            Call::MapKey => self.retop(Frame::InMap { awaits_value: true }, Some(Pos::Key)),
            Call::MapValue => self.retop(Frame::InMap { awaits_value: false }, Some(Pos::Value)),
            Call::SeqElem => self.retop(Frame::InSeq { touched: true }, Some(Pos::Elem)),
            Call::MapEnd | Call::SeqEnd => State { frames: self.frames.drop_last(), pos: None },
            Call::End => State { frames: self.frames, pos: None },
        }
    }

    /// One step of the automaton: the next state, or the violation.
    pub open spec fn step(self, call: Call) -> Result<State, Violation> {
        match self.violation(call) {
            Some(v) => Err(v),
            None => Ok(self.after(call)),
        }
    }

    /// The automaton run over a sequence of calls; it stops at the first
    /// violation.
    pub open spec fn run(self, calls: Seq<Call>) -> Result<State, Violation>
        decreases calls.len(),
    {
        if calls.len() == 0 {
            Ok(self)
        } else {
            match self.step(calls[0]) {
                Ok(next) => next.run(calls.subrange(1, calls.len() as int)),
                Err(v) => Err(v),
            }
        }
    }
}

/// The validation stack.
pub struct Stack {
    frames: Vec<Frame>,
    pos: Option<Pos>,
}

impl View for Stack {
    type V = State;

    closed spec fn view(&self) -> State {
        State { frames: self.frames@, pos: self.pos }
    }
}

impl Stack {
    /// What a call owes: on a legal call success and the next state, on an
    /// illegal one its violation and the state untouched.
    pub open spec fn stepped(pre: State, call: Call, post: State, res: Result<(), Error>) -> bool {
        match pre.step(call) {
            Ok(next) => res is Ok && post == next,
            Err(v) => res == Err::<(), Error>(Error::Protocol(v)) && post == pre,
        }
    }

    /// A stack with nothing open, expecting a value at the root.
    pub fn new() -> (res: Stack)
        ensures
            res@ == State::start(),
    {
        Stack { frames: Vec::new(), pos: Some(Pos::Root) }
    }

    /// The number of open containers.
    pub fn depth(&self) -> (res: usize)
        ensures
            res == self@.frames.len(),
    {
        self.frames.len()
    }

    /// The position announced for the next value, if any.
    pub fn pos(&self) -> (res: Option<Pos>)
        ensures
            res == self@.pos,
    {
        self.pos
    }

    /// The innermost open container, if any.
    pub fn current(&self) -> (res: Option<Frame>)
        ensures
            self@.frames.len() == 0 ==> res is None,
            self@.frames.len() > 0 ==> res == Some(self@.top()),
    {
        let n: usize = self.frames.len();
        if n == 0 {
            None
        } else {
            Some(self.frames[n - 1])
        }
    }

    /// Starts a stream; legal while no container is open.
    pub fn begin(&mut self) -> (res: Result<(), Error>)
        ensures
            Self::stepped(old(self)@, Call::Begin, final(self)@, res),
    {
        if self.frames.len() > 0 {
            return Err(Error::msg(Violation::BeginInsideContainer));
        }
        self.pos = Some(Pos::Root);
        Ok(())
    }

    /// A primitive value; legal at the root, and inside a container once a
    /// key, value or element was announced. It uses the position up.
    pub fn primitive(&mut self) -> (res: Result<(), Error>)
        ensures
            Self::stepped(old(self)@, Call::Primitive, final(self)@, res),
    {
        if self.frames.len() > 0 && self.pos.is_none() {
            return Err(Error::msg(Violation::PrimitiveWithoutPosition));
        }
        self.pos = None;
        Ok(())
    }

    /// Opens a map; legal anywhere.
    pub fn map_begin(&mut self) -> (res: Result<(), Error>)
        ensures
            Self::stepped(old(self)@, Call::MapBegin, final(self)@, res),
    {
        self.frames.push(Frame::InMap { awaits_value: false });
        self.pos = None;
        Ok(())
    }

    /// Announces a key; legal when the innermost container is a map awaiting
    /// a key.
    pub fn map_key(&mut self) -> (res: Result<(), Error>)
        ensures
            Self::stepped(old(self)@, Call::MapKey, final(self)@, res),
    {
        match self.current() {
            Some(Frame::InMap { awaits_value: false }) => {
                self.replace_top(Frame::InMap { awaits_value: true });
                self.pos = Some(Pos::Key);
                Ok(())
            },
            _ => Err(Error::msg(Violation::MapKeyNotExpected)),
        }
    }

    /// Announces a value; legal when the innermost container is a map that
    /// just got a key.
    pub fn map_value(&mut self) -> (res: Result<(), Error>)
        ensures
            Self::stepped(old(self)@, Call::MapValue, final(self)@, res),
    {
        match self.current() {
            Some(Frame::InMap { awaits_value: true }) => {
                self.replace_top(Frame::InMap { awaits_value: false });
                self.pos = Some(Pos::Value);
                Ok(())
            },
            _ => Err(Error::msg(Violation::MapValueWithoutKey)),
        }
    }

    /// Closes a map; legal when the innermost container is a map that is not
    /// between a key and its value.
    pub fn map_end(&mut self) -> (res: Result<(), Error>)
        ensures
            Self::stepped(old(self)@, Call::MapEnd, final(self)@, res),
    {
        match self.current() {
            Some(Frame::InMap { awaits_value: false }) => {
                self.frames.pop();
                self.pos = None;
                Ok(())
            },
            _ => Err(Error::msg(Violation::MapEndNotExpected)),
        }
    }

    /// Opens a sequence; legal anywhere.
    pub fn seq_begin(&mut self) -> (res: Result<(), Error>)
        ensures
            Self::stepped(old(self)@, Call::SeqBegin, final(self)@, res),
    {
        self.frames.push(Frame::InSeq { touched: false });
        self.pos = None;
        Ok(())
    }

    /// Announces an element; legal when the innermost container is a
    /// sequence.
    pub fn seq_elem(&mut self) -> (res: Result<(), Error>)
        ensures
            Self::stepped(old(self)@, Call::SeqElem, final(self)@, res),
    {
        match self.current() {
            Some(Frame::InSeq { .. }) => {
                self.replace_top(Frame::InSeq { touched: true });
                self.pos = Some(Pos::Elem);
                Ok(())
            },
            _ => Err(Error::msg(Violation::SeqElemOutsideSeq)),
        }
    }

    /// Closes a sequence; legal when the innermost container is a sequence.
    pub fn seq_end(&mut self) -> (res: Result<(), Error>)
        ensures
            Self::stepped(old(self)@, Call::SeqEnd, final(self)@, res),
    {
        match self.current() {
            Some(Frame::InSeq { .. }) => {
                self.frames.pop();
                self.pos = None;
                Ok(())
            },
            _ => Err(Error::msg(Violation::SeqEndOutsideSeq)),
        }
    }

    /// Ends the stream; legal once every container is closed.
    pub fn end(&mut self) -> (res: Result<(), Error>)
        ensures
            Self::stepped(old(self)@, Call::End, final(self)@, res),
    {
        if self.frames.len() > 0 {
            return Err(Error::msg(Violation::EndWithOpenContainers));
        }
        self.pos = None;
        Ok(())
    }

    /// Makes the call that `call` names.
    pub fn apply(&mut self, call: Call) -> (res: Result<(), Error>)
        ensures
            Self::stepped(old(self)@, call, final(self)@, res),
    {
        match call {
            Call::Begin => self.begin(),
            Call::Primitive => self.primitive(),
            Call::MapBegin => self.map_begin(),
            Call::MapKey => self.map_key(),
            Call::MapValue => self.map_value(),
            Call::MapEnd => self.map_end(),
            Call::SeqBegin => self.seq_begin(),
            Call::SeqElem => self.seq_elem(),
            Call::SeqEnd => self.seq_end(),
            Call::End => self.end(),
        }
    }

    fn replace_top(&mut self, frame: Frame)
        requires
            old(self)@.frames.len() > 0,
        ensures
            final(self)@ == (State {
                frames: old(self)@.frames.drop_last().push(frame),
                pos: old(self)@.pos,
            }),
    {
        self.frames.pop();
        self.frames.push(frame);
    }
}

} // verus!
