//! The guard around the validation stack.
//!
//! The guard exists in two configurations, chosen by a type argument and so
//! fixed when the program is built. With [`Guarded`] and [`Stack`] it holds a
//! validation stack and a poison flag. With [`NoStack`], the default, it holds
//! nothing: every validation call succeeds without doing anything and neither
//! the guard nor its handle takes any storage.

use vstd::prelude::*;
use crate::error::{Error, Violation};
use crate::stack::{Call, Stack, State};

verus! {

/// The placeholder that stands where validation is switched off.
pub struct NoStack;

/// The validation state that a callback works on: a validation stack, or
/// nothing at all.
pub struct DebugStackInner<S = NoStack> {
    stack: S,
}

/// What a validating guard holds: the validation state and the poison flag.
pub struct Guarded {
    inner: DebugStackInner<Stack>,
    poisoned: bool,
}

/// The guard: it makes sure that a stream is used with legal calls only, and
/// not again after it failed.
pub struct DebugStack<G = NoStack> {
    guard: G,
}

/// A handle that stands for sole, temporary access to the value it holds. It
/// is as large as that value, and so takes no storage where the value takes
/// none.
pub struct DebugRefMut<T> {
    value: T,
}

/// The mathematical state of a validating guard.
pub struct GuardState {
    pub state: State,
    pub poisoned: bool,
}

impl GuardState {
    /// The guard's state and result after a validated operation whose
    /// callback, had it run, left the validation state `inner` and returned
    /// `outcome`. A poisoned guard runs no callback, fails and stays as it is.
    /// Any other guard takes the callback's state and result, and is poisoned
    /// exactly when the callback failed.
    pub open spec fn validated(self, inner: State, outcome: Result<(), Error>) -> (
        GuardState,
        Result<(), Error>,
    ) {
        if self.poisoned {
            (self, Err(Error::Protocol(Violation::Poisoned)))
        } else {
            (GuardState { state: inner, poisoned: outcome is Err }, outcome)
        }
    }
}

impl View for DebugStackInner<Stack> {
    type V = State;

    closed spec fn view(&self) -> State {
        self.stack@
    }
}

impl View for DebugStack<Guarded> {
    type V = GuardState;

    closed spec fn view(&self) -> GuardState {
        GuardState { state: self.guard.inner@, poisoned: self.guard.poisoned }
    }
}

impl<T> View for DebugRefMut<T> {
    type V = T;

    closed spec fn view(&self) -> T {
        self.value
    }
}

impl<T> DebugRefMut<T> {
    /// Checks `value` out: the handle holds it until it is handed back.
    pub fn new(value: T) -> (res: Self)
        ensures
            res@ == value,
    {
        DebugRefMut { value }
    }

    /// Hands back the value that the handle held.
    pub fn into_inner(self) -> (res: T)
        ensures
            res == self@,
    {
        self.value
    }

    /// A handle to the same value, in place of this one.
    pub fn borrow_mut(self) -> (res: DebugRefMut<T>)
        ensures
            res@ == self@,
    {
        DebugRefMut { value: self.value }
    }
}

impl DebugStackInner<Stack> {
    /// Validation state with a fresh stack.
    pub fn new() -> (res: Self)
        ensures
            res@ == State::start(),
    {
        DebugStackInner { stack: Stack::new() }
    }

    /// A handle to this validation state.
    pub fn borrow_mut(self) -> (res: DebugRefMut<DebugStackInner<Stack>>)
        ensures
            res@ == self,
    {
        DebugRefMut { value: self }
    }
}

impl DebugStackInner<NoStack> {
    /// The empty validation state: the placeholder and nothing else.
    pub closed spec fn empty() -> Self {
        DebugStackInner { stack: NoStack }
    }

    /// The empty validation state.
    pub fn new() -> (res: Self)
        ensures
            res == Self::empty(),
    {
        DebugStackInner { stack: NoStack }
    }

    /// A handle to the empty validation state.
    pub fn borrow_mut(self) -> (res: DebugRefMut<DebugStackInner<NoStack>>)
        ensures
            res@ == self,
    {
        DebugRefMut { value: self }
    }
}

impl DebugStack<Guarded> {
    /// A validating guard: a fresh stack, not poisoned.
    pub fn new() -> (res: Self)
        ensures
            res@ == (GuardState { state: State::start(), poisoned: false }),
    {
        DebugStack { guard: Guarded { inner: DebugStackInner::<Stack>::new(), poisoned: false } }
    }

    /// Whether an operation failed on this guard, or is still under way.
    pub fn is_poisoned(&self) -> (res: bool)
        ensures
            res == self@.poisoned,
    {
        self.guard.poisoned
    }

    /// A handle to this guard.
    pub fn borrow_mut(self) -> (res: DebugRefMut<DebugStack<Guarded>>)
        ensures
            res@ == self,
    {
        DebugRefMut { value: self }
    }
}

impl DebugStack<NoStack> {
    /// The guard that validates nothing: the placeholder and nothing else.
    pub closed spec fn empty() -> Self {
        DebugStack { guard: NoStack }
    }

    /// A guard that validates nothing.
    pub fn new() -> (res: Self)
        ensures
            res == Self::empty(),
    {
        DebugStack { guard: NoStack }
    }

    /// A handle to this guard.
    pub fn borrow_mut(self) -> (res: DebugRefMut<DebugStack<NoStack>>)
        ensures
            res@ == self,
    {
        DebugRefMut { value: self }
    }
}

impl Default for DebugStack<NoStack> {
    fn default() -> (res: Self)
        ensures
            res == DebugStack::<NoStack>::empty(),
    {
        DebugStack::<NoStack>::new()
    }
}

impl Default for DebugStack<Guarded> {
    fn default() -> (res: Self)
        ensures
            res@ == (GuardState { state: State::start(), poisoned: false }),
    {
        DebugStack::<Guarded>::new()
    }
}

impl Default for DebugStackInner<NoStack> {
    fn default() -> (res: Self)
        ensures
            res == DebugStackInner::<NoStack>::empty(),
    {
        DebugStackInner::<NoStack>::new()
    }
}

impl Default for DebugStackInner<Stack> {
    fn default() -> (res: Self)
        ensures
            res@ == State::start(),
    {
        DebugStackInner::<Stack>::new()
    }
}

impl DebugRefMut<DebugStack<Guarded>> {
    /// Runs one validated operation. The callback gets a handle to the
    /// validation state and hands it back with its result.
    ///
    /// On a poisoned guard the callback does not run and the operation fails.
    /// Otherwise the guard is poisoned while the callback runs, and stays so
    /// unless the callback succeeds; the callback's result is returned as it
    /// is.
    pub fn and_then<F>(&mut self, f: F) -> (res: Result<(), Error>) where
        F: FnOnce(DebugRefMut<DebugStackInner<Stack>>) -> (
            DebugRefMut<DebugStackInner<Stack>>,
            Result<(), Error>,
        ),

        requires
            !old(self)@@.poisoned ==> forall|h: DebugRefMut<DebugStackInner<Stack>>|
                h@@ == old(self)@@.state ==> call_requires(f, (h,)),
        ensures
            old(self)@@.poisoned ==> final(self)@@ == old(self)@@ && res == Err::<(), Error>(
                Error::Protocol(Violation::Poisoned),
            ),
            !old(self)@@.poisoned ==> exists|
                h0: DebugRefMut<DebugStackInner<Stack>>,
                h1: DebugRefMut<DebugStackInner<Stack>>,
            |
                h0@@ == old(self)@@.state && #[trigger] call_ensures(f, (h0,), (h1, res)) && (
                    final(self)@@,
                    res,
                ) == old(self)@@.validated(h1@@, res),
    {
        if self.value.guard.poisoned {
            return Err(Error::msg(Violation::Poisoned));
        }
        self.value.guard.poisoned = true;
        let mut inner = DebugStackInner::<Stack>::new();
        core::mem::swap(&mut inner, &mut self.value.guard.inner);
        let handle = DebugRefMut { value: inner };
        let ghost checked_out = handle;
        let out = f(handle);
        proof {
            assert(call_ensures(f, (checked_out,), (out.0, out.1)));
        }
        self.value.guard.inner = out.0.value;
        if out.1.is_ok() {
            self.value.guard.poisoned = false;
        }
        out.1
    }

    /// Runs the calls in order as one validated operation, up to the first
    /// illegal one.
    pub fn validate(&mut self, calls: &Vec<Call>) -> (res: Result<(), Error>)
        ensures
            old(self)@@.poisoned ==> res == Err::<(), Error>(Error::Protocol(Violation::Poisoned))
                && final(self)@@ == old(self)@@,
            !old(self)@@.poisoned ==> match old(self)@@.state.run(calls@) {
                Ok(s) => res is Ok && final(self)@@ == (GuardState { state: s, poisoned: false }),
                Err(v) => res == Err::<(), Error>(Error::Protocol(v)) && final(self)@@.poisoned,
            },
    {
        if self.value.guard.poisoned {
            return Err(Error::msg(Violation::Poisoned));
        }
        self.value.guard.poisoned = true;
        let mut i: usize = 0;
        proof {
            assert(calls@.subrange(0, calls@.len() as int) == calls@);
        }
        while i < calls.len()
            invariant
                i <= calls.len(),
                !old(self)@@.poisoned,
                self.value.guard.poisoned,
                old(self)@@.state.run(calls@) == self.value.guard.inner@.run(
                    calls@.subrange(i as int, calls@.len() as int),
                ),
            decreases calls.len() - i,
        {
            let ghost rest = calls@.subrange(i as int, calls@.len() as int);
            proof {
                assert(rest[0] == calls@[i as int]);
                assert(rest.subrange(1, rest.len() as int) == calls@.subrange(
                    i + 1,
                    calls@.len() as int,
                ));
            }
            match self.value.guard.inner.stack.apply(calls[i]) {
                Ok(()) => {},
                Err(e) => {
                    return Err(e);
                },
            }
            i = i + 1;
        }
        self.value.guard.poisoned = false;
        Ok(())
    }
}

impl DebugRefMut<DebugStack<NoStack>> {
    /// Runs the callback on a handle to the empty validation state and
    /// returns its result. Nothing is checked and nothing is kept.
    pub fn and_then<F>(&mut self, f: F) -> (res: Result<(), Error>) where
        F: FnOnce(DebugRefMut<DebugStackInner<NoStack>>) -> (
            DebugRefMut<DebugStackInner<NoStack>>,
            Result<(), Error>,
        ),

        requires
            forall|h: DebugRefMut<DebugStackInner<NoStack>>|
                h@ == DebugStackInner::<NoStack>::empty() ==> call_requires(f, (h,)),
        ensures
            *final(self) == *old(self),
            exists|
                h0: DebugRefMut<DebugStackInner<NoStack>>,
                h1: DebugRefMut<DebugStackInner<NoStack>>,
            |
                h0@ == DebugStackInner::<NoStack>::empty() && #[trigger] call_ensures(
                    f,
                    (h0,),
                    (h1, res),
                ),
    {
        let handle = DebugRefMut { value: DebugStackInner::<NoStack>::new() };
        let ghost checked_out = handle;
        let out = f(handle);
        proof {
            assert(call_ensures(f, (checked_out,), (out.0, out.1)));
        }
        out.1
    }
}

impl DebugRefMut<DebugStackInner<Stack>> {
    /// Validates the start of a stream.
    pub fn begin(&mut self) -> (res: Result<(), Error>)
        ensures
            Stack::stepped(old(self)@@, Call::Begin, final(self)@@, res),
    {
        self.value.stack.begin()
    }

    /// Validates a primitive value.
    pub fn primitive(&mut self) -> (res: Result<(), Error>)
        ensures
            Stack::stepped(old(self)@@, Call::Primitive, final(self)@@, res),
    {
        self.value.stack.primitive()
    }

    /// Validates the start of a map.
    pub fn map_begin(&mut self) -> (res: Result<(), Error>)
        ensures
            Stack::stepped(old(self)@@, Call::MapBegin, final(self)@@, res),
    {
        self.value.stack.map_begin()
    }

    /// Validates the announcement of a map key.
    pub fn map_key(&mut self) -> (res: Result<(), Error>)
        ensures
            Stack::stepped(old(self)@@, Call::MapKey, final(self)@@, res),
    {
        self.value.stack.map_key()
    }

    /// Validates the announcement of a map value.
    pub fn map_value(&mut self) -> (res: Result<(), Error>)
        ensures
            Stack::stepped(old(self)@@, Call::MapValue, final(self)@@, res),
    {
        self.value.stack.map_value()
    }

    /// Validates the end of a map.
    pub fn map_end(&mut self) -> (res: Result<(), Error>)
        ensures
            Stack::stepped(old(self)@@, Call::MapEnd, final(self)@@, res),
    {
        self.value.stack.map_end()
    }

    /// Validates the start of a sequence.
    pub fn seq_begin(&mut self) -> (res: Result<(), Error>)
        ensures
            Stack::stepped(old(self)@@, Call::SeqBegin, final(self)@@, res),
    {
        self.value.stack.seq_begin()
    }

    /// Validates the announcement of a sequence element.
    pub fn seq_elem(&mut self) -> (res: Result<(), Error>)
        ensures
            Stack::stepped(old(self)@@, Call::SeqElem, final(self)@@, res),
    {
        self.value.stack.seq_elem()
    }

    /// Validates the end of a sequence.
    pub fn seq_end(&mut self) -> (res: Result<(), Error>)
        ensures
            Stack::stepped(old(self)@@, Call::SeqEnd, final(self)@@, res),
    {
        self.value.stack.seq_end()
    }

    /// Validates the end of a stream.
    pub fn end(&mut self) -> (res: Result<(), Error>)
        ensures
            Stack::stepped(old(self)@@, Call::End, final(self)@@, res),
    {
        self.value.stack.end()
    }
}

impl DebugRefMut<DebugStackInner<NoStack>> {
    /// Accepts the start of a stream.
    pub fn begin(&mut self) -> (res: Result<(), Error>)
        ensures
            res is Ok,
            *final(self) == *old(self),
    {
        Ok(())
    }

    /// Accepts a primitive value.
    pub fn primitive(&mut self) -> (res: Result<(), Error>)
        ensures
            res is Ok,
            *final(self) == *old(self),
    {
        Ok(())
    }

    /// Accepts the start of a map.
    pub fn map_begin(&mut self) -> (res: Result<(), Error>)
        ensures
            res is Ok,
            *final(self) == *old(self),
    {
        Ok(())
    }

    /// Accepts the announcement of a map key.
    pub fn map_key(&mut self) -> (res: Result<(), Error>)
        ensures
            res is Ok,
            *final(self) == *old(self),
    {
        Ok(())
    }

    /// Accepts the announcement of a map value.
    pub fn map_value(&mut self) -> (res: Result<(), Error>)
        ensures
            res is Ok,
            *final(self) == *old(self),
    {
        Ok(())
    }

    /// Accepts the end of a map.
    pub fn map_end(&mut self) -> (res: Result<(), Error>)
        ensures
            res is Ok,
            *final(self) == *old(self),
    {
        Ok(())
    }

    /// Accepts the start of a sequence.
    pub fn seq_begin(&mut self) -> (res: Result<(), Error>)
        ensures
            res is Ok,
            *final(self) == *old(self),
    {
        Ok(())
    }

    /// Accepts the announcement of a sequence element.
    pub fn seq_elem(&mut self) -> (res: Result<(), Error>)
        ensures
            res is Ok,
            *final(self) == *old(self),
    {
        Ok(())
    }

    /// Accepts the end of a sequence.
    pub fn seq_end(&mut self) -> (res: Result<(), Error>)
        ensures
            res is Ok,
            *final(self) == *old(self),
    {
        Ok(())
    }

    /// Accepts the end of a stream.
    pub fn end(&mut self) -> (res: Result<(), Error>)
        ensures
            res is Ok,
            *final(self) == *old(self),
    {
        Ok(())
    }
}

/// Once a validated operation has failed, the guard is poisoned, and every
/// later operation on it fails with the poisoning error and leaves the guard
/// as it is, whatever its callback would have done.
pub proof fn lemma_failure_poisons_for_good(
    guard: GuardState,
    inner: State,
    outcome: Result<(), Error>,
    later_inner: State,
    later_outcome: Result<(), Error>,
)
    requires
        guard.validated(inner, outcome).1 is Err,
    ensures
        guard.validated(inner, outcome).0.poisoned,
        guard.validated(inner, outcome).0.validated(later_inner, later_outcome) == (
            guard.validated(inner, outcome).0,
            Err::<(), Error>(Error::Protocol(Violation::Poisoned)),
        ),
{
}

/// A validated operation that succeeds leaves the guard ready for the next
/// one.
pub proof fn lemma_success_keeps_guard_ready(
    guard: GuardState,
    inner: State,
    outcome: Result<(), Error>,
)
    requires
        guard.validated(inner, outcome).1 is Ok,
    ensures
        !guard.validated(inner, outcome).0.poisoned,
        guard.validated(inner, outcome).0.state == inner,
{
}

} // verus!
