use sval::error::{Error, Violation};
use sval::guard::{DebugRefMut, DebugStack, DebugStackInner, Guarded, NoStack};
use sval::stack::{Call, Stack};

type Checked = DebugRefMut<DebugStackInner<Stack>>;
type Free = DebugRefMut<DebugStackInner<NoStack>>;

#[test]
fn debug_stack_is_zero_sized() {
    assert_eq!(0, std::mem::size_of::<DebugStack>());
}

#[test]
fn debug_stack_ref_is_zero_sized() {
    assert_eq!(0, std::mem::size_of::<DebugRefMut<DebugStack>>());
}

#[test]
fn empty_validation_state_is_zero_sized() {
    assert_eq!(0, std::mem::size_of::<DebugStackInner>());
    assert_eq!(0, std::mem::size_of::<DebugRefMut<DebugStackInner>>());
    assert!(std::mem::size_of::<DebugStack<Guarded>>() > 0);
}

#[test]
fn validated_operations_follow_the_stack() {
    let mut guard = DebugStack::<Guarded>::new().borrow_mut();
    let res = guard.and_then(|mut h: Checked| {
        let r = h.map_begin();
        (h, r)
    });
    assert_eq!(res, Ok(()));
    let res = guard.and_then(|mut h: Checked| {
        let r = h.map_key().and_then(|_| h.primitive());
        (h, r)
    });
    assert_eq!(res, Ok(()));
    let res = guard.and_then(|mut h: Checked| {
        let r = h.map_value().and_then(|_| h.primitive());
        (h, r)
    });
    assert_eq!(res, Ok(()));
    let res = guard.and_then(|mut h: Checked| {
        let r = h.map_end().and_then(|_| h.end());
        (h, r)
    });
    assert_eq!(res, Ok(()));
    assert!(!guard.into_inner().is_poisoned());
}

#[test]
fn failure_poisons_the_guard() {
    let mut guard = DebugStack::<Guarded>::new().borrow_mut();
    assert_eq!(guard.and_then(|mut h: Checked| { let r = h.map_begin(); (h, r) }), Ok(()));
    let res = guard.and_then(|mut h: Checked| {
        let r = h.map_value();
        (h, r)
    });
    assert_eq!(res, Err(Error::Protocol(Violation::MapValueWithoutKey)));
    let mut ran = false;
    let res = guard.and_then(|mut h: Checked| {
        ran = true;
        let r = h.map_key();
        (h, r)
    });
    assert_eq!(res, Err(Error::Protocol(Violation::Poisoned)));
    assert!(!ran);
    let res = guard.and_then(|h: Checked| (h, Ok(())));
    assert_eq!(res, Err(Error::Protocol(Violation::Poisoned)));
    assert!(guard.into_inner().is_poisoned());
}

#[test]
fn callback_error_is_returned_unchanged() {
    let mut guard = DebugStack::<Guarded>::new().borrow_mut();
    let failure = Error::foreign(sval::error::Context::MapEnd, String::from("full"));
    let expected = failure.clone();
    let res = guard.and_then(move |h: Checked| (h, Err(failure)));
    assert_eq!(res, Err(expected));
    assert!(guard.into_inner().is_poisoned());
}

#[test]
fn validate_runs_calls_up_to_the_first_illegal_one() {
    let mut guard = DebugStack::<Guarded>::new().borrow_mut();
    let calls = vec![Call::Begin, Call::SeqBegin, Call::SeqElem, Call::Primitive, Call::SeqEnd];
    assert_eq!(guard.validate(&calls), Ok(()));
    assert_eq!(guard.validate(&vec![Call::End]), Ok(()));
    let calls = vec![Call::SeqBegin, Call::End, Call::SeqEnd];
    assert_eq!(guard.validate(&calls), Err(Error::Protocol(Violation::EndWithOpenContainers)));
    assert_eq!(guard.validate(&vec![Call::SeqEnd]), Err(Error::Protocol(Violation::Poisoned)));
    assert_eq!(guard.validate(&Vec::new()), Err(Error::Protocol(Violation::Poisoned)));
}

#[test]
fn every_checked_call_reaches_the_stack() {
    let mut h = DebugStackInner::<Stack>::new().borrow_mut();
    assert_eq!(h.begin(), Ok(()));
    assert_eq!(h.seq_begin(), Ok(()));
    assert_eq!(h.seq_elem(), Ok(()));
    assert_eq!(h.map_begin(), Ok(()));
    assert_eq!(h.map_key(), Ok(()));
    assert_eq!(h.primitive(), Ok(()));
    assert_eq!(h.map_value(), Ok(()));
    assert_eq!(h.primitive(), Ok(()));
    assert_eq!(h.map_end(), Ok(()));
    assert_eq!(h.seq_end(), Ok(()));
    assert_eq!(h.end(), Ok(()));
    assert_eq!(h.seq_begin(), Ok(()));
    assert_eq!(h.begin(), Err(Error::Protocol(Violation::BeginInsideContainer)));
    assert_eq!(h.primitive(), Err(Error::Protocol(Violation::PrimitiveWithoutPosition)));
    assert_eq!(h.map_key(), Err(Error::Protocol(Violation::MapKeyNotExpected)));
    assert_eq!(h.map_value(), Err(Error::Protocol(Violation::MapValueWithoutKey)));
    assert_eq!(h.map_end(), Err(Error::Protocol(Violation::MapEndNotExpected)));
    assert_eq!(h.end(), Err(Error::Protocol(Violation::EndWithOpenContainers)));
    assert_eq!(h.seq_end(), Ok(()));
    assert_eq!(h.seq_elem(), Err(Error::Protocol(Violation::SeqElemOutsideSeq)));
    assert_eq!(h.seq_end(), Err(Error::Protocol(Violation::SeqEndOutsideSeq)));
}

#[test]
fn handle_gives_back_what_it_holds() {
    let mut h = DebugStackInner::<Stack>::new().borrow_mut();
    assert_eq!(h.map_begin(), Ok(()));
    let mut again = DebugRefMut::new(h.borrow_mut().into_inner());
    assert_eq!(again.map_end(), Ok(()));
    assert_eq!(again.end(), Ok(()));
}

#[test]
fn unchecked_calls_never_fail() {
    let mut h = DebugStackInner::<NoStack>::new().borrow_mut();
    assert_eq!(h.map_value(), Ok(()));
    assert_eq!(h.seq_end(), Ok(()));
    assert_eq!(h.map_end(), Ok(()));
    assert_eq!(h.seq_begin(), Ok(()));
    assert_eq!(h.end(), Ok(()));
    assert_eq!(h.begin(), Ok(()));
    assert_eq!(h.primitive(), Ok(()));
    assert_eq!(h.map_begin(), Ok(()));
    assert_eq!(h.map_key(), Ok(()));
    assert_eq!(h.seq_elem(), Ok(()));
}

#[test]
fn unchecked_guard_passes_the_callback_result_on() {
    let mut guard = DebugStack::<NoStack>::new().borrow_mut();
    let res = guard.and_then(|mut h: Free| {
        let r = h.map_value();
        (h, r)
    });
    assert_eq!(res, Ok(()));
    let res = guard.and_then(|h: Free| (h, Err(Error::msg(Violation::InvalidSerializer))));
    assert_eq!(res, Err(Error::Protocol(Violation::InvalidSerializer)));
    let res = guard.and_then(|mut h: Free| {
        let r = h.end();
        (h, r)
    });
    assert_eq!(res, Ok(()));
}

#[test]
fn default_guards_are_fresh() {
    let guard: DebugStack<Guarded> = Default::default();
    assert!(!guard.is_poisoned());
    let mut guard = guard.borrow_mut();
    assert_eq!(guard.validate(&vec![Call::Begin, Call::Primitive, Call::End]), Ok(()));
    let inner: DebugStackInner<Stack> = Default::default();
    let mut h = inner.borrow_mut();
    assert_eq!(h.end(), Ok(()));
    let _free: DebugStack = Default::default();
    let _inner: DebugStackInner = Default::default();
}
