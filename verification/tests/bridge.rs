use sval::bridge::{Current, Event, Order, Stream};
use sval::error::{Context, Error, Violation};
use sval::stack::Pos;

fn perform(order: Order, value: &str, text: &mut String) -> Option<String> {
    match order {
        Order::SerializeSeq(_) => {
            text.push('[');
            None
        }
        Order::SerializeMap(_) => {
            text.push('{');
            None
        }
        Order::SerializeKey => {
            text.push_str(value);
            text.push(':');
            None
        }
        Order::SerializeValue | Order::SerializeElement => {
            text.push_str(value);
            text.push(';');
            None
        }
        Order::Serialize => Some(String::from(value)),
        Order::EndSeq => {
            text.push(']');
            Some(text.clone())
        }
        Order::EndMap => {
            text.push('}');
            Some(text.clone())
        }
    }
}

fn render(events: &[(Event, &str)]) -> Result<Option<String>, Error> {
    let mut stream: Stream<String> = Stream::begin();
    let mut text = String::new();
    for (event, value) in events {
        if let Some(order) = stream.handle(*event)? {
            let output = perform(order, value, &mut text);
            stream.complete(order, Ok(output))?;
        }
    }
    Ok(stream.into_ok())
}

fn protocol<T>(v: Violation) -> Result<T, Error> {
    Err(Error::Protocol(v))
}

#[test]
fn bridge_builds_an_empty_map() {
    let out = render(&[(Event::MapBegin(Some(0)), ""), (Event::MapEnd, "")]);
    assert_eq!(out, Ok(Some(String::from("{}"))));
}

#[test]
fn bridge_builds_a_sequence_of_three() {
    let out = render(&[
        (Event::SeqBegin(Some(3)), ""),
        (Event::SeqElem, ""),
        (Event::Primitive, "1"),
        (Event::SeqElem, ""),
        (Event::Primitive, "2"),
        (Event::SeqElem, ""),
        (Event::Primitive, "3"),
        (Event::SeqEnd, ""),
    ]);
    assert_eq!(out, Ok(Some(String::from("[1;2;3;]"))));
}

#[test]
fn bridge_builds_a_root_string() {
    let out = render(&[(Event::Primitive, "hello")]);
    assert_eq!(out, Ok(Some(String::from("hello"))));
}

#[test]
fn bridge_builds_a_single_entry_map() {
    let out = render(&[
        (Event::MapBegin(Some(1)), ""),
        (Event::MapKey, ""),
        (Event::Primitive, "a"),
        (Event::MapValue, ""),
        (Event::Primitive, "1"),
        (Event::MapEnd, ""),
    ]);
    assert_eq!(out, Ok(Some(String::from("{a:1;}"))));
}

#[test]
fn bridge_has_no_output_before_the_value_is_complete() {
    let out = render(&[(Event::SeqBegin(None), ""), (Event::SeqElem, ""), (Event::Primitive, "1")]);
    assert_eq!(out, Ok(None));
    let stream: Stream<String> = Stream::begin();
    assert!(!stream.has_ok());
    assert_eq!(stream.pos(), Some(Pos::Root));
    assert_eq!(stream.into_ok(), None);
}

#[test]
fn bridge_orders_follow_the_calls() {
    let mut stream: Stream<u8> = Stream::begin();
    assert_eq!(stream.seq_begin(Some(2)), Ok(Some(Order::SerializeSeq(Some(2)))));
    assert_eq!(stream.expect(), protocol(Violation::InvalidSerializer));
    assert_eq!(stream.complete(Order::SerializeSeq(Some(2)), Ok(None)), Ok(()));
    assert_eq!(stream.expect(), Ok(Current::SerializeSeq));
    assert_eq!(stream.seq_elem(), Ok(None));
    assert_eq!(stream.pos(), Some(Pos::Elem));
    assert_eq!(stream.primitive(), Ok(Some(Order::SerializeElement)));
    assert_eq!(stream.pos(), None);
    assert_eq!(stream.complete(Order::SerializeElement, Ok(None)), Ok(()));
    assert_eq!(stream.expect(), Ok(Current::SerializeSeq));
    assert_eq!(stream.seq_end(), Ok(Some(Order::EndSeq)));
    assert!(!stream.has_ok());
    assert_eq!(stream.complete(Order::EndSeq, Ok(Some(7))), Ok(()));
    assert!(stream.has_ok());
    assert_eq!(stream.expect_ok(), 7);
}

#[test]
fn bridge_map_orders_follow_the_calls() {
    let mut stream: Stream<u8> = Stream::begin();
    assert_eq!(stream.map_begin(None), Ok(Some(Order::SerializeMap(None))));
    assert_eq!(stream.complete(Order::SerializeMap(None), Ok(None)), Ok(()));
    assert_eq!(stream.expect(), Ok(Current::SerializeMap));
    assert_eq!(stream.map_key(), Ok(None));
    assert_eq!(stream.pos(), Some(Pos::Key));
    assert_eq!(stream.primitive(), Ok(Some(Order::SerializeKey)));
    assert_eq!(stream.map_value(), Ok(None));
    assert_eq!(stream.pos(), Some(Pos::Value));
    assert_eq!(stream.primitive(), Ok(Some(Order::SerializeValue)));
    assert_eq!(stream.map_end(), Ok(Some(Order::EndMap)));
    assert_eq!(stream.complete(Order::EndMap, Ok(Some(9))), Ok(()));
    assert_eq!(stream.into_ok(), Some(9));
}

#[test]
fn root_primitive_uses_the_root_builder_up() {
    let mut stream: Stream<u8> = Stream::begin();
    assert_eq!(stream.primitive(), Ok(Some(Order::Serialize)));
    assert_eq!(stream.complete(Order::Serialize, Ok(Some(1))), Ok(()));
    assert!(stream.has_ok());
    assert_eq!(stream.expect(), protocol(Violation::InvalidSerializer));
    assert_eq!(stream.primitive(), protocol(Violation::InvalidSerializer));
    assert_eq!(stream.seq_begin(None), protocol(Violation::InvalidSerializer));
}

#[test]
fn primitive_without_position_is_rejected() {
    let mut stream: Stream<u8> = Stream::begin();
    assert_eq!(stream.seq_begin(None), Ok(Some(Order::SerializeSeq(None))));
    assert_eq!(stream.complete(Order::SerializeSeq(None), Ok(None)), Ok(()));
    assert_eq!(stream.seq_elem(), Ok(None));
    assert_eq!(stream.primitive(), Ok(Some(Order::SerializeElement)));
    assert_eq!(stream.primitive(), protocol(Violation::InvalidSerializer));
    assert_eq!(stream.expect(), Ok(Current::SerializeSeq));
}

#[test]
fn primitive_for_the_wrong_builder_is_rejected() {
    let mut stream: Stream<u8> = Stream::begin();
    assert_eq!(stream.map_key(), Ok(None));
    assert_eq!(stream.primitive(), protocol(Violation::InvalidSerializerValue));
    assert_eq!(stream.pos(), None);
    assert_eq!(stream.expect(), Ok(Current::Serializer));
    assert_eq!(stream.seq_elem(), Ok(None));
    assert_eq!(stream.primitive(), protocol(Violation::InvalidSerializerValue));
    assert_eq!(stream.map_value(), Ok(None));
    assert_eq!(stream.primitive(), protocol(Violation::InvalidSerializerValue));
}

#[test]
fn nested_begin_is_rejected_and_empties_the_slot() {
    let mut stream: Stream<u8> = Stream::begin();
    assert_eq!(stream.seq_begin(None), Ok(Some(Order::SerializeSeq(None))));
    assert_eq!(stream.complete(Order::SerializeSeq(None), Ok(None)), Ok(()));
    assert_eq!(stream.map_begin(None), protocol(Violation::InvalidSerializerValue));
    assert_eq!(stream.expect(), protocol(Violation::InvalidSerializer));
    assert_eq!(stream.seq_end(), protocol(Violation::InvalidSerializer));
}

#[test]
fn end_of_the_wrong_container_is_rejected() {
    let mut stream: Stream<u8> = Stream::begin();
    assert_eq!(stream.seq_end(), protocol(Violation::InvalidSerializerValue));
    assert_eq!(stream.take(), protocol(Violation::InvalidSerializer));
    let mut stream: Stream<u8> = Stream::begin();
    assert_eq!(stream.map_begin(None), Ok(Some(Order::SerializeMap(None))));
    assert_eq!(stream.complete(Order::SerializeMap(None), Ok(None)), Ok(()));
    assert_eq!(stream.seq_end(), protocol(Violation::InvalidSerializerValue));
    let mut stream: Stream<u8> = Stream::begin();
    assert_eq!(stream.map_end(), protocol(Violation::InvalidSerializerValue));
    assert!(!stream.has_ok());
}

#[test]
fn take_empties_the_slot() {
    let mut stream: Stream<u8> = Stream::begin();
    assert_eq!(stream.expect(), Ok(Current::Serializer));
    assert_eq!(stream.take(), Ok(Current::Serializer));
    assert_eq!(stream.take(), protocol(Violation::InvalidSerializer));
    let mut stream: Stream<u8> = Stream::begin();
    assert_eq!(stream.map_serializer(Order::SerializeSeq(Some(4))), Ok(Some(Order::SerializeSeq(Some(4)))));
    assert_eq!(stream.map_serializer(Order::SerializeSeq(Some(4))), protocol(Violation::InvalidSerializer));
}

#[test]
fn builder_kinds_are_checked() {
    assert_eq!(Current::Serializer.take_serializer(), Ok(()));
    assert_eq!(Current::SerializeSeq.take_serializer(), protocol(Violation::InvalidSerializerValue));
    assert_eq!(Current::SerializeMap.take_serializer(), protocol(Violation::InvalidSerializerValue));
    assert_eq!(Current::SerializeSeq.expect_serialize_seq(), Ok(()));
    assert_eq!(Current::SerializeMap.expect_serialize_seq(), protocol(Violation::InvalidSerializerValue));
    assert_eq!(Current::SerializeSeq.take_serialize_seq(), Ok(()));
    assert_eq!(Current::Serializer.take_serialize_seq(), protocol(Violation::InvalidSerializerValue));
    assert_eq!(Current::SerializeMap.expect_serialize_map(), Ok(()));
    assert_eq!(Current::SerializeSeq.expect_serialize_map(), protocol(Violation::InvalidSerializerValue));
    assert_eq!(Current::SerializeMap.take_serialize_map(), Ok(()));
    assert_eq!(Current::Serializer.take_serialize_map(), protocol(Violation::InvalidSerializerValue));
}

#[test]
fn foreign_failure_is_wrapped_with_its_context() {
    let mut stream: Stream<u8> = Stream::begin();
    assert_eq!(stream.seq_begin(None), Ok(Some(Order::SerializeSeq(None))));
    let res = stream.complete(Order::SerializeSeq(None), Err(String::from("no room")));
    assert_eq!(
        res,
        Err(Error::Foreign { context: Context::Begin, detail: String::from("no room") })
    );
    assert_eq!(stream.expect(), protocol(Violation::InvalidSerializer));
    assert!(!stream.has_ok());
    let err = res.unwrap_err();
    assert_eq!(err.message(), "error maping serializer");
    assert_eq!(err.detail(), Some(&String::from("no room")));
}

#[test]
fn every_order_has_its_context() {
    let cases = [
        (Order::SerializeSeq(None), Context::Begin, "error maping serializer"),
        (Order::SerializeMap(Some(1)), Context::Begin, "error maping serializer"),
        (Order::SerializeKey, Context::MapKey, "error map serializing key"),
        (Order::SerializeValue, Context::MapValue, "error serializing map value"),
        (Order::SerializeElement, Context::SeqElem, "error serializing sequence element"),
        (Order::Serialize, Context::Root, "error serializing 128bit signed integer"),
        (Order::EndSeq, Context::SeqEnd, "error completing sequence"),
        (Order::EndMap, Context::MapEnd, "error completing map"),
    ];
    for (order, context, text) in cases {
        assert_eq!(order.error_context(), context);
        assert_eq!(context.message(), text);
        let mut stream: Stream<u8> = Stream::begin();
        let res = stream.complete(order, Err(String::from("x")));
        assert_eq!(res, Err(Error::Foreign { context, detail: String::from("x") }));
        assert_eq!(stream.expect(), Ok(Current::Serializer));
    }
}
