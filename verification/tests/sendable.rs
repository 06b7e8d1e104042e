use fe2o3_amqp::delivery::Sendable;
use fe2o3_amqp::messaging::{AmqpValue, Body, Data, Message, MESSAGE_FORMAT};
use fe2o3_amqp::value::Value;

#[test]
fn test_from_primitive_into_sendable() {
    let value = false;
    let sendable = Sendable::from(Message::builder().value(Value::Bool(value)).build());
    assert!(matches!(
        sendable.message.body,
        Body::Value(AmqpValue(Value::Bool(false)))
    ));
}

#[test]
fn test_from_message_into_sendable() {
    let message = Message::builder().value(Value::Uint(5671_u32)).build();
    let sendable = Sendable::from(message);
    assert!(matches!(
        sendable.message.body,
        Body::Value(AmqpValue(Value::Uint(5671)))
    ));
}

struct Foo {}

impl From<Foo> for Message {
    fn from(_: Foo) -> Self {
        Message::builder().data(b"Foo".to_vec()).build()
    }
}

#[test]
fn test_from_custom_type_into_sendable() {
    let value = Foo {};
    let sendable = Sendable::from(Message::from(value));
    assert!(matches!(
        &sendable.message.body,
        Body::Data(Data(d)) if d.as_slice() == b"Foo"
    ));
}

#[test]
fn sendable_builder_carries_format_and_settlement() {
    let sendable = Sendable::builder()
        .message(Message::builder().value(Value::String("hello".to_owned())).build())
        .message_format(MESSAGE_FORMAT)
        .settled(Some(true))
        .build();
    assert_eq!(sendable.message_format, MESSAGE_FORMAT);
    assert_eq!(sendable.settled, Some(true));
}
