use fe2o3_amqp::framing::{reassemble, split_payload, FrameHeader};
use fe2o3_amqp::messaging::{
    ApplicationProperties, AmqpValue, Body, Data, Header, Message, MessageId, Properties,
};
use fe2o3_amqp::sections::{decode_message, encode_message};
use fe2o3_amqp::value::Value;

fn value_message(v: Value) -> Message {
    Message::builder().value(v).build()
}

#[test]
fn value_body_round_trips() {
    let msg = value_message(Value::String("hello".to_owned()));
    let bytes = encode_message(&msg);
    let back = decode_message(&bytes).unwrap();
    assert!(matches!(
        &back.body,
        Body::Value(AmqpValue(Value::String(s))) if s == "hello"
    ));
    assert!(back.header.is_none());
    assert!(back.properties.is_none());
}

#[test]
fn header_properties_and_body_round_trip() {
    let mut properties = Properties::new();
    properties.message_id = Some(MessageId::Ulong(7));
    properties.subject = Some("greeting".to_owned());
    properties.group_sequence = Some(3);
    let msg = Message {
        header: Some(Header {
            durable: true,
            priority: 7,
            ttl: Some(1000),
            first_acquirer: false,
            delivery_count: 2,
        }),
        delivery_annotations: None,
        message_annotations: None,
        properties: Some(properties),
        application_properties: Some(ApplicationProperties(vec![
            ("color".to_owned(), Value::String("blue".to_owned())),
            ("count".to_owned(), Value::Uint(9)),
        ])),
        body: Body::Value(AmqpValue(Value::Uint(42))),
        footer: None,
    };
    let bytes = encode_message(&msg);
    let back = decode_message(&bytes).unwrap();
    let header = back.header.unwrap();
    assert!(header.durable);
    assert_eq!(header.priority, 7);
    assert_eq!(header.ttl, Some(1000));
    assert_eq!(header.delivery_count, 2);
    let props = back.properties.unwrap();
    assert!(matches!(props.message_id, Some(MessageId::Ulong(7))));
    assert_eq!(props.subject.as_deref(), Some("greeting"));
    assert_eq!(props.group_sequence, Some(3));
    let app = back.application_properties.unwrap();
    assert_eq!(app.0.len(), 2);
    assert_eq!(app.0[0].0, "color");
    assert!(matches!(&app.0[0].1, Value::String(s) if s == "blue"));
    assert!(matches!(&app.0[1].1, Value::Uint(9)));
    assert!(matches!(back.body, Body::Value(AmqpValue(Value::Uint(42)))));
}

#[test]
fn data_body_round_trips() {
    let payload: Vec<u8> = (0..=255u8).collect();
    let msg = Message::builder().data(payload.clone()).build();
    let bytes = encode_message(&msg);
    let back = decode_message(&bytes).unwrap();
    assert!(matches!(&back.body, Body::Data(Data(d)) if *d == payload));
}

#[test]
fn empty_message_round_trips() {
    let msg = Message::builder().build();
    let bytes = encode_message(&msg);
    assert!(bytes.is_empty());
    let back = decode_message(&bytes).unwrap();
    assert!(matches!(back.body, Body::Empty));
}

#[test]
fn trailing_garbage_is_refused() {
    let msg = value_message(Value::Bool(true));
    let mut bytes = encode_message(&msg);
    bytes.push(0xff);
    assert!(decode_message(&bytes).is_none());
}

#[test]
fn fragmentation_round_trips() {
    // A payload larger than the frame budget splits and reassembles to
    // identical bytes.
    let payload: Vec<u8> = (0..2000u32).map(|i| (i % 251) as u8).collect();
    let chunks = split_payload(&payload, 504);
    assert_eq!(chunks.len(), 4);
    for chunk in chunks.iter().take(3) {
        assert_eq!(chunk.len(), 504);
    }
    let back = reassemble(&chunks);
    assert_eq!(back, payload);
}

#[test]
fn frame_header_round_trips() {
    let header = FrameHeader::amqp(9, 100);
    let bytes = header.encode();
    assert_eq!(bytes.len(), 8);
    let back = FrameHeader::decode(&bytes).unwrap();
    assert_eq!(back, header);
    assert!(!back.check_heartbeat());
    let beat = FrameHeader::heartbeat(0);
    assert!(FrameHeader::decode(&beat.encode()).unwrap().check_heartbeat());
}

#[test]
fn data_batch_round_trips() {
    let msg = Message {
        header: None,
        delivery_annotations: None,
        message_annotations: None,
        properties: None,
        application_properties: None,
        body: Body::DataBatch(vec![
            fe2o3_amqp::messaging::Data(vec![1, 2, 3]),
            fe2o3_amqp::messaging::Data(vec![]),
            fe2o3_amqp::messaging::Data(vec![9; 300]),
        ]),
        footer: None,
    };
    let bytes = encode_message(&msg);
    let back = decode_message(&bytes).unwrap();
    match back.body {
        Body::DataBatch(ds) => {
            assert_eq!(ds.len(), 3);
            assert_eq!(ds[0].0, vec![1, 2, 3]);
            assert!(ds[1].0.is_empty());
            assert_eq!(ds[2].0, vec![9; 300]);
        }
        other => panic!("expected a data batch, got {:?}", other),
    }
}

#[test]
fn sequence_batch_round_trips() {
    let msg = Message {
        header: None,
        delivery_annotations: None,
        message_annotations: None,
        properties: None,
        application_properties: None,
        body: Body::SequenceBatch(vec![
            fe2o3_amqp::messaging::AmqpSequence(vec![Value::Uint(1), Value::Bool(true)]),
            fe2o3_amqp::messaging::AmqpSequence(vec![Value::String("two".to_owned())]),
        ]),
        footer: None,
    };
    let bytes = encode_message(&msg);
    let back = decode_message(&bytes).unwrap();
    match back.body {
        Body::SequenceBatch(ss) => {
            assert_eq!(ss.len(), 2);
            assert!(matches!(ss[0].0[0], Value::Uint(1)));
            assert!(matches!(ss[0].0[1], Value::Bool(true)));
            assert!(matches!(&ss[1].0[0], Value::String(s) if s == "two"));
        }
        other => panic!("expected a sequence batch, got {:?}", other),
    }
}
