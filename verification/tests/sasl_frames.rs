use fe2o3_amqp::sasl::{Frame, FrameCodec, SaslInit, SaslMechanisms, SaslOutcome};

#[test]
fn test_serialize_frame_body() {
    let mechanism = SaslMechanisms {
        sasl_server_mechanisms: vec!["PLAIN".to_owned()],
    };
    let mut codec = FrameCodec {};
    let mut buf: Vec<u8> = Vec::new();
    codec.encode(Frame::Mechanisms(mechanism), &mut buf).unwrap();
    println!("{:#x?}", buf);
    let deserialized: Frame = codec.decode(&buf).unwrap();
    println!("{:?}", deserialized);
}

#[test]
fn sasl_init_round_trips() {
    let init = SaslInit {
        mechanism: "ANONYMOUS".to_owned(),
        initial_response: Some(vec![1, 2, 3]),
        hostname: Some("localhost".to_owned()),
    };
    let mut codec = FrameCodec {};
    let mut buf: Vec<u8> = Vec::new();
    codec.encode(Frame::Init(init), &mut buf).unwrap();
    match codec.decode(&buf) {
        Some(Frame::Init(back)) => {
            assert_eq!(back.mechanism, "ANONYMOUS");
            assert_eq!(back.initial_response, Some(vec![1, 2, 3]));
            assert_eq!(back.hostname, Some("localhost".to_owned()));
        }
        other => panic!("decoded to the wrong frame: {:?}", other),
    }
}

#[test]
fn sasl_outcome_round_trips() {
    let outcome = SaslOutcome { code: 0, additional_data: None };
    let mut codec = FrameCodec {};
    let mut buf: Vec<u8> = Vec::new();
    codec.encode(Frame::Outcome(outcome), &mut buf).unwrap();
    match codec.decode(&buf) {
        Some(Frame::Outcome(back)) => {
            assert_eq!(back.code, 0);
            assert_eq!(back.additional_data, None);
        }
        other => panic!("decoded to the wrong frame: {:?}", other),
    }
}
