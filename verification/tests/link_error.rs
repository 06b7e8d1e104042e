use fe2o3_amqp::definitions::LinkError;
use fe2o3_amqp::symbol_codec::{link_error_from_amqp_bytes, link_error_to_amqp_bytes};

#[test]
fn test_serialize_and_deserialzie_link_error() {
    let val = LinkError::DetachForced;
    let buf = link_error_to_amqp_bytes(&val).unwrap();
    let val2: LinkError = link_error_from_amqp_bytes(&buf).unwrap();
    assert_eq!(val, val2)
}

#[test]
fn every_link_error_round_trips_through_its_symbol() {
    let all = vec![
        LinkError::DetachForced,
        LinkError::TransferLimitExceeded,
        LinkError::MessageSizeExceeded,
        LinkError::Redirect,
        LinkError::Stolen,
    ];
    for val in all {
        let buf = link_error_to_amqp_bytes(&val).unwrap();
        // The wire form is a symbol: sym8 with one byte per character.
        assert_eq!(buf[0], 0xa3);
        assert_eq!(buf[1] as usize, val.symbol().len());
        let back = link_error_from_amqp_bytes(&buf).unwrap();
        assert_eq!(val, back);
    }
}

#[test]
fn unknown_symbol_is_no_link_error() {
    let mut buf = vec![0xa3, 4];
    buf.extend_from_slice(b"nope");
    assert!(link_error_from_amqp_bytes(&buf).is_none());
}
