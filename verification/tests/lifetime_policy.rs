use fe2o3_amqp::lifetime_policy::{DeleteOnClose, LifetimePolicy};

#[test]
fn test_serialize_enum_and_struct() {
    let s = DeleteOnClose::new();
    let e = LifetimePolicy::DeleteOnClose(DeleteOnClose {});

    let s_buf = LifetimePolicy::from(s).encode();
    let e_buf = e.encode();

    assert_eq!(s_buf, e_buf);
}

#[test]
fn test_deserialize_encoded_struct_as_enum() {
    let value = DeleteOnClose::new();
    let buf = LifetimePolicy::from(value).encode();
    let enum_value: LifetimePolicy = LifetimePolicy::decode(&buf).unwrap();

    assert!(matches!(enum_value, LifetimePolicy::DeleteOnClose(_)));
}

#[test]
fn each_policy_round_trips() {
    let all = vec![
        LifetimePolicy::DeleteOnClose(DeleteOnClose {}),
        LifetimePolicy::DeleteOnNoLinks(fe2o3_amqp::lifetime_policy::DeleteOnNoLinks {}),
        LifetimePolicy::DeleteOnNoMessages(fe2o3_amqp::lifetime_policy::DeleteOnNoMessages {}),
        LifetimePolicy::DeleteOnNoLinksOrMessages(
            fe2o3_amqp::lifetime_policy::DeleteOnNoLinksOrMessages {},
        ),
    ];
    for p in all {
        let buf = p.encode();
        assert_eq!(LifetimePolicy::decode(&buf), Some(p));
    }
}
