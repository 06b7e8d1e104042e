use fe2o3_amqp::builder::{Builder, SenderRole, WithoutName, WithoutTarget};
use fe2o3_amqp::connection::Connection;
use fe2o3_amqp::definitions::{
    AmqpError, ConnectionState, ReceiverSettleMode, Role, SessionState,
};
use fe2o3_amqp::delivery::{send_result_from_delivery_state, send_result_from_settled};
use fe2o3_amqp::link::LinkFlowStateInner;
use fe2o3_amqp::messaging::{AmqpValue, Body, Message};
use fe2o3_amqp::performatives::{
    Begin, DeliveryState, ErrorCondition, ErrorDef, Flow, LinkFlow, Outcome, Rejected,
    SessionFrameBody, Target, Transfer,
};
use fe2o3_amqp::receiver_link::{
    receiver_disposition, receiver_on_incoming_transfer, receiver_set_credit, TransferOutcome,
};
use fe2o3_amqp::relay::LinkRelay;
use fe2o3_amqp::sections::{decode_message, encode_message};
use fe2o3_amqp::sender_link::{
    emit_transfers, sender_on_incoming_disposition, UnsettledMap,
};
use fe2o3_amqp::session::{batch_disposition_echoes, IncomingAttach, Session};
use fe2o3_amqp::value::Value;

fn mapped_session() -> Session {
    let mut s = Session::unmapped(0, 0, u32::MAX);
    s.send_begin().unwrap();
    let begin = Begin {
        remote_channel: Some(0),
        next_outgoing_id: 0,
        incoming_window: 100,
        outgoing_window: 100,
        handle_max: u32::MAX,
        offered_capabilities: None,
        desired_capabilities: None,
        properties: None,
    };
    s.on_incoming_begin(0, &begin).unwrap();
    assert_eq!(s.local_state(), SessionState::Mapped);
    s
}

fn plain_transfer(handle: u32, tag: Option<u32>) -> Transfer {
    Transfer {
        handle,
        delivery_id: None,
        delivery_tag: tag,
        message_format: Some(0),
        settled: Some(false),
        more: false,
        rcv_settle_mode: None,
        state: None,
        resume: false,
        aborted: false,
        batchable: false,
    }
}

#[test]
fn transfer_ids_increase_by_one_from_the_initial_id() {
    // Session transfer-id monotonicity over a run of outgoing transfers.
    let mut s = mapped_session();
    let mut seen = Vec::new();
    for tag in 0..3u32 {
        assert!(s.can_send_transfer());
        let frame = s.on_outgoing_transfer(plain_transfer(0, Some(tag)), Vec::new());
        match frame.body {
            SessionFrameBody::Transfer { performative, .. } => {
                seen.push(performative.delivery_id.unwrap());
            }
            _ => panic!("expected a transfer frame"),
        }
    }
    assert_eq!(seen, vec![0, 1, 2]);
}

#[test]
fn window_symmetry_after_flow_and_transfers() {
    // remote-incoming-window equals the peer's next-incoming-id plus its
    // incoming-window minus the local next-outgoing-id, and shrinks by
    // one for every transfer sent.
    let mut s = mapped_session();
    let flow = Flow {
        next_incoming_id: Some(0),
        incoming_window: 5,
        next_outgoing_id: 0,
        outgoing_window: 50,
        handle: None,
        delivery_count: None,
        link_credit: None,
        available: None,
        drain: false,
        echo: false,
        properties: None,
    };
    s.on_incoming_flow(flow).unwrap();
    assert_eq!(s.remote_incoming_window, 5);
    s.on_outgoing_transfer(plain_transfer(0, Some(1)), Vec::new());
    assert_eq!(s.remote_incoming_window, 4);
    assert_eq!(s.next_outgoing_id, 1);
}

#[test]
fn sender_credit_follows_the_flow_formula() {
    // link-credit := delivery-count_rcv + link-credit_rcv - delivery-count_snd
    let mut flow_state = LinkFlowStateInner::new(0, None);
    let link_flow = LinkFlow {
        handle: 0,
        delivery_count: Some(2),
        link_credit: Some(10),
        available: None,
        drain: false,
        echo: false,
        properties: None,
    };
    flow_state.sender_on_incoming_flow(&link_flow, 0);
    assert_eq!(flow_state.link_credit, 12);
    // After consuming, credit never goes below zero and the count grows.
    assert!(flow_state.try_consume_credit(12));
    assert_eq!(flow_state.link_credit, 0);
    assert!(!flow_state.try_consume_credit(1));
}

#[test]
fn no_credit_no_send() {
    let mut flow_state = LinkFlowStateInner::new(0, None);
    assert_eq!(flow_state.link_credit, 0);
    // At zero credit the consume step refuses, so no transfer is built.
    assert!(!flow_state.try_consume_credit(1));
    assert_eq!(flow_state.delivery_count, 0);
}

#[test]
fn unsettled_map_tracks_only_unsettled_deliveries() {
    let mut flow_state = LinkFlowStateInner::new(0, None);
    flow_state.link_credit = 2;
    let mut unsettled: UnsettledMap = UnsettledMap::new();

    // A pre-settled delivery never registers an entry.
    emit_transfers(&mut flow_state, &mut unsettled, 0, 1, b"one".to_vec(), 0, true, 512);
    assert!(unsettled.get(&1).is_none());

    // An unsettled delivery registers an entry until its settlement.
    emit_transfers(&mut flow_state, &mut unsettled, 0, 2, b"two".to_vec(), 0, false, 512);
    assert_eq!(unsettled.get(&2).unwrap().payload, b"two".to_vec());

    let (echo, outcome) = sender_on_incoming_disposition(
        &mut unsettled,
        ReceiverSettleMode::First,
        true,
        Some(DeliveryState::Accepted(fe2o3_amqp::performatives::Accepted {})),
        2,
    );
    assert!(!echo);
    assert!(matches!(outcome, Some(Some(DeliveryState::Accepted(_)))));
    assert!(unsettled.get(&2).is_none());
}

#[test]
fn disposition_covers_every_ledger_id_exactly_once() {
    let mut s = mapped_session();
    for tag in 0..5u32 {
        s.on_outgoing_transfer(plain_transfer(0, Some(tag)), Vec::new());
    }
    // Ids 1 through 3 are covered; each is dispatched once, in order.
    let dispatches = s.on_incoming_disposition(1, 3, true);
    let ids: Vec<u32> = dispatches.iter().map(|d| d.delivery_id).collect();
    assert_eq!(ids, vec![1, 2, 3]);
    // Covered entries left the ledger; dispositions on them find nothing.
    assert!(s.on_incoming_disposition(1, 3, true).is_empty());
    // The uncovered entries are still there.
    assert_eq!(
        s.on_incoming_disposition(0, 4, true)
            .iter()
            .map(|d| d.delivery_id)
            .collect::<Vec<u32>>(),
        vec![0, 4]
    );
}

#[test]
fn open_close_happy_path() {
    // Client and server open to each other and close cleanly; both reach
    // the end state with no error.
    let mut client = Connection::start("c".to_owned(), 65536, 4);
    let mut server = Connection::start("s".to_owned(), 65536, 4);

    client.on_header_sent().unwrap();
    server.on_incoming_header(true).unwrap();
    server.on_header_sent().unwrap();
    client.on_incoming_header(true).unwrap();

    let open_c = client.send_open().unwrap();
    assert_eq!(open_c.container_id, "c");
    server.on_incoming_open(&open_c).unwrap();
    let open_s = server.send_open().unwrap();
    assert_eq!(open_s.container_id, "s");
    client.on_incoming_open(&open_s).unwrap();
    assert_eq!(client.local_state, ConnectionState::Opened);
    assert_eq!(server.local_state, ConnectionState::Opened);

    let close_c = client.send_close(None).unwrap();
    let reply = server.on_incoming_close(close_c).unwrap();
    assert!(reply);
    let close_s = server.send_close(None).unwrap();
    assert!(close_s.error.is_none());
    let reply_back = client.on_incoming_close(close_s).unwrap();
    assert!(!reply_back);
    assert_eq!(client.local_state, ConnectionState::End);
    assert_eq!(server.local_state, ConnectionState::End);
}

fn attach_link(session: &mut Session, role: Role) -> u32 {
    session
        .allocate_link(
            format!("link-{:?}", role),
            LinkRelay { role, receiver_settle_mode: ReceiverSettleMode::First },
        )
        .unwrap()
}

#[test]
fn single_message_pre_settled() {
    // Receiver grants credit 1; sender sends a pre-settled value; the
    // receiver delivers it and no disposition follows.
    let mut sender_session = mapped_session();
    let handle = attach_link(&mut sender_session, Role::Sender);

    let mut sender_flow = LinkFlowStateInner::new(0, None);
    let mut receiver_flow = LinkFlowStateInner::new(0, None);
    let mut unsettled: UnsettledMap = UnsettledMap::new();

    // The receiver announces one unit of credit; the sender adopts it.
    let credit_flow = receiver_set_credit(&mut receiver_flow, handle, 1);
    sender_flow.sender_on_incoming_flow(&credit_flow, handle);
    assert_eq!(sender_flow.link_credit, 1);

    let message = Message::builder()
        .value(Value::String("hello".to_owned()))
        .build();
    let payload = encode_message(&message);
    let frames = emit_transfers(
        &mut sender_flow,
        &mut unsettled,
        handle,
        0,
        payload,
        0,
        true,
        512,
    );
    assert!(unsettled.is_empty());

    let mut delivered = None;
    let mut partial = None;
    for (i, (mut transfer, chunk)) in frames.into_iter().enumerate() {
        if i == 0 {
            transfer.delivery_id = Some(0);
        }
        match receiver_on_incoming_transfer(&mut receiver_flow, partial.take(), &transfer, chunk)
            .unwrap()
        {
            TransferOutcome::Partial(p) => partial = Some(p),
            TransferOutcome::Completed { payload, .. } => delivered = Some(payload),
        }
    }
    let delivered = delivered.unwrap();
    let back = decode_message(&delivered).unwrap();
    assert!(matches!(
        &back.body,
        Body::Value(AmqpValue(Value::String(s))) if s == "hello"
    ));
    // Pre-settled: the receiver owes no disposition.
    assert!(receiver_disposition(
        0,
        true,
        ReceiverSettleMode::First,
        DeliveryState::Accepted(fe2o3_amqp::performatives::Accepted {})
    )
    .is_none());
    // The send resolves to accepted at once.
    assert!(matches!(send_result_from_settled(), Ok(Outcome::Accepted(_))));
}

#[test]
fn single_message_rcv_settle_mode_first() {
    // Credit 1; the sender sends unsettled; the receiver answers with a
    // settled accepted disposition and the send resolves to accepted.
    let mut sender_flow = LinkFlowStateInner::new(0, None);
    let mut receiver_flow = LinkFlowStateInner::new(0, None);
    let mut unsettled: UnsettledMap = UnsettledMap::new();
    let grant = receiver_set_credit(&mut receiver_flow, 0, 1);
    sender_flow.sender_on_incoming_flow(&grant, 0);

    let message = Message::builder().value(Value::Uint(42)).build();
    let payload = encode_message(&message);
    emit_transfers(&mut sender_flow, &mut unsettled, 0, 7, payload, 0, false, 512);
    assert!(unsettled.contains_key(&7));

    let disposition = receiver_disposition(
        0,
        false,
        ReceiverSettleMode::First,
        DeliveryState::Accepted(fe2o3_amqp::performatives::Accepted {}),
    )
    .unwrap();
    assert!(disposition.settled);

    let (echo, outcome) = sender_on_incoming_disposition(
        &mut unsettled,
        ReceiverSettleMode::First,
        disposition.settled,
        disposition.state,
        7,
    );
    assert!(!echo);
    let state = outcome.unwrap().unwrap();
    assert!(matches!(
        send_result_from_delivery_state(state),
        Ok(Outcome::Accepted(_))
    ));
}

#[test]
fn rejected_outcome_reaches_the_sender() {
    let mut unsettled: UnsettledMap = UnsettledMap::new();
    let mut flow = LinkFlowStateInner::new(0, None);
    flow.link_credit = 1;
    emit_transfers(&mut flow, &mut unsettled, 0, 1, b"0".to_vec(), 0, false, 512);

    let rejection = DeliveryState::Rejected(Rejected {
        error: Some(ErrorDef {
            condition: ErrorCondition::Amqp(AmqpError::DecodeError),
            description: None,
        }),
    });
    let (_, outcome) = sender_on_incoming_disposition(
        &mut unsettled,
        ReceiverSettleMode::First,
        true,
        Some(rejection),
        1,
    );
    let state = outcome.unwrap().unwrap();
    match send_result_from_delivery_state(state) {
        Ok(Outcome::Rejected(rej)) => {
            let err = rej.error.unwrap();
            assert!(matches!(err.condition, ErrorCondition::Amqp(AmqpError::DecodeError)));
        }
        other => panic!("expected a rejected outcome, got {:?}", other),
    }
}

#[test]
fn credit_exhaustion_suspends_the_third_send() {
    // Credit 2 covers two sends; the third waits until one more unit of
    // credit arrives; delivery ids come out 0, 1, 2.
    let mut s = mapped_session();
    let mut flow = LinkFlowStateInner::new(0, None);
    let mut unsettled: UnsettledMap = UnsettledMap::new();
    let grant = LinkFlow {
        handle: 0,
        delivery_count: Some(0),
        link_credit: Some(2),
        available: None,
        drain: false,
        echo: false,
        properties: None,
    };
    flow.sender_on_incoming_flow(&grant, 0);

    let mut ids = Vec::new();
    for tag in 0..2u32 {
        assert!(flow.link_credit >= 1);
        let frames = emit_transfers(&mut flow, &mut unsettled, 0, tag, Vec::new(), 0, true, 512);
        let frame = s.on_outgoing_transfer(frames.into_iter().next().unwrap().0, Vec::new());
        if let SessionFrameBody::Transfer { performative, .. } = frame.body {
            ids.push(performative.delivery_id.unwrap());
        }
    }
    // The third send finds no credit and suspends.
    assert!(!flow.try_consume_credit(1));
    // A further Flow grants one more unit.
    let refresh = LinkFlow {
        handle: 0,
        delivery_count: Some(0),
        link_credit: Some(3),
        available: None,
        drain: false,
        echo: false,
        properties: None,
    };
    flow.sender_on_incoming_flow(&refresh, 0);
    assert_eq!(flow.link_credit, 1);
    let frames = emit_transfers(&mut flow, &mut unsettled, 0, 2, Vec::new(), 0, true, 512);
    let frame = s.on_outgoing_transfer(frames.into_iter().next().unwrap().0, Vec::new());
    if let SessionFrameBody::Transfer { performative, .. } = frame.body {
        ids.push(performative.delivery_id.unwrap());
    }
    assert_eq!(ids, vec![0, 1, 2]);
}

#[test]
fn fragmented_transfer_reassembles() {
    // With a 512-byte frame budget a 2000-byte section crosses in four
    // or more frames; only the first carries the delivery identity, all
    // but the last carry more, and the receiver reassembles the bytes.
    let mut sender_flow = LinkFlowStateInner::new(0, None);
    let mut receiver_flow = LinkFlowStateInner::new(0, None);
    receiver_flow.link_credit = 1;
    sender_flow.link_credit = 1;
    let mut unsettled: UnsettledMap = UnsettledMap::new();

    let payload: Vec<u8> = (0..2000u32).map(|i| (i * 7 % 256) as u8).collect();
    let frames = emit_transfers(
        &mut sender_flow,
        &mut unsettled,
        0,
        1,
        payload.clone(),
        0,
        true,
        504,
    );
    assert!(frames.len() >= 4);
    assert_eq!(frames[0].0.delivery_tag, Some(1));
    for (i, (t, _)) in frames.iter().enumerate() {
        assert_eq!(t.more, i < frames.len() - 1);
        if i > 0 {
            assert!(t.delivery_tag.is_none());
        }
    }

    let mut partial = None;
    let mut delivered = None;
    for (i, (mut transfer, chunk)) in frames.into_iter().enumerate() {
        if i == 0 {
            transfer.delivery_id = Some(0);
        }
        match receiver_on_incoming_transfer(&mut receiver_flow, partial.take(), &transfer, chunk)
            .unwrap()
        {
            TransferOutcome::Partial(p) => partial = Some(p),
            TransferOutcome::Completed { payload, .. } => delivered = Some(payload),
        }
    }
    assert_eq!(delivered.unwrap(), payload);
}

#[test]
fn mode_second_settlement_owes_an_echo() {
    // In receiver-settle-mode Second the receiver first answers
    // unsettled; once the settling disposition arrives, the sender owes
    // the settled echo.
    let mut unsettled: UnsettledMap = UnsettledMap::new();
    let mut flow = LinkFlowStateInner::new(0, None);
    flow.link_credit = 1;
    emit_transfers(&mut flow, &mut unsettled, 0, 3, b"x".to_vec(), 0, false, 512);

    let unsettled_reply = receiver_disposition(
        0,
        false,
        ReceiverSettleMode::Second,
        DeliveryState::Accepted(fe2o3_amqp::performatives::Accepted {}),
    )
    .unwrap();
    assert!(!unsettled_reply.settled);

    // The non-settling disposition only updates the stored state.
    let (echo, outcome) = sender_on_incoming_disposition(
        &mut unsettled,
        ReceiverSettleMode::Second,
        false,
        unsettled_reply.state,
        3,
    );
    assert!(!echo);
    assert!(outcome.is_none());
    assert!(matches!(
        unsettled.get(&3).unwrap().state,
        Some(DeliveryState::Accepted(_))
    ));

    // The settling disposition removes the entry and asks for the echo.
    let (echo, outcome) = sender_on_incoming_disposition(
        &mut unsettled,
        ReceiverSettleMode::Second,
        true,
        Some(DeliveryState::Accepted(fe2o3_amqp::performatives::Accepted {})),
        3,
    );
    assert!(echo);
    assert!(outcome.is_some());
    assert!(unsettled.is_empty());
}

#[test]
fn echo_batching_covers_exactly_the_requested_ids() {
    let entries = vec![(1u32, true), (2, true), (3, false), (4, true), (7, true)];
    let echoes = batch_disposition_echoes(Role::Sender, &entries);
    let mut covered = Vec::new();
    for d in &echoes {
        assert!(d.settled);
        assert_eq!(d.role, Role::Sender);
        let last = d.last.unwrap();
        for id in d.first..=last {
            covered.push(id);
        }
    }
    assert_eq!(covered, vec![1, 2, 4, 7]);
}

#[test]
fn unknown_attach_is_tolerated_with_a_fresh_handle() {
    let mut s = mapped_session();
    // The peer initiates a sender link under a name this side never
    // allocated: the session tolerates it under a fresh local handle,
    // with the opposite role.
    let remote_attach = Builder::<SenderRole, WithoutName, WithoutTarget>::new()
        .name("remote-initiated".to_owned())
        .target(Target::with_address("q2".to_owned()))
        .local_attach(Role::Sender, 9);
    match s.on_incoming_attach(&remote_attach).unwrap() {
        IncomingAttach::Tolerated(h) => {
            // The same attach now continues the freshly bound link.
            match s.on_incoming_attach(&remote_attach).unwrap() {
                IncomingAttach::Matched(h2) => assert_eq!(h, h2),
                IncomingAttach::Tolerated(_) => panic!("the name is bound now"),
            }
        }
        IncomingAttach::Matched(_) => panic!("the name was never allocated"),
    }
}
