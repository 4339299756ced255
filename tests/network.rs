use p2p_network::{
    MockWorker, NetConnection, NetError, NetWorker, P2pBackendKind, P2pConfig, P2pNetwork,
    RecordingHandler,
};

type MockNet = P2pNetwork<String, MockWorker<String>, RecordingHandler<String>>;

fn mock_config(name: &str) -> P2pConfig {
    P2pConfig::new(P2pBackendKind::MOCK, name)
}

fn open_mock(name: &str) -> MockNet {
    MockNet::new(RecordingHandler::new(), &mock_config(name)).unwrap()
}

#[test]
fn it_should_create_mock() {
    let mut res = MockNet::new(RecordingHandler::new(), &mock_config("unique-mock")).unwrap();
    res.send("P2pReady".to_string()).unwrap();
    res.stop().unwrap();
}

#[test]
fn mock_send_then_stop_delivers_one_message() {
    let mut net = open_mock("net-a");
    assert_eq!(net.send("Ready".to_string()), Ok(()));
    assert_eq!(net.stop(), Ok(()));
    assert_eq!(net.worker().received_count(), 1);
    assert_eq!(net.worker().received_messages(), &vec!["Ready".to_string()]);
    assert!(net.worker().stopped());
}

#[test]
fn unknown_tag_is_refused_before_construction() {
    assert_eq!(P2pConfig::from_tag("ZMQ", "{}").err(), Some(NetError::UnknownBackendKind));
    assert_eq!(P2pConfig::from_tag("", "{}").err(), Some(NetError::UnknownBackendKind));
    assert_eq!(P2pConfig::from_tag("mock", "{}").err(), Some(NetError::UnknownBackendKind));
    assert_eq!(P2pBackendKind::from_tag("MOCKS"), Err(NetError::UnknownBackendKind));
}

#[test]
fn registered_tags_resolve() {
    assert_eq!(P2pBackendKind::from_tag("IPC"), Ok(P2pBackendKind::IPC));
    assert_eq!(P2pBackendKind::from_tag("MOCK"), Ok(P2pBackendKind::MOCK));
    let cfg = P2pConfig::from_tag("MOCK", "net-b").unwrap();
    assert_eq!(cfg.backend_kind, P2pBackendKind::MOCK);
    assert_eq!(cfg.backend_config, "net-b");
    assert!(MockNet::new(RecordingHandler::new(), &cfg).is_ok());
}

#[test]
fn kind_tags_round_trip() {
    for kind in [P2pBackendKind::IPC, P2pBackendKind::MOCK] {
        assert_eq!(P2pBackendKind::from_tag(&kind.tag()), Ok(kind));
    }
    assert_eq!(P2pBackendKind::IPC.tag(), "IPC");
    assert_eq!(P2pBackendKind::MOCK.tag(), "MOCK");
}

#[test]
fn backend_that_cannot_be_built_for_the_kind_fails_construction() {
    let cfg = P2pConfig::new(P2pBackendKind::IPC, "ipc://unreachable");
    match MockNet::new(RecordingHandler::new(), &cfg) {
        Err(e) => assert_eq!(
            e,
            NetError::BackendConstructionFailed(Box::new(NetError::UnknownBackendKind))
        ),
        Ok(_) => panic!("the mock backend was built for the ipc kind"),
    }
}

#[test]
fn send_after_stop_is_refused() {
    let mut net = open_mock("net-c");
    net.stop().unwrap();
    assert!(net.stopped());
    assert_eq!(net.send("late".to_string()), Err(NetError::SendAfterStopped));
    assert_eq!(net.send("later".to_string()), Err(NetError::SendAfterStopped));
    assert_eq!(net.worker().received_count(), 0);
}

#[test]
fn second_stop_succeeds_and_changes_nothing() {
    let mut net = open_mock("net-d");
    net.send("one".to_string()).unwrap();
    assert_eq!(net.stop(), Ok(()));
    assert_eq!(net.stop(), Ok(()));
    assert_eq!(net.worker().received_count(), 1);
    assert_eq!(net.endpoint(), "net-d");
}

#[test]
fn endpoint_is_stable_across_sends() {
    let mut net = open_mock("mock://net-e");
    assert_eq!(net.endpoint(), "mock://net-e");
    net.send("a".to_string()).unwrap();
    net.send("b".to_string()).unwrap();
    assert_eq!(net.endpoint(), "mock://net-e");
    net.process().unwrap();
    net.stop().unwrap();
    assert_eq!(net.endpoint(), "mock://net-e");
}

#[test]
fn messages_reach_backend_in_send_order() {
    let sent: Vec<String> = (0..5).map(|i| format!("msg-{}", i)).collect();
    let mut net = open_mock("net-f");
    for m in &sent {
        net.send(m.clone()).unwrap();
    }
    assert_eq!(net.worker().received_count(), 0);
    net.stop().unwrap();
    assert_eq!(net.worker().received_messages(), &sent);
}

#[test]
fn no_sends_means_nothing_received() {
    let mut net = open_mock("net-g");
    net.stop().unwrap();
    assert_eq!(net.worker().received_count(), 0);
}

#[test]
fn process_forwards_and_hands_inbound_to_handler_in_order() {
    let mut net = open_mock("net-h");
    net.send("x".to_string()).unwrap();
    net.send("y".to_string()).unwrap();
    assert_eq!(net.process(), Ok(true));
    assert_eq!(net.worker().received_count(), 2);
    assert_eq!(net.process(), Ok(true));
    assert_eq!(net.process(), Ok(false));
    assert_eq!(
        net.handler().handled_results(),
        &vec![Ok("x".to_string()), Ok("y".to_string())]
    );
    net.stop().unwrap();
    assert_eq!(net.process(), Ok(false));
    assert_eq!(net.handler().handled_results().len(), 2);
}

#[test]
fn connection_bridge_queues_until_processed() {
    let worker = MockWorker::<String>::construct(P2pBackendKind::MOCK, "bridge").unwrap();
    let mut conn = NetConnection::new(RecordingHandler::new(), worker);
    assert_eq!(conn.endpoint(), "bridge");
    conn.send("p".to_string()).unwrap();
    assert_eq!(conn.worker().received_count(), 0);
    assert_eq!(conn.process(), Ok(true));
    assert_eq!(conn.worker().received_messages(), &vec!["p".to_string()]);
    assert_eq!(conn.handler().handled_results(), &vec![Ok("p".to_string())]);
    assert_eq!(conn.stop(), Ok(()));
    assert!(conn.stopped());
    assert!(conn.worker().stopped());
    assert_eq!(conn.send("q".to_string()), Err(NetError::SendAfterStopped));
    assert_eq!(conn.handler().handled_results().len(), 1);
}

#[test]
fn deliver_hands_each_tick_result_to_handler() {
    let worker = MockWorker::<String>::construct(P2pBackendKind::MOCK, "d").unwrap();
    let mut conn = NetConnection::new(RecordingHandler::new(), worker);
    assert_eq!(conn.deliver(Ok(Some("in".to_string())), false), Ok(true));
    assert_eq!(conn.deliver(Ok(None), false), Ok(false));
    assert_eq!(conn.deliver(Ok(None), true), Ok(true));
    assert_eq!(conn.deliver(Err(NetError::SendAfterStopped), false), Ok(true));
    assert_eq!(
        conn.handler().handled_results(),
        &vec![Ok("in".to_string()), Err(NetError::BackendOperationFailed)]
    );
    conn.stop().unwrap();
    assert_eq!(conn.deliver(Ok(Some("late".to_string())), true), Ok(false));
    assert_eq!(conn.handler().handled_results().len(), 2);
}

#[test]
fn stopped_mock_refusals_reach_handler() {
    let mut worker = MockWorker::<String>::construct(P2pBackendKind::MOCK, "r").unwrap();
    assert_eq!(worker.stop(), Ok(()));
    assert!(worker.stopped());
    assert_eq!(worker.receive("m".to_string()), Err(NetError::BackendOperationFailed));
    assert_eq!(worker.tick(), Err(NetError::BackendOperationFailed));
    assert_eq!(worker.received_count(), 1);
}

#[test]
fn debug_text_names_the_type() {
    assert_eq!(open_mock("dbg").debug_text(), "P2pNetwork {}");
}

#[test]
fn mock_refuses_other_kinds() {
    let r = MockWorker::<String>::construct(P2pBackendKind::IPC, "x");
    assert_eq!(r.err(), Some(NetError::UnknownBackendKind));
}
