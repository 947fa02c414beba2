use volume_mirror::console::{ConnState, ConsoleClient};

#[test]
fn healthy_call_makes_no_reconnect() {
    let mut client = ConsoleClient::new(true);
    assert_eq!(client.conn, ConnState::Connected { generation: 0 });

    // The call tries the current connection, and it works.
    let target = client.first_attempt_target();
    assert_eq!(target, Some(0));
    assert!(!client.must_reconnect(Some(true)));

    // Nothing about the client changed: no reconnect was attempted.
    assert_eq!(client.conn, ConnState::Connected { generation: 0 });
    assert_eq!(client.attempts, 1);
}

#[test]
fn failing_call_reconnects_exactly_once_and_succeeds() {
    let mut client = ConsoleClient::new(true);
    let attempts_before = client.attempts;

    // First attempt on the stale connection fails.
    let target = client.first_attempt_target();
    assert_eq!(target, Some(0));
    assert!(client.must_reconnect(Some(false)));

    // The reconnect succeeds; the operation is retried on the fresh
    // connection, which stays current.
    let fresh = client.record_connect_success();
    assert_eq!(fresh, 1);
    assert_eq!(client.conn, ConnState::Connected { generation: fresh });
    assert_eq!(client.attempts, attempts_before + 1);
}

#[test]
fn never_connected_call_goes_straight_to_reconnect() {
    let mut client = ConsoleClient::new(false);
    assert_eq!(client.conn, ConnState::Disconnected);
    let target = client.first_attempt_target();
    assert_eq!(target, None);
    assert!(client.must_reconnect(None));
    let fresh = client.record_connect_success();
    assert_eq!(client.conn, ConnState::Connected { generation: fresh });
}

#[test]
fn failing_reconnect_leaves_client_disconnected() {
    let mut client = ConsoleClient::new(true);

    // First attempt fails, and so does the reconnect: the call surfaces a
    // connection error and the client is disconnected.
    assert!(client.must_reconnect(Some(false)));
    client.record_connect_failure();
    assert_eq!(client.conn, ConnState::Disconnected);

    // The next call starts from the disconnected state.
    assert_eq!(client.first_attempt_target(), None);
}
