use club_im::ids::new_id;
use club_im::realtime::hub::CONNECTION_BUFFER;
use club_im::realtime::socket::{on_frame, Frame, SocketStep};
use club_im::realtime::{error_message, Hub};
use serde_json::Value;

#[test]
fn hub_tracks_multiple_connections_and_presence() {
    let mut hub = Hub::default();
    let user = new_id();
    assert!(!hub.online(user));

    let (conn1, mut rx1) = hub.register(user);
    let (_conn2, mut rx2) = hub.register(user);
    assert!(hub.online(user));

    let sent = hub.send_to(user, "hello");
    assert_eq!(sent, 2, "多端均应收到");
    assert_eq!(rx1.try_recv().expect("rx1"), "hello");
    assert_eq!(rx2.try_recv().expect("rx2"), "hello");

    hub.unregister(user, conn1);
    assert!(hub.online(user), "仍有另一连接");
    let _ = rx1;
}

#[test]
fn hub_ignores_offline_users_and_bad_envelope() {
    let mut hub = Hub::default();
    let user = new_id();
    assert_eq!(hub.send_to(user, "x"), 0);
    hub.broadcast(&[user], "y");
    assert!(error_message(None, "E", "msg").contains("\"type\":\"error\""));
}

#[test]
fn closing_the_last_connection_takes_a_user_offline() {
    let mut hub = Hub::new();
    let (a, b) = (new_id(), new_id());
    let (conn_a, _rx_a) = hub.register(a);
    let (conn_b, _rx_b) = hub.register(b);
    hub.unregister(a, conn_b);
    assert!(hub.online(a), "somebody else's connection is not theirs to lose");
    hub.unregister(a, conn_a);
    assert!(!hub.online(a));
    assert!(hub.online(b));
    hub.unregister(a, conn_a);
    assert!(!hub.online(a), "closing twice changes nothing");
    assert_eq!(hub.send_to(a, "x"), 0);
}

#[test]
fn full_and_closed_connections_are_not_counted() {
    let mut hub = Hub::new();
    let user = new_id();
    let (_slow, mut slow_rx) = hub.register(user);
    for _ in 0..CONNECTION_BUFFER {
        assert_eq!(hub.send_to(user, "x"), 1);
    }
    assert_eq!(hub.send_to(user, "x"), 0, "the buffer is full");
    assert_eq!(slow_rx.try_recv().expect("waiting"), "x");
    assert_eq!(hub.send_to(user, "x"), 1);
    let (_gone, gone_rx) = hub.register(user);
    drop(gone_rx);
    assert_eq!(hub.send_to(user, "x"), 0, "one is full again, one is closed");
}

#[test]
fn broadcast_counts_by_user() {
    let mut hub = Hub::new();
    let (a, b, c) = (new_id(), new_id(), new_id());
    let (_a1, mut rx_a) = hub.register(a);
    let (_b1, mut rx_b1) = hub.register(b);
    let (_b2, mut rx_b2) = hub.register(b);
    assert_eq!(hub.broadcast(&[a, c, b], "all"), vec![1, 0, 2]);
    for rx in [&mut rx_a, &mut rx_b1, &mut rx_b2] {
        assert_eq!(rx.try_recv().expect("a text"), "all");
    }
}

#[test]
fn a_text_goes_to_the_connections_of_its_user_alone() {
    let mut hub = Hub::new();
    let (a, b) = (new_id(), new_id());
    let (_a1, mut rx_a1) = hub.register(a);
    assert!(rx_a1.try_recv().is_err(), "nothing waits in a new connection");
    let (_a2, mut rx_a2) = hub.register(a);
    let (_b1, mut rx_b) = hub.register(b);
    assert_eq!(hub.send_to(a, "first"), 2);
    assert_eq!(hub.send_to(a, "second"), 2);
    for rx in [&mut rx_a1, &mut rx_a2] {
        assert_eq!(rx.try_recv().expect("a text"), "first");
        assert_eq!(rx.try_recv().expect("a text"), "second");
        assert!(rx.try_recv().is_err(), "each text comes once");
    }
    assert!(rx_b.try_recv().is_err(), "somebody else gets nothing");
}

#[test]
fn a_closed_connection_gets_no_more_texts() {
    let mut hub = Hub::new();
    let user = new_id();
    let (conn1, mut rx1) = hub.register(user);
    let (_conn2, mut rx2) = hub.register(user);
    hub.unregister(user, conn1);
    assert_eq!(hub.send_to(user, "x"), 1);
    assert!(rx1.try_recv().is_err());
    assert_eq!(rx2.try_recv().expect("a text"), "x");
}

#[test]
fn a_user_who_is_named_twice_is_told_twice() {
    let mut hub = Hub::new();
    let (a, b) = (new_id(), new_id());
    let (_a1, mut rx_a) = hub.register(a);
    let (_b1, mut rx_b) = hub.register(b);
    assert_eq!(hub.broadcast(&[a, a], "x"), vec![1, 1]);
    assert_eq!(rx_a.try_recv().expect("a text"), "x");
    assert_eq!(rx_a.try_recv().expect("a text"), "x");
    assert!(rx_a.try_recv().is_err());
    assert!(rx_b.try_recv().is_err());
}

#[test]
fn error_envelopes_repeat_the_request() {
    let with: Value = serde_json::from_str(&error_message(Some("r9"), "E", "msg")).expect("JSON");
    assert_eq!(with["requestId"], "r9");
    assert_eq!(with["payload"]["code"], "E");
    assert_eq!(with["payload"]["message"], "msg");
    let without: Value = serde_json::from_str(&error_message(None, "E", "msg")).expect("JSON");
    assert_eq!(without["requestId"], Value::Null);
}

#[test]
fn frames_are_handled_passed_over_or_end_the_connection() {
    match on_frame(Frame::Text("hi".to_string())) {
        SocketStep::Handle(text) => assert_eq!(text, "hi"),
        other => panic!("not handled: {other:?}"),
    }
    assert!(matches!(on_frame(Frame::Other), SocketStep::Wait));
    assert!(matches!(on_frame(Frame::Close), SocketStep::Leave));
    assert!(matches!(on_frame(Frame::Lost), SocketStep::Leave));
}
