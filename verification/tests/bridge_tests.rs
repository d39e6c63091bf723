use mqtt_bridge::handle::{AckMode, MqttConnection, RequestKind};
use mqtt_bridge::session::{ConnectError, SessionError};

fn connected(id: &str) -> MqttConnection {
    let (mut conn, _req) =
        MqttConnection::connect_begin("localhost", 9002, "client-A", 8, AckMode::FireAndForget);
    conn.on_connect_result(true, id);
    let finished = conn.connect_finish();
    assert!(matches!(finished, Some(Ok(_))));
    conn
}

#[test]
fn connect_begin_forwards_the_call_as_given() {
    let (_conn, req) =
        MqttConnection::connect_begin("localhost", 9002, "client-A", 8, AckMode::Acknowledged);
    assert_eq!(req.host, "localhost");
    assert_eq!(req.port, 9002);
    assert_eq!(req.client_id, "client-A");
}

#[test]
fn successful_session_delivers_messages_in_order_then_disconnects() {
    let (mut conn, _req) =
        MqttConnection::connect_begin("localhost", 9002, "client-A", 8, AckMode::FireAndForget);
    conn.on_connect_result(true, "7");
    assert_eq!(conn.connect_finish(), Some(Ok(7)));

    let sub = conn.subscribe("sensors/#").unwrap();
    assert_eq!(sub.session_id, 7);
    assert_eq!(sub.topic, "sensors/#");
    assert_eq!(sub.kind, RequestKind::Subscribe);

    conn.on_message("sensors/temp".to_string(), "21.5".to_string()).unwrap();
    conn.on_message("sensors/humidity".to_string(), "40".to_string()).unwrap();

    let first = conn.next().unwrap().unwrap();
    assert_eq!(first.topic, "sensors/temp");
    assert_eq!(first.payload, "21.5");
    let second = conn.next().unwrap().unwrap();
    assert_eq!(second.topic, "sensors/humidity");
    assert_eq!(second.payload, "40");

    assert_eq!(conn.on_disconnect(), Some(7));
    assert_eq!(conn.next(), Some(Err(SessionError::Disconnected)));
}

#[test]
fn failed_connect_yields_connect_failed_and_no_teardown() {
    let (mut conn, _req) =
        MqttConnection::connect_begin("localhost", 9002, "client-A", 8, AckMode::FireAndForget);
    conn.on_connect_result(false, "");
    assert_eq!(conn.connect_finish(), Some(Err(ConnectError::ConnectFailed)));
    assert_eq!(conn.close(), None);
}

#[test]
fn malformed_identifier_is_a_connect_failure() {
    for raw in ["", "abc", "12x", " 7", "+7", "-1", "4294967296", "99999999999999999999"] {
        let (mut conn, _req) =
            MqttConnection::connect_begin("h", 1, "c", 4, AckMode::FireAndForget);
        conn.on_connect_result(true, raw);
        assert_eq!(conn.connect_finish(), Some(Err(ConnectError::ConnectFailed)), "{raw:?}");
        assert_eq!(conn.close(), None);
    }
}

#[test]
fn identifier_edge_values_parse() {
    let mut conn = connected("0");
    assert_eq!(conn.subscribe("t").unwrap().session_id, 0);
    conn.close();

    let mut conn = connected("007");
    assert_eq!(conn.subscribe("t").unwrap().session_id, 7);
    conn.close();

    let mut conn = connected("4294967295");
    assert_eq!(conn.subscribe("t").unwrap().session_id, u32::MAX);
    conn.close();
}

#[test]
fn messages_come_out_fifo() {
    let mut conn = connected("3");
    for i in 0..5 {
        conn.on_message(format!("topic{i}"), format!("payload{i}")).unwrap();
    }
    for i in 0..5 {
        let env = conn.next().unwrap().unwrap();
        assert_eq!(env.topic, format!("topic{i}"));
        assert_eq!(env.payload, format!("payload{i}"));
    }
    assert_eq!(conn.next(), None);
}

#[test]
fn next_reports_nothing_while_pending_or_idle() {
    let (mut conn, _req) =
        MqttConnection::connect_begin("h", 1, "c", 4, AckMode::FireAndForget);
    assert_eq!(conn.next(), None);
    conn.on_connect_result(true, "1");
    assert_eq!(conn.next(), None);
}

#[test]
fn disconnect_keeps_earlier_messages_consumable() {
    let mut conn = connected("9");
    conn.on_message("a".to_string(), "1".to_string()).unwrap();
    conn.on_message("b".to_string(), "2".to_string()).unwrap();
    assert_eq!(conn.on_disconnect(), Some(9));
    assert_eq!(conn.next().unwrap().unwrap().topic, "a");
    assert_eq!(conn.next().unwrap().unwrap().topic, "b");
    assert_eq!(conn.next(), Some(Err(SessionError::Disconnected)));
    assert_eq!(conn.next(), Some(Err(SessionError::Disconnected)));
}

#[test]
fn teardown_happens_exactly_once() {
    let mut conn = connected("5");
    assert_eq!(conn.close(), Some(5));
    assert_eq!(conn.close(), None);

    let mut conn = connected("6");
    assert_eq!(conn.on_disconnect(), Some(6));
    assert_eq!(conn.close(), None);
    assert_eq!(conn.on_disconnect(), None);

    let (mut pending, _req) =
        MqttConnection::connect_begin("h", 1, "c", 4, AckMode::FireAndForget);
    assert_eq!(pending.close(), None);
}

#[test]
fn subscribe_fails_off_connected_states() {
    let (pending, _req) = MqttConnection::connect_begin("h", 1, "c", 4, AckMode::FireAndForget);
    assert_eq!(pending.subscribe("t").unwrap_err(), SessionError::NotConnected);
    assert_eq!(pending.unsubscribe("t").unwrap_err(), SessionError::NotConnected);

    let mut conn = connected("2");
    conn.on_disconnect();
    assert_eq!(conn.subscribe("t").unwrap_err(), SessionError::NotConnected);
    assert_eq!(conn.unsubscribe("t").unwrap_err(), SessionError::NotConnected);
}

#[test]
fn unsubscribe_carries_kind_and_ack_mode() {
    let (mut conn, _req) =
        MqttConnection::connect_begin("h", 1, "c", 4, AckMode::Acknowledged);
    conn.on_connect_result(true, "11");
    conn.connect_finish();
    let req = conn.unsubscribe("sensors/#").unwrap();
    assert_eq!(req.session_id, 11);
    assert_eq!(req.kind, RequestKind::Unsubscribe);
    assert_eq!(req.ack, AckMode::Acknowledged);
    assert_eq!(req.topic, "sensors/#");
}

#[test]
fn full_queue_rejects_the_new_message_and_keeps_the_old() {
    let (mut conn, _req) =
        MqttConnection::connect_begin("h", 1, "c", 2, AckMode::FireAndForget);
    conn.on_connect_result(true, "1");
    conn.connect_finish();
    assert_eq!(conn.on_message("a".to_string(), "1".to_string()), Ok(()));
    assert_eq!(conn.on_message("b".to_string(), "2".to_string()), Ok(()));
    assert_eq!(
        conn.on_message("c".to_string(), "3".to_string()),
        Err(SessionError::QueueOverflow)
    );
    assert_eq!(conn.next().unwrap().unwrap().topic, "a");
    assert_eq!(conn.on_message("d".to_string(), "4".to_string()), Ok(()));
    assert_eq!(conn.next().unwrap().unwrap().topic, "b");
    assert_eq!(conn.next().unwrap().unwrap().topic, "d");
}

#[test]
fn messages_outside_connected_are_not_enqueued() {
    let (mut conn, _req) =
        MqttConnection::connect_begin("h", 1, "c", 4, AckMode::FireAndForget);
    assert_eq!(
        conn.on_message("early".to_string(), "x".to_string()),
        Err(SessionError::NotConnected)
    );
    conn.on_connect_result(true, "1");
    conn.connect_finish();
    conn.on_disconnect();
    assert_eq!(
        conn.on_message("late".to_string(), "x".to_string()),
        Err(SessionError::NotConnected)
    );
    assert_eq!(conn.next(), Some(Err(SessionError::Disconnected)));
}

#[test]
fn connect_signal_is_single_use() {
    let (mut conn, _req) =
        MqttConnection::connect_begin("h", 1, "c", 4, AckMode::FireAndForget);
    assert_eq!(conn.connect_finish(), None);
    conn.on_connect_result(true, "4");
    conn.on_connect_result(true, "5");
    conn.on_connect_result(false, "");
    assert_eq!(conn.connect_finish(), Some(Ok(4)));
    assert_eq!(conn.connect_finish(), None);
    assert_eq!(conn.subscribe("t").unwrap().session_id, 4);
}

#[test]
fn late_connect_result_after_close_is_ignored() {
    let (mut conn, _req) =
        MqttConnection::connect_begin("h", 1, "c", 4, AckMode::FireAndForget);
    assert_eq!(conn.close(), None);
    conn.on_connect_result(true, "8");
    assert_eq!(conn.connect_finish(), None);
    assert_eq!(conn.subscribe("t").unwrap_err(), SessionError::NotConnected);
    assert_eq!(conn.close(), None);
}
