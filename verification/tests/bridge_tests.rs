use yasb::bridge::{
    BridgeAction, ConnectionState, ExternalWmBridge, ListenerInitGuard, NotificationDisposition,
    classify_notification, split_lines,
};

#[test]
fn repeated_subscribe_failures_back_off_and_count() {
    // Five straight failures: five attempts, each answered with the fixed
    // backoff, the bridge still Connecting, no offline announcement.
    let mut bridge = ExternalWmBridge::new();
    let action = bridge.start();
    assert_eq!(action, BridgeAction::Subscribe);
    for _ in 0..5 {
        let action = bridge.on_subscribe_result(false);
        assert_eq!(action, BridgeAction::Backoff(1000));
        assert_eq!(bridge.state, ConnectionState::Connecting);
    }
    assert_eq!(bridge.subscribe_attempts, 5);
    assert_eq!(bridge.offline_events, 0);
}

#[test]
fn bridge_survives_tool_absent_at_startup_then_connects() {
    // The external tool is not running at startup: the bridge stays in its
    // Connecting/backoff loop indefinitely, then resumes once the tool
    // appears.
    let mut bridge = ExternalWmBridge::new();
    bridge.start();
    for _ in 0..1000 {
        bridge.on_subscribe_result(false);
        assert_eq!(bridge.state, ConnectionState::Connecting);
    }
    let action = bridge.on_subscribe_result(true);
    assert_eq!(action, BridgeAction::AnnounceOnline);
    assert_eq!(bridge.state, ConnectionState::Connected);
    assert_eq!(bridge.subscribe_attempts, 1001);
    assert_eq!(bridge.offline_events, 0);
}

#[test]
fn read_failure_announces_offline_once_and_reconnects() {
    let mut bridge = ExternalWmBridge::new();
    bridge.start();
    bridge.on_subscribe_result(true);
    let action = bridge.on_read_failure();
    assert_eq!(action, BridgeAction::AnnounceOffline);
    assert_eq!(bridge.state, ConnectionState::Reconnecting);
    assert_eq!(bridge.offline_events, 1);
    // Restarting the Connecting sequence announces nothing further.
    let action = bridge.reconnect();
    assert_eq!(action, BridgeAction::Subscribe);
    assert_eq!(bridge.state, ConnectionState::Connecting);
    assert_eq!(bridge.offline_events, 1);
    bridge.on_subscribe_result(false);
    assert_eq!(bridge.offline_events, 1);
}

#[test]
fn backoff_interval_is_configurable() {
    let mut bridge = ExternalWmBridge::with_backoff(10);
    bridge.start();
    assert_eq!(bridge.on_subscribe_result(false), BridgeAction::Backoff(10));
}

#[test]
fn listener_starts_at_most_once() {
    let mut guard = ListenerInitGuard::new();
    assert!(guard.try_start());
    assert!(!guard.try_start());
    assert!(!guard.try_start());
}

#[test]
fn split_lines_drops_empty_segments() {
    let out = split_lines("abc\ndef\n\nghi");
    assert_eq!(out, vec!["abc".to_string(), "def".to_string(), "ghi".to_string()]);
}

#[test]
fn split_lines_without_trailing_newline() {
    let out = split_lines("only");
    assert_eq!(out, vec!["only".to_string()]);
}

#[test]
fn split_lines_of_empty_buffer() {
    let out = split_lines("");
    assert!(out.is_empty());
}

#[test]
fn notification_with_filtered_type_is_ignored() {
    let line = r#"{"event":{"type":"FocusChange","content":1},"state":{"is_paused":false}}"#;
    assert!(matches!(classify_notification(line), NotificationDisposition::Ignored));
}

#[test]
fn notification_with_interesting_type_is_translated() {
    let line = r#"{"event":{"type":"Manage","content":1},"state":{"is_paused":false}}"#;
    match classify_notification(line) {
        NotificationDisposition::Broadcast(name) => assert_eq!(name, "KomorebiManage"),
        other => panic!("unexpected disposition: {:?}", other),
    }
}

#[test]
fn malformed_notification_is_dropped() {
    assert!(matches!(classify_notification("not json"), NotificationDisposition::Malformed));
    assert!(matches!(
        classify_notification(r#"{"state":{}}"#),
        NotificationDisposition::Malformed
    ));
}
