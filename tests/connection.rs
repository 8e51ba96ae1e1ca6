use ws_server::handler::{Action, ConnState, Frame, WSServerHandler};
use ws_server::registry::CallbackKind;
use ws_server::server::WSServer;

fn open_handler(period: u64) -> WSServerHandler {
    let mut server = WSServer::new(8, 3012);
    server.set_wdt_period(period);
    let mut h = server.new_handler();
    let actions = h.on_open();
    assert_eq!(
        actions,
        vec![
            Action::Notify(CallbackKind::Open, b"WS Connected\0".to_vec()),
            Action::ArmTimer(period),
        ]
    );
    h
}

#[test]
fn silent_connection_is_closed_after_one_period() {
    let mut h = open_handler(1000);
    assert_eq!(h.on_timeout(), vec![Action::Close("Timeout".to_string())]);
    assert_eq!(h.state(), ConnState::Closed);
    assert_eq!(
        h.on_close("Timeout"),
        vec![Action::Notify(CallbackKind::Error, b"Timeout\0".to_vec())]
    );
}

#[test]
fn silent_connection_with_other_periods() {
    for period in [1u64, 250, 30000, u64::MAX] {
        let mut h = open_handler(period);
        assert_eq!(h.wdt_period_ms(), period);
        assert_eq!(h.on_message(Frame::Text(String::new())), vec![]);
        assert_eq!(h.on_timeout(), vec![Action::Close("Timeout".to_string())]);
    }
}

#[test]
fn active_connection_is_never_closed_by_watchdog() {
    let mut h = open_handler(500);
    for i in 0..20 {
        let text = format!("tick {}", i);
        assert_eq!(h.on_message(Frame::Text(text.clone())).len(), 1);
        assert_eq!(h.on_timeout(), vec![Action::ArmTimer(500)]);
        assert_eq!(h.state(), ConnState::Open);
    }
    // One silent period after the last message drops it.
    assert_eq!(h.on_timeout(), vec![Action::Close("Timeout".to_string())]);
}

#[test]
fn message_without_line_feed_gets_one() {
    let mut h = open_handler(1000);
    assert_eq!(
        h.on_message(Frame::Text("hello".to_string())),
        vec![Action::Notify(CallbackKind::Message, b"hello\n\0".to_vec())]
    );
}

#[test]
fn message_with_line_feed_gets_only_nul() {
    let mut h = open_handler(1000);
    assert_eq!(
        h.on_message(Frame::Text("hello\n".to_string())),
        vec![Action::Notify(CallbackKind::Message, b"hello\n\0".to_vec())]
    );
}

#[test]
fn utf8_message_is_passed_as_bytes() {
    let mut h = open_handler(1000);
    let mut expected = "héllo wörld".as_bytes().to_vec();
    expected.push(b'\n');
    expected.push(0);
    assert_eq!(
        h.on_message(Frame::Text("héllo wörld".to_string())),
        vec![Action::Notify(CallbackKind::Message, expected)]
    );
}

#[test]
fn empty_text_frame_is_dropped() {
    let mut h = open_handler(1000);
    assert_eq!(h.on_message(Frame::Text(String::new())), vec![]);
    // It is no activity either.
    assert_eq!(h.on_timeout(), vec![Action::Close("Timeout".to_string())]);
}

#[test]
fn binary_frame_gets_error_reply() {
    let mut h = open_handler(1000);
    assert_eq!(
        h.on_message(Frame::Binary(vec![1, 2, 3])),
        vec![Action::Reply("{\"ws_error\":\"Invalid WS Message Type\"}".to_string())]
    );
    assert_eq!(
        h.on_message(Frame::Binary(vec![])),
        vec![Action::Reply("{\"ws_error\":\"Invalid WS Message Type\"}".to_string())]
    );
}

#[test]
fn close_reports_reason_to_error_callback() {
    let mut h = open_handler(1000);
    assert_eq!(
        h.on_close("bye"),
        vec![Action::Notify(CallbackKind::Error, b"bye\0".to_vec())]
    );
    assert_eq!(h.state(), ConnState::Closed);
    assert_eq!(h.on_message(Frame::Text("late".to_string())), vec![]);
    assert_eq!(h.on_timeout(), vec![]);
}

#[test]
fn send_message_targets_this_connection() {
    let h = open_handler(1000);
    assert_eq!(h.send_message("pong"), Action::Reply("pong".to_string()));
}

#[test]
fn handler_starts_connecting() {
    let server = WSServer::new(1, 1);
    let h = server.new_handler();
    assert_eq!(h.state(), ConnState::Connecting);
    assert_eq!(h.wdt_period_ms(), 30000);
}
