use ws_server::payload::{normalize_message, to_c_bytes};
use ws_server::registry::{CallbackKind, CallbackRegistry};
use ws_server::server::{WSServer, DEFAULT_WDT_PERIOD_MS};

#[test]
fn new_server_defaults() {
    let s = WSServer::new(100, 8080);
    assert_eq!(s.max_connections(), 100);
    assert_eq!(s.port(), 8080);
    assert_eq!(s.wdt_period_ms(), 30000);
    assert_eq!(DEFAULT_WDT_PERIOD_MS, 30000);
}

#[test]
fn period_is_frozen_per_connection() {
    let mut s = WSServer::new(u32::MAX, u16::MAX);
    assert_eq!(s.max_connections(), u32::MAX as usize);
    let early = s.new_handler();
    s.set_wdt_period(1000);
    let late = s.new_handler();
    assert_eq!(early.wdt_period_ms(), 30000);
    assert_eq!(late.wdt_period_ms(), 1000);
}

#[test]
fn normalize_examples() {
    assert_eq!(normalize_message(""), None);
    assert_eq!(normalize_message("a"), Some(b"a\n\0".to_vec()));
    assert_eq!(normalize_message("\n"), Some(b"\n\0".to_vec()));
    assert_eq!(normalize_message("a\n\n"), Some(b"a\n\n\0".to_vec()));
    assert_eq!(to_c_bytes(""), vec![0]);
    assert_eq!(to_c_bytes("WS Connected"), b"WS Connected\0".to_vec());
}

#[test]
fn registry_starts_empty() {
    let r: CallbackRegistry<u32> = CallbackRegistry::new();
    assert_eq!(*r.get(CallbackKind::Open), None);
    assert_eq!(*r.get(CallbackKind::Error), None);
    assert_eq!(*r.get(CallbackKind::Message), None);
}

#[test]
fn replacing_message_callback_affects_only_later_reads() {
    let mut r: CallbackRegistry<&str> = CallbackRegistry::new();
    r.set(CallbackKind::Message, "old");
    r.set(CallbackKind::Open, "open");
    // A dispatch in flight has already read the old callback.
    let in_flight = *r.get(CallbackKind::Message);
    r.set(CallbackKind::Message, "new");
    assert_eq!(in_flight, Some("old"));
    assert_eq!(*r.get(CallbackKind::Message), Some("new"));
    assert_eq!(*r.get(CallbackKind::Open), Some("open"));
    assert_eq!(*r.get(CallbackKind::Error), None);
}
