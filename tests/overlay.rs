use overlay_ui::level::{clamp_level, LEVEL_SCALE};
use overlay_ui::listener::{Listener, ListenerAction, ListenerEvent, ListenerPhase, OverlayError};
use overlay_ui::placement::overlay_position;
use overlay_ui::state::{OverlayPatch, OverlayState};
use overlay_ui::store::{decode_order, Inbound, OverlayStore};
use overlay_ui::text::{is_blank_text, normalize_message};

fn candidate(connection: &str, level: i64, visible: bool, message: Option<&str>) -> OverlayState {
    OverlayState {
        connection: connection.to_string(),
        listening: format!("{}-listening", connection),
        processing: format!("{}-processing", connection),
        target: format!("{}-target", connection),
        level,
        visible,
        message: message.map(|m| m.to_string()),
    }
}

fn assert_defaults(s: &OverlayState) {
    assert_eq!(s.connection, "checking");
    assert_eq!(s.listening, "ready");
    assert_eq!(s.processing, "idle");
    assert_eq!(s.target, "unknown");
    assert_eq!(s.level, 0);
    assert!(!s.visible);
    assert_eq!(s.message, None);
}

#[test]
fn store_starts_with_defaults() {
    let store = OverlayStore::new();
    assert_defaults(&store.get_state());
    assert_defaults(&OverlayState::default());
}

#[test]
fn clamp_level_bounds() {
    assert_eq!(clamp_level(-1), 0);
    assert_eq!(clamp_level(i64::MIN), 0);
    assert_eq!(clamp_level(0), 0);
    assert_eq!(clamp_level(250_000), 250_000);
    assert_eq!(clamp_level(LEVEL_SCALE), LEVEL_SCALE);
    assert_eq!(clamp_level(LEVEL_SCALE + 1), LEVEL_SCALE);
    assert_eq!(clamp_level(i64::MAX), LEVEL_SCALE);
}

#[test]
fn full_record_level_is_clamped() {
    let mut store = OverlayStore::new();
    let r = store.set_state(candidate("ok", 2_500_000, true, None));
    assert_eq!(r.level, LEVEL_SCALE);
    assert_eq!(store.get_state().level, LEVEL_SCALE);
    store.set_state(candidate("ok", -3, true, None));
    assert_eq!(store.get_state().level, 0);
    store.set_state(candidate("ok", 420_000, true, None));
    assert_eq!(store.get_state().level, 420_000);
}

#[test]
fn patch_level_is_clamped() {
    let mut store = OverlayStore::new();
    let mut p = OverlayPatch::default();
    p.level = Some(-700_000);
    assert_eq!(store.merge_patch(p).level, 0);
    let mut p = OverlayPatch::default();
    p.level = Some(1_000_001);
    assert_eq!(store.merge_patch(p).level, LEVEL_SCALE);
    let mut p = OverlayPatch::default();
    p.level = Some(333_333);
    assert_eq!(store.merge_patch(p).level, 333_333);
}

#[test]
fn blank_text_detection() {
    assert!(is_blank_text(""));
    assert!(is_blank_text("   "));
    assert!(is_blank_text(" \t\r\n\u{0b}\u{0c}"));
    assert!(is_blank_text("\u{3000}\u{a0}\u{2028}"));
    assert!(!is_blank_text("x"));
    assert!(!is_blank_text("  hello  "));
    assert!(!is_blank_text("\u{200b}"));
}

#[test]
fn message_normalization() {
    assert_eq!(normalize_message(None), None);
    assert_eq!(normalize_message(Some(String::new())), None);
    assert_eq!(normalize_message(Some(" \t ".to_string())), None);
    assert_eq!(normalize_message(Some(" hi ".to_string())), Some(" hi ".to_string()));

    let mut store = OverlayStore::new();
    let r = store.set_state(candidate("ok", 0, false, Some("   ")));
    assert_eq!(r.message, None);
    let r = store.set_state(candidate("ok", 0, false, Some("  spaced  ")));
    assert_eq!(r.message, Some("  spaced  ".to_string()));

    let mut p = OverlayPatch::default();
    p.message = Some("\n\t".to_string());
    assert_eq!(store.merge_patch(p).message, None);
    let mut p = OverlayPatch::default();
    p.message = Some("recording".to_string());
    assert_eq!(store.merge_patch(p).message, Some("recording".to_string()));
}

#[test]
fn patch_keeps_absent_fields() {
    let mut store = OverlayStore::new();
    store.set_state(candidate("ok", 500_000, true, Some("note")));
    let mut p = OverlayPatch::default();
    p.processing = Some("busy".to_string());
    let r = store.merge_patch(p);
    assert_eq!(r.connection, "ok");
    assert_eq!(r.listening, "ok-listening");
    assert_eq!(r.processing, "busy");
    assert_eq!(r.target, "ok-target");
    assert_eq!(r.level, 500_000);
    assert!(r.visible);
    assert_eq!(r.message, Some("note".to_string()));
}

#[test]
fn empty_patch_changes_nothing() {
    let mut store = OverlayStore::new();
    let r = store.merge_patch(OverlayPatch::default());
    assert_defaults(&r);
    assert_defaults(&store.get_state());
}

#[test]
fn patch_applied_twice_is_applied_once() {
    let mut s = OverlayState::default();
    let mut p = OverlayPatch::default();
    p.target = Some("editor".to_string());
    p.level = Some(9_000_000);
    p.message = Some(" ".to_string());
    let mut q = OverlayPatch::default();
    q.target = Some("editor".to_string());
    q.level = Some(9_000_000);
    q.message = Some(" ".to_string());
    p.apply(&mut s);
    let once = s.snapshot();
    q.apply(&mut s);
    assert_eq!(s.target, once.target);
    assert_eq!(s.level, once.level);
    assert_eq!(s.level, LEVEL_SCALE);
    assert_eq!(s.message, once.message);
    assert_eq!(s.connection, once.connection);
}

#[test]
fn full_record_inherits_nothing() {
    let mut store = OverlayStore::new();
    store.set_state(candidate("first", 800_000, true, Some("old")));
    let r = store.set_state(candidate("second", 100_000, false, None));
    assert_eq!(r.connection, "second");
    assert_eq!(r.listening, "second-listening");
    assert_eq!(r.processing, "second-processing");
    assert_eq!(r.target, "second-target");
    assert_eq!(r.level, 100_000);
    assert!(!r.visible);
    assert_eq!(r.message, None);
}

#[test]
fn full_reading_wins_over_patch() {
    let mut store = OverlayStore::new();
    store.set_state(candidate("prior", 900_000, true, Some("kept?")));
    let mut full = OverlayState::default();
    full.connection = "ok".to_string();
    let mut patch = OverlayPatch::default();
    patch.connection = Some("ok".to_string());
    let m = decode_order(Some(full), Some(patch));
    assert!(matches!(m, Inbound::Full(_)));
    let r = store.receive(m).unwrap();
    assert_eq!(r.connection, "ok");
    assert_eq!(r.listening, "ready");
    assert_eq!(r.target, "unknown");
    assert_eq!(r.level, 0);
    assert!(!r.visible);
    assert_eq!(r.message, None);
}

#[test]
fn patch_reading_when_full_fails() {
    let mut store = OverlayStore::new();
    let mut patch = OverlayPatch::default();
    patch.visible = Some(true);
    let m = decode_order(None, Some(patch));
    assert!(matches!(m, Inbound::Patch(_)));
    let r = store.receive(m).unwrap();
    assert!(r.visible);
    assert_eq!(r.connection, "checking");
}

#[test]
fn malformed_payload_keeps_state() {
    let mut store = OverlayStore::new();
    store.set_state(candidate("ok", 700_000, true, Some("hello")));
    let m = decode_order(None, None);
    assert!(matches!(m, Inbound::Malformed));
    assert!(store.receive(m).is_none());
    let s = store.get_state();
    assert_eq!(s.connection, "ok");
    assert_eq!(s.level, 700_000);
    assert!(s.visible);
    assert_eq!(s.message, Some("hello".to_string()));
}

#[test]
fn listener_discards_invalid_text() {
    let mut l = Listener::new();
    assert!(matches!(l.step(ListenerEvent::Bound), ListenerAction::Receive));
    match l.step(ListenerEvent::Datagram(vec![0xff, 0xfe, b'{'])) {
        ListenerAction::Discard(e) => assert_eq!(e, OverlayError::MalformedPayload),
        _ => panic!("invalid UTF-8 must be discarded"),
    }
    assert_eq!(l.phase, ListenerPhase::Listening);
    match l.step(ListenerEvent::Datagram(b"{\"level\": 1.5}".to_vec())) {
        ListenerAction::Decode(t) => assert_eq!(t, "{\"level\": 1.5}"),
        _ => panic!("valid text must be decoded"),
    }
    match l.step(ListenerEvent::Datagram("caf\u{e9}".as_bytes().to_vec())) {
        ListenerAction::Decode(t) => assert_eq!(t, "caf\u{e9}"),
        _ => panic!("valid text must be decoded"),
    }
    assert!(matches!(l.step(ListenerEvent::TimedOut), ListenerAction::Receive));
    assert_eq!(l.phase, ListenerPhase::Listening);
}

#[test]
fn listener_stops_on_failures() {
    let mut l = Listener::new();
    assert_eq!(l.phase, ListenerPhase::Binding);
    match l.step(ListenerEvent::BindFailed) {
        ListenerAction::Stop(e) => assert_eq!(e, OverlayError::BindFailure),
        _ => panic!("a failed bind stops the listener"),
    }
    assert!(l.is_stopped());
    assert!(matches!(l.step(ListenerEvent::Bound), ListenerAction::Ignore));
    assert!(l.is_stopped());

    let mut l = Listener::new();
    l.step(ListenerEvent::Bound);
    match l.step(ListenerEvent::ReceiveFailed) {
        ListenerAction::Stop(e) => assert_eq!(e, OverlayError::TransportFailure),
        _ => panic!("a failed receive stops the listener"),
    }
    assert!(l.is_stopped());
    assert!(matches!(l.step(ListenerEvent::Datagram(vec![b'{'])), ListenerAction::Ignore));
    assert!(l.is_stopped());
}

#[test]
fn error_descriptions() {
    assert_eq!(OverlayError::LockUnavailable.describe(), "overlay state lock poisoned");
    assert_eq!(OverlayError::BindFailure.describe(), "could not bind the listener address");
    assert_eq!(OverlayError::MalformedPayload.describe(), "malformed payload");
    assert_eq!(OverlayError::TransportFailure.describe(), "receive failed");
}

#[test]
fn serialized_replacements_leave_one_candidate() {
    let mut store = OverlayStore::new();
    let names = ["a", "b", "c", "d"];
    for (i, n) in names.iter().enumerate() {
        store.set_state(candidate(n, (i as i64) * 600_000, i % 2 == 0, Some(n)));
    }
    let s = store.get_state();
    assert_eq!(s.connection, "d");
    assert_eq!(s.listening, "d-listening");
    assert_eq!(s.processing, "d-processing");
    assert_eq!(s.target, "d-target");
    assert_eq!(s.level, LEVEL_SCALE);
    assert!(!s.visible);
    assert_eq!(s.message, Some("d".to_string()));
}

#[test]
fn patch_then_full_scenario() {
    let mut store = OverlayStore::new();
    let mut patch = OverlayPatch::default();
    patch.level = Some(1_500_000);
    patch.visible = Some(true);
    let r = store.receive(decode_order(None, Some(patch))).unwrap();
    assert_eq!(r.level, LEVEL_SCALE);
    assert!(r.visible);
    assert_eq!(r.connection, "checking");
    assert_eq!(r.listening, "ready");
    assert_eq!(r.processing, "idle");
    assert_eq!(r.target, "unknown");
    assert_eq!(r.message, None);

    let mut full = OverlayState::default();
    full.connection = "ok".to_string();
    let r = store.receive(decode_order(Some(full), None)).unwrap();
    assert_eq!(r.connection, "ok");
    assert_eq!(r.listening, "ready");
    assert_eq!(r.processing, "idle");
    assert_eq!(r.target, "unknown");
    assert_eq!(r.level, 0);
    assert!(!r.visible);
    assert_eq!(r.message, None);
}

#[test]
fn window_position_is_centred_above_margin() {
    assert_eq!(overlay_position(1920, 1080, 400, 120, 76), (760, 884));
    assert_eq!(overlay_position(300, 100, 400, 120, 76), (0, 0));
    assert_eq!(overlay_position(1921, 200, 400, 120, 76), (760, 4));
    assert_eq!(overlay_position(1920, 196, 400, 120, 76), (760, 0));
}
