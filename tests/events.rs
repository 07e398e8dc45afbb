use keyscripten::event::{event_kind, event_type, Event, EventKind};
use keyscripten::flags::{EVENT_FLAGS_CHANGED, EVENT_KEY_DOWN, EVENT_KEY_UP, EVENT_NULL, SENTINEL_USER_DATA};
use keyscripten::monitor::{MonitoringLog, MONITOR_CAPACITY};
use keyscripten::tap::{is_sent_from_this_app, TapAdapter, TapError, TapStep};

#[test]
fn event_types_are_named() {
    assert_eq!(event_type(EVENT_KEY_DOWN), "keyDown");
    assert_eq!(event_type(EVENT_KEY_UP), "keyUp");
    assert_eq!(event_type(EVENT_FLAGS_CHANGED), "flagsChanged");
    assert_eq!(event_type(3), "unknown");
    assert_eq!(event_kind(EVENT_KEY_UP), EventKind::KeyUp);
}

#[test]
fn normalised_event_fields() {
    let e = Event::from_cf(EVENT_FLAGS_CHANGED, 56, 0x20000, 1700000000);
    assert_eq!(e.event_type, "flagsChanged");
    assert_eq!(e.keycode, 56);
    assert_eq!(e.flags, 0x20000);
    assert_eq!(e.timestamp, 1700000000);
    let o = e.build_key_event();
    assert_eq!(o.flags, Some(0x20000));
    let o = Event::from_cf(EVENT_KEY_DOWN, 0, 0x20000, 0).build_key_event();
    assert_eq!(o.event_type, "keyDown");
    assert_eq!(o.flags, None);
}

#[test]
fn sentinel_events_pass_through_for_every_kind() {
    let tap = TapAdapter::new();
    for raw in [EVENT_KEY_DOWN, EVENT_KEY_UP, EVENT_FLAGS_CHANGED, 7] {
        assert!(matches!(tap.on_raw_event(raw, SENTINEL_USER_DATA, 17, 0, 0), TapStep::PassThrough));
    }
    match tap.on_raw_event(EVENT_KEY_DOWN, 0, 17, 0, 5) {
        TapStep::Dispatch(e) => {
            assert_eq!(e.keycode, 17);
            assert_eq!(e.timestamp, 5);
        }
        TapStep::PassThrough => panic!("genuine event passed through"),
    }
    assert!(is_sent_from_this_app(5963));
    assert!(!is_sent_from_this_app(0));
}

#[test]
fn suppressed_events_become_null() {
    let tap = TapAdapter::new();
    assert_eq!(tap.output_type(EVENT_KEY_DOWN, true), EVENT_KEY_DOWN);
    assert_eq!(tap.output_type(EVENT_KEY_DOWN, false), EVENT_NULL);
}

#[test]
fn only_one_tap_at_a_time() {
    let mut tap = TapAdapter::new();
    assert!(!tap.installed());
    assert_eq!(tap.install(), Ok(()));
    assert_eq!(tap.install(), Err(TapError::AlreadyInstalled));
    assert_eq!(tap.install_refused(), TapError::InstallRefused);
    assert!(!tap.installed());
    assert_eq!(tap.install(), Ok(()));
}

#[test]
fn monitoring_log_keeps_the_last_forty() {
    let mut log = MonitoringLog::new();
    assert_eq!(log.len(), 0);
    for t in 0..100u64 {
        log.push(Event::from_cf(EVENT_KEY_DOWN, 0, 0, t));
        assert!(log.len() <= MONITOR_CAPACITY);
    }
    assert_eq!(log.len(), 40);
    for i in 0..40usize {
        assert_eq!(log.get(i).timestamp, 60 + i as u64);
    }
}

#[test]
fn monitoring_log_below_capacity_keeps_all() {
    let mut log = MonitoringLog::new();
    for t in 0..3u64 {
        log.push(Event::from_cf(EVENT_KEY_UP, 1, 0, t));
    }
    assert_eq!(log.len(), 3);
    assert_eq!(log.get(0).timestamp, 0);
    assert_eq!(log.get(2).timestamp, 2);
}
