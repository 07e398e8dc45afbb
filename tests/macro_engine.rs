use std::collections::VecDeque;
use keyscripten::dynamic_macro::{Handler, InputEvent, KeyState, Sender, State};
use keyscripten::flags::{MASK_CONTROL, MASK_NON_COALESCED, MASK_SHIFT};
use keyscripten::hotkey::HotKey;

fn ks(code: u16, flags: u64) -> KeyState {
    KeyState { code, flags }
}

#[test]
fn repeat_of_two_replays_oldest_first() {
    let a = ks(0, 0);
    let b = ks(11, 0);
    let buffer: VecDeque<KeyState> = vec![b, a, b, a].into();
    let sender = Sender::new();
    assert_eq!(sender.check_repeat(&buffer), Some(2));
    let events = sender.process(State::new(buffer, MASK_SHIFT));
    assert_eq!(
        events,
        vec![
            InputEvent::FlagsChanged(0, MASK_NON_COALESCED),
            InputEvent::KeyPress(0),
            InputEvent::KeyPress(11),
            InputEvent::FlagsChanged(0, MASK_SHIFT),
        ]
    );
}

#[test]
fn repeat_picks_the_largest_unit() {
    let a = ks(0, 0);
    let buffer: VecDeque<KeyState> = vec![a, a, a, a].into();
    assert_eq!(Sender::new().check_repeat(&buffer), Some(2));
    let buffer: VecDeque<KeyState> = vec![a, a, a].into();
    assert_eq!(Sender::new().check_repeat(&buffer), Some(1));
}

#[test]
fn no_repeat_no_replay() {
    let buffer: VecDeque<KeyState> = vec![ks(0, 0), ks(1, 0), ks(2, 0)].into();
    assert_eq!(Sender::new().check_repeat(&buffer), None);
    assert!(Sender::new().process(State::new(buffer, 0)).is_empty());
    let empty: VecDeque<KeyState> = VecDeque::new();
    assert_eq!(Sender::new().check_repeat(&empty), None);
}

#[test]
fn repeat_compares_flags_too() {
    let buffer: VecDeque<KeyState> = vec![ks(0, MASK_SHIFT), ks(0, 0)].into();
    assert_eq!(Sender::new().check_repeat(&buffer), None);
}

#[test]
fn handler_records_and_replays_on_trigger() {
    let trigger = HotKey { flags: MASK_CONTROL, keycode: 17 };
    let mut handler = Handler::new(64, trigger);
    for code in [0u16, 11, 0, 11] {
        let r = handler.callback(InputEvent::KeyPress(code));
        assert!(r.forward);
        assert!(r.replay.is_empty());
        assert!(handler.callback(InputEvent::KeyRelease(code)).forward);
    }
    assert_eq!(handler.buffer().len(), 4);
    assert!(handler.callback(InputEvent::FlagsChanged(59, MASK_CONTROL)).forward);
    assert_eq!(handler.latest_flags(), MASK_CONTROL);
    let r = handler.callback(InputEvent::KeyPress(17));
    assert!(!r.forward);
    assert_eq!(
        r.replay,
        vec![
            InputEvent::FlagsChanged(0, MASK_NON_COALESCED),
            InputEvent::KeyPress(0),
            InputEvent::KeyPress(11),
            InputEvent::FlagsChanged(0, MASK_CONTROL),
        ]
    );
    assert_eq!(handler.buffer().len(), 4);
}

#[test]
fn handler_buffer_keeps_capacity() {
    let mut handler = Handler::new(3, HotKey { flags: MASK_CONTROL, keycode: 17 });
    for code in [1u16, 2, 3, 4, 5] {
        handler.callback(InputEvent::KeyPress(code));
    }
    let codes: Vec<u16> = handler.buffer().iter().map(|k| k.code).collect();
    assert_eq!(codes, vec![5, 4, 3]);
}

#[test]
fn handler_records_presses_with_latest_flags() {
    let mut handler = Handler::new(8, HotKey { flags: MASK_CONTROL, keycode: 17 });
    handler.callback(InputEvent::FlagsChanged(56, MASK_SHIFT));
    handler.callback(InputEvent::KeyPress(17));
    assert_eq!(handler.buffer()[0], KeyState { code: 17, flags: MASK_SHIFT });
}
