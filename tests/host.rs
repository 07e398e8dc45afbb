use keyscripten::dynamic_macro::{Handler, InputEvent};
use keyscripten::event::Event;
use keyscripten::flags::{EVENT_KEY_DOWN, MASK_CONTROL, EVENT_FLAGS_CHANGED};
use keyscripten::host::{propagate_decision, to_input_event, HostStep, JsBuiltin, JsOperation, ScriptHost};
use keyscripten::hotkey::{HotKey, ParseError};

fn host() -> ScriptHost {
    ScriptHost::new(Handler::new(64, HotKey { flags: MASK_CONTROL, keycode: 17 }))
}

fn s(x: &str) -> String {
    x.to_string()
}

#[test]
fn unload_of_unknown_plugin_is_reported_not_raised() {
    let mut h = host();
    match h.apply_operation(JsOperation::UnloadPlugin { plugin_id: s("missing") }) {
        HostStep::UnknownPlugin(id) => assert_eq!(id, "missing"),
        other => panic!("unexpected step {:?}", other),
    }
    assert_eq!(h.get_filename_by_plugin_id(&s("missing")), None);
}

#[test]
fn unload_of_recorded_plugin_forgets_it() {
    let mut h = host();
    h.record_loaded(&s("a.js"), &vec![s("builtin.dynamicmacro")], &vec![s("builtin.dynamicmacro"), s("one"), s("two")]);
    assert_eq!(h.get_filename_by_plugin_id(&s("one")), Some(s("a.js")));
    assert_eq!(h.get_filename_by_plugin_id(&s("builtin.dynamicmacro")), None);
    match h.apply_operation(JsOperation::UnloadPlugin { plugin_id: s("one") }) {
        HostStep::UnloadPlugin(id) => assert_eq!(id, "one"),
        other => panic!("unexpected step {:?}", other),
    }
    assert_eq!(h.get_filename_by_plugin_id(&s("one")), None);
    assert_eq!(h.get_filename_by_plugin_id(&s("two")), Some(s("a.js")));
}

#[test]
fn load_attributes_only_new_ids_to_each_file() {
    let mut h = host();
    let none: Vec<String> = vec![];
    h.record_loaded(&s("first.js"), &none, &vec![s("alpha")]);
    h.record_loaded(&s("second.js"), &vec![s("alpha")], &vec![s("alpha"), s("beta")]);
    assert_eq!(h.get_filename_by_plugin_id(&s("alpha")), Some(s("first.js")));
    assert_eq!(h.get_filename_by_plugin_id(&s("beta")), Some(s("second.js")));
}

#[test]
fn reload_config_and_plugins_steps() {
    let mut h = host();
    h.record_loaded(&s("a.js"), &vec![], &vec![s("p")]);
    assert!(matches!(h.apply_operation(JsOperation::ReloadConfig), HostStep::ReloadConfig));
    assert_eq!(h.get_filename_by_plugin_id(&s("p")), Some(s("a.js")));
    assert!(matches!(h.apply_operation(JsOperation::ReloadPlugins), HostStep::ReloadPlugins));
    assert_eq!(h.get_filename_by_plugin_id(&s("p")), None);
}

#[test]
fn reload_keeps_buffered_macro_keystrokes() {
    let mut h = host();
    for code in [0i64, 11, 0] {
        let r = h.on_event(&Event::from_cf(EVENT_KEY_DOWN, code, 0, 1));
        assert!(r.forward);
    }
    let before: Vec<_> = h.macro_engine().buffer().iter().copied().collect();
    h.apply_operation(JsOperation::ReloadPlugins);
    h.record_loaded(&s("a.js"), &vec![], &vec![s("p")]);
    h.apply_operation(JsOperation::UnloadPlugin { plugin_id: s("p") });
    let after: Vec<_> = h.macro_engine().buffer().iter().copied().collect();
    assert_eq!(before, after);
    assert_eq!(after.len(), 3);
    h.on_event(&Event::from_cf(EVENT_KEY_DOWN, 11, 0, 2));
    h.on_event(&Event::from_cf(EVENT_FLAGS_CHANGED, 59, MASK_CONTROL, 3));
    let r = h.on_event(&Event::from_cf(EVENT_KEY_DOWN, 17, MASK_CONTROL, 4));
    assert!(!r.forward);
    assert_eq!(r.replay.len(), 4);
}

#[test]
fn unknown_events_pass_the_macro_engine() {
    let mut h = host();
    let e = Event::from_cf(99, 5, 0, 0);
    assert_eq!(to_input_event(&e), None);
    let r = h.on_event(&e);
    assert!(r.forward);
    assert!(r.replay.is_empty());
    assert_eq!(to_input_event(&Event::from_cf(EVENT_FLAGS_CHANGED, 56, 7, 0)), Some(InputEvent::FlagsChanged(56, 7)));
}

#[test]
fn propagate_defaults_to_true() {
    assert!(!propagate_decision(Ok(Some(false))));
    assert!(propagate_decision(Ok(Some(true))));
    assert!(propagate_decision(Ok(None)));
    assert!(propagate_decision(Err(s("Cannot call $$invokeEvent"))));
}

#[test]
fn builtin_matches_hotkey_string() {
    assert_eq!(JsBuiltin::matches_hotkey_string(MASK_CONTROL, 17, "C-t"), Ok(true));
    assert_eq!(JsBuiltin::matches_hotkey_string(0, 17, "C-t"), Ok(false));
    assert_eq!(JsBuiltin::matches_hotkey_string(0, 17, "C-"), Err(ParseError::MissingKeyName));
}
