use boa_engine::Context;
use keyscripten::dynamic_macro::{Handler, InputEvent};
use keyscripten::flags::{EVENT_FLAGS_CHANGED, EVENT_KEY_DOWN, EVENT_KEY_UP, MASK_CONTROL, MASK_NON_COALESCED};
use keyscripten::host::{HostStep, JsOperation};
use keyscripten::hotkey::HotKey;
use keyscripten::js::{reloads_plugins, schema_plugin_ids, Dispatch, HostNotice, ScriptError, JS};
use keyscripten::monitor::MonitoringLog;
use keyscripten::plugin::PluginSnippet;

const DRIVER: &str = r#"
var $$plugins = [];
var $$unloaded = [];
var $$reloads = 0;
function registerPlugin(id, name, description) {
    $$plugins.push({ id: id, name: name, description: description, config: [] });
}
function $$getConfigSchema() {
    return JSON.stringify({ plugins: $$plugins });
}
function $$unloadPlugin(id) {
    $$unloaded.push(id);
    $$plugins = $$plugins.filter(function (p) { return p.id !== id; });
}
function $$invokeEvent(event, needsReload) {
    if (needsReload) { $$reloads += 1; }
    globalThis.lastType = event.type;
    globalThis.lastFlags = event.flags;
    return event.keycode !== 0;
}
"#;

const BUNDLED: &str = r#"registerPlugin("builtin.dynamicmacro", "Dynamic Macro", "Repeats what was typed twice");"#;

fn engine() -> Handler {
    Handler::new(64, HotKey { flags: MASK_CONTROL, keycode: 17 })
}

fn new_js() -> JS {
    JS::new(Context::default(), DRIVER, BUNDLED, engine()).unwrap()
}

fn number(js: &mut JS, src: &str) -> f64 {
    js.eval(src.to_string()).unwrap().as_number().unwrap()
}

fn send(js: &mut JS, log: &mut MonitoringLog, raw: u32, keycode: i64, flags: u64, t: u64) -> Result<Dispatch, ScriptError> {
    js.send_event(vec![], &vec![], raw, keycode, flags, t, log).1
}

fn snippet(filename: &str, src: &str) -> PluginSnippet {
    PluginSnippet { filename: filename.to_string(), src: src.to_string() }
}

#[test]
fn js_test_eval() {
    let mut js = JS::new(Context::default(), "", "", engine()).unwrap();
    let value = js.eval("3+4".to_string()).unwrap();
    assert_eq!(value.as_number(), Some(7.0));
}

#[test]
fn constants_and_key_table_are_registered() {
    let mut js = new_js();
    assert_eq!(number(&mut js, "Key.ALT"), 58.0);
    assert_eq!(number(&mut js, "Key.SLASH"), 44.0);
    assert_eq!(number(&mut js, "kCGEventFlagMaskCommand"), 1048576.0);
    assert_eq!(number(&mut js, "kCGEventKeyDown"), 10.0);
}

#[test]
fn config_schema_lists_registered_plugins() {
    let mut js = new_js();
    let schema = js.get_config_schema().unwrap();
    assert!(schema.contains("Dynamic Macro"));
    assert_eq!(js.loaded_plugins().unwrap(), vec!["builtin.dynamicmacro".to_string()]);
}

#[test]
fn schema_ids_reject_malformed_documents() {
    assert_eq!(schema_plugin_ids(r#"{"plugins":[{"id":"a"},{"id":"b"}]}"#).unwrap(), vec!["a", "b"]);
    assert!(matches!(schema_plugin_ids("not json"), Err(ScriptError::Schema(_))));
    assert!(matches!(schema_plugin_ids(r#"{"plugins":3}"#), Err(ScriptError::Schema(_))));
    assert!(matches!(schema_plugin_ids(r#"{"plugins":[{"id":1}]}"#), Err(ScriptError::Schema(_))));
}

#[test]
fn load_user_scripts_maps_ids_to_files() {
    let mut js = new_js();
    let errors = js
        .load_user_scripts(&vec![
            snippet("a.js", r#"registerPlugin("one", "One", ""); registerPlugin("two", "Two", "");"#),
            snippet("broken.js", "throw new Error('boom');"),
            snippet("c.js", r#"registerPlugin("three", "Three", "");"#),
        ])
        .unwrap();
    assert_eq!(errors.len(), 1);
    assert!(matches!(errors[0], ScriptError::Evaluation(_)));
    assert_eq!(js.get_filename_by_plugin_id(&"one".to_string()), Some("a.js".to_string()));
    assert_eq!(js.get_filename_by_plugin_id(&"two".to_string()), Some("a.js".to_string()));
    assert_eq!(js.get_filename_by_plugin_id(&"three".to_string()), Some("c.js".to_string()));
    assert_eq!(js.get_filename_by_plugin_id(&"builtin.dynamicmacro".to_string()), None);
}

#[test]
fn unload_unknown_plugin_calls_nothing() {
    let mut js = new_js();
    match js.apply_operation(JsOperation::UnloadPlugin { plugin_id: "nope".to_string() }) {
        Ok(HostStep::UnknownPlugin(id)) => assert_eq!(id, "nope"),
        other => panic!("unexpected {:?}", other),
    }
    assert_eq!(number(&mut js, "$$unloaded.length"), 0.0);
    let mut log = MonitoringLog::new();
    let d = send(&mut js, &mut log, EVENT_KEY_DOWN, 5, 0, 1).unwrap();
    assert!(d.propagate);
}

#[test]
fn unload_known_plugin_calls_the_entry_point() {
    let mut js = new_js();
    js.load_user_scripts(&vec![snippet("a.js", r#"registerPlugin("one", "One", "");"#)]).unwrap();
    match js.apply_operation(JsOperation::UnloadPlugin { plugin_id: "one".to_string() }) {
        Ok(HostStep::UnloadPlugin(id)) => assert_eq!(id, "one"),
        other => panic!("unexpected {:?}", other),
    }
    assert_eq!(number(&mut js, "$$unloaded.length"), 1.0);
    assert_eq!(js.get_filename_by_plugin_id(&"one".to_string()), None);
}

#[test]
fn send_event_asks_the_scripts() {
    let mut js = new_js();
    let mut log = MonitoringLog::new();
    let d = send(&mut js, &mut log, EVENT_KEY_DOWN, 0, 0, 1).unwrap();
    assert!(!d.propagate);
    assert!(d.replay.is_empty());
    let d = js.send_event(vec![JsOperation::ReloadConfig], &vec![], EVENT_KEY_UP, 3, 0, 2, &mut log).1.unwrap();
    assert!(d.propagate);
    assert_eq!(number(&mut js, "$$reloads"), 1.0);
    send(&mut js, &mut log, EVENT_FLAGS_CHANGED, 56, 0x20000, 3).unwrap();
    assert_eq!(number(&mut js, "lastFlags"), 131072.0);
    assert_eq!(log.len(), 3);
    assert_eq!(log.get(1).event_type, "keyUp");
}

#[test]
fn missing_entry_point_is_an_error() {
    let mut js = JS::new(Context::default(), "", "", engine()).unwrap();
    let mut log = MonitoringLog::new();
    match send(&mut js, &mut log, EVENT_KEY_DOWN, 5, 0, 1) {
        Err(ScriptError::MissingEntryPoint(name)) => assert_eq!(name, "$$invokeEvent"),
        other => panic!("unexpected {:?}", other),
    }
    assert_eq!(log.len(), 1);
}

#[test]
fn trigger_replays_and_reload_keeps_the_buffer() {
    let mut js = new_js();
    let mut log = MonitoringLog::new();
    for (t, code) in [(1u64, 4i64), (2, 5), (3, 4)] {
        send(&mut js, &mut log, EVENT_KEY_DOWN, code, 0, t).unwrap();
    }
    assert!(matches!(js.apply_operation(JsOperation::ReloadPlugins), Ok(HostStep::ReloadPlugins)));
    js.load_user_scripts(&vec![snippet("a.js", r#"registerPlugin("one", "One", "");"#)]).unwrap();
    send(&mut js, &mut log, EVENT_KEY_DOWN, 5, 0, 4).unwrap();
    send(&mut js, &mut log, EVENT_FLAGS_CHANGED, 59, MASK_CONTROL, 5).unwrap();
    let d = send(&mut js, &mut log, EVENT_KEY_DOWN, 17, MASK_CONTROL, 6).unwrap();
    assert!(!d.propagate);
    assert_eq!(
        d.replay,
        vec![
            InputEvent::FlagsChanged(0, MASK_NON_COALESCED),
            InputEvent::KeyPress(4),
            InputEvent::KeyPress(5),
            InputEvent::FlagsChanged(0, MASK_CONTROL),
        ]
    );
}

#[test]
fn send_event_reports_unknown_unload_and_still_dispatches() {
    let mut js = new_js();
    let mut log = MonitoringLog::new();
    let ops = vec![
        JsOperation::UnloadPlugin { plugin_id: "nope".to_string() },
        JsOperation::ReloadConfig,
    ];
    assert!(!reloads_plugins(&ops));
    let (drained, result) = js.send_event(ops, &vec![], EVENT_KEY_DOWN, 5, 0, 1, &mut log);
    assert!(drained.needs_config_reload);
    assert_eq!(drained.notices.len(), 1);
    assert!(matches!(&drained.notices[0], HostNotice::UnknownPlugin(id) if id == "nope"));
    let d = result.unwrap();
    assert!(d.propagate);
    assert_eq!(d.answer, Some(true));
    assert_eq!(number(&mut js, "$$reloads"), 1.0);
    assert_eq!(number(&mut js, "$$unloaded.length"), 0.0);
}

#[test]
fn send_event_reloads_plugins_from_sources() {
    let mut js = new_js();
    let mut log = MonitoringLog::new();
    let sources = vec![snippet("a.js", r#"registerPlugin("one", "One", "");"#), snippet("bad.js", "throw 1;")];
    let ops = vec![JsOperation::ReloadPlugins];
    assert!(reloads_plugins(&ops));
    let (drained, result) = js.send_event(ops, &sources, EVENT_KEY_UP, 0, 0, 1, &mut log);
    assert!(!drained.needs_config_reload);
    assert_eq!(drained.notices.len(), 1);
    assert!(matches!(&drained.notices[0], HostNotice::LoadFailed(ScriptError::Evaluation(_))));
    assert!(!result.unwrap().propagate);
    assert_eq!(js.get_filename_by_plugin_id(&"one".to_string()), Some("a.js".to_string()));
}

#[test]
fn non_boolean_answer_propagates() {
    let mut js = JS::new(Context::default(), "function $$invokeEvent(e, r) { return 3; }", "", engine()).unwrap();
    let mut log = MonitoringLog::new();
    let d = send(&mut js, &mut log, EVENT_KEY_DOWN, 0, 0, 1).unwrap();
    assert!(d.propagate);
    assert_eq!(d.answer, None);
}

#[test]
fn key_object_has_no_prototype() {
    let mut js = new_js();
    assert_eq!(js.eval("Object.getPrototypeOf(Key) === null".to_string()).unwrap().as_boolean(), Some(true));
}
