use vstd::prelude::*;
use boa_engine::object::builtins::JsFunction;
use boa_engine::property::Attribute;
use boa_engine::{Context, JsString, JsValue, Source};
use crate::dynamic_macro::{replay_spec, Handler, InputEvent};
use crate::event::Event;
use crate::flags::register_constants;
use crate::host::{
    engine_after, input_event_of, input_of_raw, presses_trigger, propagate_decision, propagates,
    HostStep,
    JsOperation, ScriptHost,
};
use crate::keycode::script_key_constants;
use crate::monitor::{most_recent, MonitoringLog};
use crate::plugin::PluginSnippet;

verus! {

#[verifier::external_type_specification]
#[verifier::external_body]
pub struct ExContext(Context);

#[verifier::external_type_specification]
#[verifier::external_body]
pub struct ExJsValue(JsValue);

#[verifier::external_type_specification]
#[verifier::external_body]
pub struct ExJsFunction(JsFunction);

#[verifier::external_type_specification]
#[verifier::external_body]
pub struct ExJsonValue(serde_json::Value);

/// Relies on `Context::eval` with `Source::from_bytes`: runs the source as a script and
/// gives its completion value, or the thrown error rendered as text.
#[verifier::external_body]
fn eval_source(context: &mut Context, src: &str) -> (r: Result<JsValue, String>) {
    context.eval(Source::from_bytes(src)).map_err(|err| format!("{:?}", err))
}

/// Relies on `Context::global_object`, `JsObject::get` and `JsFunction::from_object`: the
/// global property of that name when it holds a callable object.
#[verifier::external_body]
fn global_function(context: &mut Context, name: &str) -> (r: Option<JsFunction>) {
    let global = context.global_object();
    let value = global.get(JsString::from(name), context).ok()?;
    value.as_object().cloned().and_then(JsFunction::from_object)
}

/// Relies on `JsObject::call`: calls the function with `undefined` as `this`; a thrown
/// error comes back rendered as text.
#[verifier::external_body]
fn call_function(context: &mut Context, function: &JsFunction, args: Vec<JsValue>) -> (r: Result<
    JsValue,
    String,
>) {
    function.call(&JsValue::undefined(), &args, context).map_err(|err| format!("{:?}", err))
}

/// Relies on `Context::register_global_property`: defines a read-only global.
#[verifier::external_body]
fn register_global(context: &mut Context, name: &str, value: JsValue) -> (r: Result<(), String>) {
    context.register_global_property(JsString::from(name), value, Attribute::READONLY).map_err(
        |err| format!("{:?}", err),
    )
}

/// Relies on `JsObject::with_object_proto`: a new ordinary object.
#[verifier::external_body]
fn new_object(context: &mut Context) -> (r: JsValue) {
    JsValue::from(boa_engine::JsObject::with_object_proto(context.intrinsics()))
}

/// Relies on `JsObject::with_null_proto`: a new object without prototype.
#[verifier::external_body]
fn new_bare_object() -> (r: JsValue) {
    JsValue::from(boa_engine::JsObject::with_null_proto())
}

/// Relies on `JsObject::set`: sets a property of an object value; a value that is no object
/// is refused.
#[verifier::external_body]
fn set_property(context: &mut Context, object: &JsValue, key: &str, value: JsValue) -> (r: Result<
    (),
    String,
>) {
    match object.as_object() {
        Some(o) => o.set(JsString::from(key), value, false, context).map(|_| ()).map_err(
            |err| format!("{:?}", err),
        ),
        None => Err(format!("not an object: {:?}", object)),
    }
}

/// Relies on `JsValue::to_string`: the string conversion of a value, or the thrown error
/// rendered as text.
#[verifier::external_body]
fn value_to_string(context: &mut Context, value: &JsValue) -> (r: Result<String, String>) {
    value.to_string(context).map(|s| s.to_std_string_escaped()).map_err(|err| format!("{:?}", err))
}

/// Relies on `JsValue::as_boolean`: the value when it is a boolean.
#[verifier::external_body]
fn as_boolean(value: &JsValue) -> (r: Option<bool>) {
    value.as_boolean()
}

/// Relies on `From<&str> for JsString`: a string value.
#[verifier::external_body]
fn js_string(s: &str) -> (r: JsValue) {
    JsValue::from(JsString::from(s))
}

/// Relies on `From<i64> for JsValue`: a number value.
#[verifier::external_body]
fn js_i64(n: i64) -> (r: JsValue) {
    JsValue::from(n)
}

/// Relies on `From<u64> for JsValue`: a number value.
#[verifier::external_body]
fn js_u64(n: u64) -> (r: JsValue) {
    JsValue::from(n)
}

/// Relies on `From<bool> for JsValue`: a boolean value.
#[verifier::external_body]
fn js_bool(b: bool) -> (r: JsValue) {
    JsValue::from(b)
}

/// Relies on `serde_json::from_str`: the JSON document in the text, or the parse error
/// rendered as text.
#[verifier::external_body]
fn parse_json(text: &str) -> (r: Result<serde_json::Value, String>) {
    serde_json::from_str::<serde_json::Value>(text).map_err(|err| format!("{:?}", err))
}

/// Relies on `serde_json::Value::get`: the member of an object of that name.
#[verifier::external_body]
fn json_member(value: &serde_json::Value, key: &str) -> (r: Option<serde_json::Value>) {
    value.get(key).cloned()
}

/// Relies on `serde_json::Value::as_array`: the elements of an array.
#[verifier::external_body]
fn json_elements(value: &serde_json::Value) -> (r: Option<Vec<serde_json::Value>>) {
    value.as_array().cloned()
}

/// Relies on `serde_json::Value::as_str`: the text of a string.
#[verifier::external_body]
fn json_text(value: &serde_json::Value) -> (r: Option<String>) {
    value.as_str().map(String::from)
}

/// A failure in the script layer.
#[derive(Debug)]
pub enum ScriptError {
    /// Evaluating a source threw; the text is the error.
    Evaluation(String),
    /// A required entry point is missing or not callable; the text is its name.
    MissingEntryPoint(String),
    /// An entry point threw; the text is the error.
    Call(String),
    /// Building or converting a value failed; the text is the error.
    Value(String),
    /// The plugins' self-description is not a list of plugins with string ids.
    Schema(String),
}

/// The outcome of dispatching one event: whether it goes on to the rest of the system, the
/// synthetic events to inject after it, and the boolean that the script entry point answered
/// (none when it answered something else, or was not asked).
#[derive(Debug)]
pub struct Dispatch {
    pub propagate: bool,
    pub replay: Vec<InputEvent>,
    pub answer: Option<bool>,
}

/// Something that went wrong while applying an operation; it is reported, never raised.
#[derive(Debug)]
pub enum HostNotice {
    /// An unload named a plugin id that is not loaded.
    UnknownPlugin(String),
    /// The unload entry point failed for this plugin id.
    UnloadFailed(String, ScriptError),
    /// Loading the plugins again failed, for one file or as a whole.
    LoadFailed(ScriptError),
}

/// The effect of applying the drained operations: whether the configuration must be read
/// again, and what went wrong on the way.
#[derive(Debug)]
pub struct Drained {
    pub needs_config_reload: bool,
    pub notices: Vec<HostNotice>,
}

/// `file` is the file name of one of `snippets`.
pub open spec fn names_snippet(snippets: Seq<PluginSnippet>, file: Option<Seq<char>>) -> bool {
    exists|i: int| 0 <= i < snippets.len() && file == Some(#[trigger] snippets[i].filename@)
}

/// Some operation asks for the configuration to be read again.
pub open spec fn has_reload_config(ops: Seq<JsOperation>) -> bool {
    exists|i: int| 0 <= i < ops.len() && #[trigger] ops[i] is ReloadConfig
}

/// Some operation asks for the plugins to be loaded again.
pub open spec fn has_reload_plugins(ops: Seq<JsOperation>) -> bool {
    exists|i: int| 0 <= i < ops.len() && #[trigger] ops[i] is ReloadPlugins
}

/// Some operation unloads the plugin `id`.
pub open spec fn unloads(ops: Seq<JsOperation>, id: Seq<char>) -> bool {
    exists|i: int|
        0 <= i < ops.len() && (#[trigger] ops[i] matches JsOperation::UnloadPlugin { plugin_id }
            && plugin_id@ == id)
}

/// Whether the drained operations ask for the plugins to be loaded again, so that their
/// sources must be read first.
pub fn reloads_plugins(ops: &Vec<JsOperation>) -> (r: bool)
    ensures
        r == has_reload_plugins(ops@),
{
    let mut i: usize = 0;
    while i < ops.len()
        invariant
            i <= ops@.len(),
            forall|j: int| 0 <= j < i ==> !(#[trigger] ops@[j] is ReloadPlugins),
        decreases ops@.len() - i,
    {
        match &ops[i] {
            JsOperation::ReloadPlugins => return true,
            _ => {},
        }
        i = i + 1;
    }
    false
}

proof fn lemma_ops_prefix(ops: Seq<JsOperation>, k: int)
    requires
        0 <= k < ops.len(),
    ensures
        has_reload_config(ops.subrange(0, k + 1)) == (has_reload_config(ops.subrange(0, k))
            || ops[k] is ReloadConfig),
        has_reload_plugins(ops.subrange(0, k + 1)) == (has_reload_plugins(ops.subrange(0, k))
            || ops[k] is ReloadPlugins),
        forall|id: Seq<char>|
            #[trigger] unloads(ops.subrange(0, k + 1), id) == (unloads(ops.subrange(0, k), id)
                || (ops[k] matches JsOperation::UnloadPlugin { plugin_id } && plugin_id@ == id)),
{
    let a = ops.subrange(0, k);
    let b = ops.subrange(0, k + 1);
    assert forall|i: int| 0 <= i < k implies #[trigger] b[i] == a[i] by {}
    assert(b[k] == ops[k]);
    if has_reload_config(b) {
        let i = choose|i: int| 0 <= i < b.len() && #[trigger] b[i] is ReloadConfig;
        if i < k {
            assert(a[i] is ReloadConfig);
        }
    }
    if has_reload_config(a) {
        let i = choose|i: int| 0 <= i < a.len() && #[trigger] a[i] is ReloadConfig;
        assert(b[i] is ReloadConfig);
    }
    if has_reload_plugins(b) {
        let i = choose|i: int| 0 <= i < b.len() && #[trigger] b[i] is ReloadPlugins;
        if i < k {
            assert(a[i] is ReloadPlugins);
        }
    }
    if has_reload_plugins(a) {
        let i = choose|i: int| 0 <= i < a.len() && #[trigger] a[i] is ReloadPlugins;
        assert(b[i] is ReloadPlugins);
    }
    assert forall|id: Seq<char>|
        #[trigger] unloads(b, id) == (unloads(a, id) || (ops[k] matches JsOperation::UnloadPlugin {
            plugin_id,
        } && plugin_id@ == id)) by {
        if unloads(b, id) {
            let i = choose|i: int|
                0 <= i < b.len() && (#[trigger] b[i] matches JsOperation::UnloadPlugin {
                    plugin_id,
                } && plugin_id@ == id);
            if i < k {
                assert(a[i] == b[i]);
            }
        }
        if unloads(a, id) {
            let i = choose|i: int|
                0 <= i < a.len() && (#[trigger] a[i] matches JsOperation::UnloadPlugin {
                    plugin_id,
                } && plugin_id@ == id);
            assert(b[i] == a[i]);
        }
    }
}

/// The ids of the plugins in a self-description document: the `id` of each element of its
/// `plugins` array, in order.
pub fn schema_plugin_ids(text: &str) -> (r: Result<Vec<String>, ScriptError>)
    ensures
        r matches Err(e) ==> e is Schema,
{
    let doc = match parse_json(text) {
        Ok(doc) => doc,
        Err(err) => return Err(ScriptError::Schema(err)),
    };
    let plugins = match json_member(&doc, "plugins") {
        Some(p) => p,
        None => return Err(ScriptError::Schema(String::from_str("no plugins member"))),
    };
    let elements = match json_elements(&plugins) {
        Some(e) => e,
        None => return Err(ScriptError::Schema(String::from_str("plugins is no array"))),
    };
    let mut ids: Vec<String> = Vec::new();
    let mut i: usize = 0;
    while i < elements.len()
        invariant
            i <= elements@.len(),
        decreases elements@.len() - i,
    {
        let id = match json_member(&elements[i], "id") {
            Some(v) => json_text(&v),
            None => None,
        };
        match id {
            Some(id) => ids.push(id),
            None => return Err(ScriptError::Schema(String::from_str("plugin without a string id"))),
        }
        i = i + 1;
    }
    Ok(ids)
}

/// Builds the object that scripts see as `Key`: an object without prototype with one
/// property per entry of `script_key_constants_spec()`, named as in the table and holding
/// the key code. Only setting a property can fail.
pub fn build_keycode(context: &mut Context) -> (r: Result<JsValue, ScriptError>)
    ensures
        r matches Err(e) ==> e is Value,
{
    let table = script_key_constants();
    let object = new_bare_object();
    let mut i: usize = 0;
    while i < table.len()
        invariant
            i <= table@.len(),
        decreases table@.len() - i,
    {
        let (name, code) = table[i];
        match set_property(context, &object, name, js_i64(code as i64)) {
            Ok(()) => {},
            Err(e) => return Err(ScriptError::Value(e)),
        }
        i = i + 1;
    }
    Ok(object)
}

/// The scripting host: one script environment, and the host state around it.
pub struct JS {
    context: Context,
    host: ScriptHost,
}

impl JS {
    pub closed spec fn host_spec(&self) -> ScriptHost {
        self.host
    }

    /// Sets up the host around a prepared script environment (one that already holds the
    /// host functions and the hotkey type): registers the key-code table as `Key` and the
    /// event constants, then evaluates the driver, which defines the entry points, and the
    /// bundled plugin. No plugin is recorded yet.
    pub fn new(context: Context, driver_src: &str, bundled_src: &str, macro_engine: Handler) -> (r:
        Result<JS, ScriptError>)
        ensures
            r matches Ok(js) ==> js.host_spec().wf() && js.host_spec().engine() == macro_engine
                && forall|id: Seq<char>| #[trigger] js.host_spec().file_of(id) is None,
    {
        let mut js = JS { context, host: ScriptHost::new(macro_engine) };
        match js.init_keycode() {
            Ok(()) => {},
            Err(e) => return Err(e),
        }
        match js.register_constants() {
            Ok(()) => {},
            Err(e) => return Err(e),
        }
        match js.eval_str(driver_src) {
            Ok(_) => {},
            Err(e) => return Err(e),
        }
        match js.eval_str(bundled_src) {
            Ok(_) => {},
            Err(e) => return Err(e),
        }
        Ok(js)
    }

    fn init_keycode(&mut self) -> (r: Result<(), ScriptError>)
        ensures
            final(self).host_spec() == old(self).host_spec(),
    {
        let object = match build_keycode(&mut self.context) {
            Ok(o) => o,
            Err(e) => return Err(e),
        };
        match register_global(&mut self.context, "Key", object) {
            Ok(()) => Ok(()),
            Err(e) => Err(ScriptError::Value(e)),
        }
    }

    fn register_constants(&mut self) -> (r: Result<(), ScriptError>)
        ensures
            final(self).host_spec() == old(self).host_spec(),
    {
        let constants = register_constants();
        let mut i: usize = 0;
        while i < constants.len()
            invariant
                self.host_spec() == old(self).host_spec(),
                i <= constants@.len(),
            decreases constants@.len() - i,
        {
            let (name, value) = constants[i];
            match register_global(&mut self.context, name, js_u64(value)) {
                Ok(()) => {},
                Err(e) => return Err(ScriptError::Value(e)),
            }
            i = i + 1;
        }
        Ok(())
    }

    fn eval_str(&mut self, src: &str) -> (r: Result<JsValue, ScriptError>)
        ensures
            final(self).host_spec() == old(self).host_spec(),
    {
        match eval_source(&mut self.context, src) {
            Ok(v) => Ok(v),
            Err(e) => Err(ScriptError::Evaluation(e)),
        }
    }

    /// Evaluates a source in the script environment.
    pub fn eval(&mut self, src: String) -> (r: Result<JsValue, ScriptError>)
        ensures
            final(self).host_spec() == old(self).host_spec(),
    {
        self.eval_str(src.as_str())
    }

    /// Calls the entry point of that name; fails with `MissingEntryPoint` when no callable
    /// global has the name.
    fn call_entry(&mut self, name: &str, args: Vec<JsValue>) -> (r: Result<JsValue, ScriptError>)
        ensures
            final(self).host_spec() == old(self).host_spec(),
            r matches Err(e) ==> (e is MissingEntryPoint || e is Call),
    {
        match global_function(&mut self.context, name) {
            Some(f) => match call_function(&mut self.context, &f, args) {
                Ok(v) => Ok(v),
                Err(e) => Err(ScriptError::Call(e)),
            },
            None => Err(ScriptError::MissingEntryPoint(String::from_str(name))),
        }
    }

    /// The plugins' self-description as the `$$getConfigSchema` entry point gives it: a JSON
    /// document with a `plugins` list.
    pub fn get_config_schema(&mut self) -> (r: Result<String, ScriptError>)
        ensures
            final(self).host_spec() == old(self).host_spec(),
    {
        let value = match self.call_entry("$$getConfigSchema", Vec::new()) {
            Ok(v) => v,
            Err(e) => return Err(e),
        };
        match value_to_string(&mut self.context, &value) {
            Ok(s) => Ok(s),
            Err(e) => Err(ScriptError::Value(e)),
        }
    }

    /// The ids of the plugins loaded in the script environment.
    pub fn loaded_plugins(&mut self) -> (r: Result<Vec<String>, ScriptError>)
        ensures
            final(self).host_spec() == old(self).host_spec(),
    {
        match self.get_config_schema() {
            Ok(text) => schema_plugin_ids(text.as_str()),
            Err(e) => Err(e),
        }
    }

    /// The file that registered `plugin_id`, if any.
    pub fn get_filename_by_plugin_id(&self, plugin_id: &String) -> (r: Option<String>)
        requires
            self.host_spec().wf(),
        ensures
            r matches Some(f) ==> self.host_spec().file_of(plugin_id@) == Some(f@),
            r is None ==> self.host_spec().file_of(plugin_id@) is None,
    {
        self.host.get_filename_by_plugin_id(plugin_id)
    }

    /// Evaluates the user plugins in order, attributing to each file the plugin ids that
    /// appeared while it was evaluated. A plugin that fails to evaluate is skipped, and its
    /// error is returned among the others; failing to read the loaded ids stops the load.
    /// The macro engine, and the keystrokes it has buffered, are not touched.
    pub fn load_user_scripts(&mut self, snippets: &Vec<PluginSnippet>) -> (r: Result<
        Vec<ScriptError>,
        ScriptError,
    >)
        requires
            old(self).host_spec().wf(),
        ensures
            final(self).host_spec().wf(),
            final(self).host_spec().engine() == old(self).host_spec().engine(),
            forall|id: Seq<char>|
                #[trigger] final(self).host_spec().file_of(id) == old(self).host_spec().file_of(id)
                    || names_snippet(snippets@, final(self).host_spec().file_of(id)),
            r matches Ok(errors) ==> errors@.len() <= snippets@.len(),
    {
        let ghost start = self.host_spec();
        let mut last = match self.loaded_plugins() {
            Ok(ids) => ids,
            Err(e) => return Err(e),
        };
        let mut errors: Vec<ScriptError> = Vec::new();
        let mut i: usize = 0;
        while i < snippets.len()
            invariant
                start == old(self).host_spec(),
                self.host_spec().wf(),
                self.host_spec().engine() == start.engine(),
                i <= snippets@.len(),
                errors@.len() <= i,
                forall|id: Seq<char>|
                    #[trigger] self.host_spec().file_of(id) == start.file_of(id) || names_snippet(
                        snippets@,
                        self.host_spec().file_of(id),
                    ),
            decreases snippets@.len() - i,
        {
            let snippet = &snippets[i];
            match self.eval_str(snippet.src.as_str()) {
                Ok(_) => {},
                Err(e) => errors.push(e),
            }
            let current = match self.loaded_plugins() {
                Ok(ids) => ids,
                Err(e) => return Err(e),
            };
            let ghost mid = self.host_spec();
            self.host.record_loaded(&snippet.filename, &last, &current);
            assert forall|id: Seq<char>|
                #[trigger] self.host_spec().file_of(id) == start.file_of(id) || names_snippet(
                    snippets@,
                    self.host_spec().file_of(id),
                ) by {
                if self.host_spec().file_of(id) != mid.file_of(id) {
                    assert(self.host_spec().file_of(id) == Some(snippets@[i as int].filename@));
                }
            }
            last = current;
            i = i + 1;
        }
        Ok(errors)
    }

    /// Calls the `$$unloadPlugin` entry point for one plugin id.
    fn unload_plugin(&mut self, plugin_id: &String) -> (r: Result<(), ScriptError>)
        ensures
            final(self).host_spec() == old(self).host_spec(),
    {
        let mut args: Vec<JsValue> = Vec::new();
        args.push(js_string(plugin_id.as_str()));
        match self.call_entry("$$unloadPlugin", args) {
            Ok(_) => Ok(()),
            Err(e) => Err(e),
        }
    }

    /// Applies one drained operation: the host's records change as
    /// `ScriptHost::apply_operation` says, and unloading a recorded plugin calls the unload
    /// entry point, whose failure is returned. Unloading an id that is not recorded calls
    /// nothing and is reported in the step. The macro engine is not touched.
    pub fn apply_operation(&mut self, op: JsOperation) -> (r: Result<HostStep, ScriptError>)
        requires
            old(self).host_spec().wf(),
        ensures
            final(self).host_spec().wf(),
            final(self).host_spec().engine() == old(self).host_spec().engine(),
            match op {
                JsOperation::UnloadPlugin { plugin_id } => if old(self).host_spec().file_of(
                    plugin_id@,
                ) is None {
                    &&& r matches Ok(HostStep::UnknownPlugin(p)) && p@ == plugin_id@
                    &&& forall|id: Seq<char>| #[trigger] final(self).host_spec().file_of(id)
                        == old(self).host_spec().file_of(id)
                } else {
                    &&& r is Err || (r matches Ok(HostStep::UnloadPlugin(p)) && p@ == plugin_id@)
                    &&& final(self).host_spec().file_of(plugin_id@) is None
                    &&& forall|id: Seq<char>|
                        id != plugin_id@ ==> #[trigger] final(self).host_spec().file_of(id)
                            == old(self).host_spec().file_of(id)
                },
                JsOperation::ReloadConfig => r matches Ok(HostStep::ReloadConfig),
                JsOperation::ReloadPlugins => (r matches Ok(HostStep::ReloadPlugins)) && forall|
                    id: Seq<char>,
                | #[trigger] final(self).host_spec().file_of(id) is None,
            },
    {
        let step = self.host.apply_operation(op);
        match step {
            HostStep::UnloadPlugin(id) => match self.unload_plugin(&id) {
                Ok(()) => Ok(HostStep::UnloadPlugin(id)),
                Err(e) => Err(e),
            },
            other => Ok(other),
        }
    }

    /// The script object for an event: its `type` and `keycode`, and its `flags` on a flags
    /// change.
    fn build_key_event(&mut self, event: &Event) -> (r: Result<JsValue, ScriptError>)
        ensures
            final(self).host_spec() == old(self).host_spec(),
            r matches Err(e) ==> e is Value,
    {
        let fields = event.build_key_event();
        let object = new_object(&mut self.context);
        match set_property(&mut self.context, &object, "type", js_string(fields.event_type.as_str())) {
            Ok(()) => {},
            Err(e) => return Err(ScriptError::Value(e)),
        }
        match set_property(&mut self.context, &object, "keycode", js_i64(fields.keycode)) {
            Ok(()) => {},
            Err(e) => return Err(ScriptError::Value(e)),
        }
        match fields.flags {
            Some(flags) => match set_property(&mut self.context, &object, "flags", js_u64(flags)) {
                Ok(()) => {},
                Err(e) => return Err(ScriptError::Value(e)),
            },
            None => {},
        }
        Ok(object)
    }

    /// Applies the drained operations in order. A configuration reload sets the flag handed
    /// to the entry point; a plugin reload loads `sources` again; an unload of a recorded
    /// plugin forgets it and calls the unload entry point. Nothing here fails: an unknown
    /// plugin id, a failed unload and a failed load are reported as notices. The macro
    /// engine is not touched. Without a plugin reload among them, the records change only by
    /// the unloads.
    pub fn apply_operations(&mut self, ops: Vec<JsOperation>, sources: &Vec<PluginSnippet>) -> (r:
        Drained)
        requires
            old(self).host_spec().wf(),
        ensures
            final(self).host_spec().wf(),
            final(self).host_spec().engine() == old(self).host_spec().engine(),
            r.needs_config_reload == has_reload_config(ops@),
            !has_reload_plugins(ops@) ==> forall|id: Seq<char>|
                #[trigger] final(self).host_spec().file_of(id) == (if unloads(ops@, id) {
                    None
                } else {
                    old(self).host_spec().file_of(id)
                }),
    {
        let ghost all = ops@;
        let ghost start = self.host_spec();
        let mut ops = ops;
        let n = ops.len();
        let mut needs_config_reload = false;
        let mut notices: Vec<HostNotice> = Vec::new();
        let mut k: usize = 0;
        assert(all.subrange(0, 0) =~= Seq::<JsOperation>::empty());
        assert(all.subrange(0, all.len() as int) =~= all);
        while ops.len() > 0
            invariant
                all.len() == n,
                k <= all.len(),
                ops@ == all.subrange(k as int, all.len() as int),
                self.host_spec().wf(),
                self.host_spec().engine() == start.engine(),
                needs_config_reload == has_reload_config(all.subrange(0, k as int)),
                !has_reload_plugins(all.subrange(0, k as int)) ==> forall|id: Seq<char>|
                    #[trigger] self.host_spec().file_of(id) == (if unloads(
                        all.subrange(0, k as int),
                        id,
                    ) {
                        None
                    } else {
                        start.file_of(id)
                    }),
            decreases ops@.len(),
        {
            proof {
                lemma_ops_prefix(all, k as int);
            }
            let op = ops.remove(0);
            assert(op == all[k as int]);
            let ghost before = self.host_spec();
            match self.host.apply_operation(op) {
                HostStep::ReloadConfig => {
                    needs_config_reload = true;
                },
                HostStep::ReloadPlugins => {
                    match self.load_user_scripts(sources) {
                        Ok(errors) => {
                            let mut errors = errors;
                            while errors.len() > 0
                                invariant
                                    self.host_spec().wf(),
                                decreases errors@.len(),
                            {
                                let e = errors.remove(0);
                                notices.push(HostNotice::LoadFailed(e));
                            }
                        },
                        Err(e) => notices.push(HostNotice::LoadFailed(e)),
                    }
                },
                HostStep::UnloadPlugin(id) => {
                    match self.unload_plugin(&id) {
                        Ok(()) => {},
                        Err(e) => notices.push(HostNotice::UnloadFailed(id, e)),
                    }
                },
                HostStep::UnknownPlugin(id) => notices.push(HostNotice::UnknownPlugin(id)),
            }
            k = k + 1;
            assert(ops@ =~= all.subrange(k as int, all.len() as int));
        }
        Drained { needs_config_reload, notices }
    }

    /// Handles one genuine event: applies the drained operations (see `apply_operations`;
    /// nothing they do is raised), normalises the event and appends it to the monitoring
    /// log, and hands it to the macro engine. A press of the engine's trigger is swallowed
    /// and answered with the engine's replay, without reaching the scripts; any other event
    /// goes to the `$$invokeEvent` entry point with the configuration-reload flag, and
    /// `propagate_decision` of its answer decides whether the event propagates. Only that
    /// dispatch can fail.
    pub fn send_event(
        &mut self,
        ops: Vec<JsOperation>,
        sources: &Vec<PluginSnippet>,
        raw_type: u32,
        keycode: i64,
        flags: u64,
        timestamp: u64,
        log: &mut MonitoringLog,
    ) -> (r: (Drained, Result<Dispatch, ScriptError>))
        requires
            old(self).host_spec().wf(),
        ensures
            final(self).host_spec().wf(),
            r.0.needs_config_reload == has_reload_config(ops@),
            !has_reload_plugins(ops@) ==> forall|id: Seq<char>|
                #[trigger] final(self).host_spec().file_of(id) == (if unloads(ops@, id) {
                    None
                } else {
                    old(self).host_spec().file_of(id)
                }),
            exists|e: Event|
                Event::normalises(e, raw_type, keycode, flags, timestamp) && final(log)@
                    == most_recent(old(log)@.push(e)),
            engine_after(
                old(self).host_spec().engine(),
                final(self).host_spec().engine(),
                input_of_raw(raw_type, keycode, flags),
            ),
            presses_trigger(old(self).host_spec().engine(), input_of_raw(raw_type, keycode, flags))
                ==> (r.1 matches Ok(d) && !d.propagate && d.answer is None && d.replay@
                == replay_spec(
                old(self).host_spec().engine().buffer_spec(),
                old(self).host_spec().engine().latest_flags_spec(),
            )),
            !presses_trigger(old(self).host_spec().engine(), input_of_raw(raw_type, keycode, flags))
                ==> (r.1 matches Ok(d) ==> d.replay@.len() == 0 && d.propagate
                == propagates(d.answer)),
            r.1 matches Err(e) ==> (e is Value || e is MissingEntryPoint || e is Call),
    {
        let drained = self.apply_operations(ops, sources);
        let logged = Event::from_cf(raw_type, keycode, flags, timestamp);
        let ghost witness = logged;
        log.push(logged);
        let event = Event::from_cf(raw_type, keycode, flags, timestamp);
        assert(input_event_of(event) == input_of_raw(raw_type, keycode, flags));
        let reaction = self.host.on_event(&event);
        if !reaction.forward {
            return (drained, Ok(Dispatch { propagate: false, replay: reaction.replay, answer: None }));
        }
        let object = match self.build_key_event(&event) {
            Ok(o) => o,
            Err(e) => return (drained, Err(e)),
        };
        let mut args: Vec<JsValue> = Vec::new();
        args.push(object);
        args.push(js_bool(drained.needs_config_reload));
        let answer = match self.call_entry("$$invokeEvent", args) {
            Ok(v) => as_boolean(&v),
            Err(e) => return (drained, Err(e)),
        };
        let propagate = propagate_decision(Ok(answer));
        (drained, Ok(Dispatch { propagate, replay: reaction.replay, answer }))
    }
}

} // verus!
