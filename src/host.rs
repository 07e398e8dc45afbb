use vstd::prelude::*;
use crate::dynamic_macro::{replay_spec, Handler, InputEvent, Reaction};
use crate::event::{kind_of, Event, EventKind};
use crate::hotkey::{matches_spec, parse_spec, HotKey, ParseError};
use crate::plugin::PluginIndex;

verus! {

/// A control command for the scripting host, sent from any thread and applied on the
/// capture thread before the next event is dispatched.
#[derive(Debug)]
pub enum JsOperation {
    ReloadConfig,
    ReloadPlugins,
    UnloadPlugin { plugin_id: String },
}

/// What the capture thread must do, in the script environment, for one operation.
#[derive(Debug)]
pub enum HostStep {
    /// Tell the entry point that the configuration must be read again.
    ReloadConfig,
    /// Evaluate every user plugin again, recording what each registers.
    ReloadPlugins,
    /// Call the unload entry point for this plugin id.
    UnloadPlugin(String),
    /// The plugin id is not loaded: log an error and go on.
    UnknownPlugin(String),
}

/// The ids of `ids` include `id`.
pub open spec fn has_id(ids: Seq<String>, id: Seq<char>) -> bool {
    exists|i: int| 0 <= i < ids.len() && #[trigger] ids[i]@ == id
}

/// The ids that a file registered: those loaded after its evaluation and not before.
pub open spec fn newly_loaded(before: Seq<String>, after: Seq<String>, id: Seq<char>) -> bool {
    has_id(after, id) && !has_id(before, id)
}

fn contains_id(ids: &Vec<String>, id: &String) -> (r: bool)
    ensures
        r == has_id(ids@, id@),
{
    let mut i: usize = 0;
    while i < ids.len()
        invariant
            i <= ids@.len(),
            forall|k: int| 0 <= k < i ==> #[trigger] ids@[k]@ != id@,
        decreases ids@.len() - i,
    {
        if ids[i] == *id {
            return true;
        }
        i = i + 1;
    }
    false
}

/// The state of the scripting host that lives outside the script environment: which file
/// registered each plugin, and the built-in dynamic macro engine.
pub struct ScriptHost {
    plugins: PluginIndex,
    macro_engine: Handler,
}

/// Whether an event propagates, given the boolean that the script entry point answered:
/// that boolean, or `true` when it answered something else.
pub open spec fn propagates(answer: Option<bool>) -> bool {
    match answer {
        Some(b) => b,
        None => true,
    }
}

/// The propagate decision for one event, given what the script entry point returned: its
/// boolean when it returned one, and `true` (let the event through) when it returned
/// something else or failed.
pub fn propagate_decision(outcome: Result<Option<bool>, String>) -> (r: bool)
    ensures
        r == (match outcome {
            Ok(answer) => propagates(answer),
            Err(_) => true,
        }),
{
    match outcome {
        Ok(Some(b)) => b,
        _ => true,
    }
}

/// The macro engine's view of a normalised event; events of unknown kind have none.
pub open spec fn input_event_of(e: Event) -> Option<InputEvent> {
    match e.kind {
        EventKind::KeyDown => Some(InputEvent::KeyPress(e.keycode as u16)),
        EventKind::KeyUp => Some(InputEvent::KeyRelease(e.keycode as u16)),
        EventKind::FlagsChanged => Some(InputEvent::FlagsChanged(e.keycode as u16, e.flags)),
        EventKind::Unknown => None,
    }
}

/// Converts a normalised event for the macro engine; see `input_event_of`.
pub fn to_input_event(e: &Event) -> (r: Option<InputEvent>)
    ensures
        r == input_event_of(*e),
{
    match e.kind {
        EventKind::KeyDown => Some(InputEvent::KeyPress(e.keycode as u16)),
        EventKind::KeyUp => Some(InputEvent::KeyRelease(e.keycode as u16)),
        EventKind::FlagsChanged => Some(InputEvent::FlagsChanged(e.keycode as u16, e.flags)),
        EventKind::Unknown => None,
    }
}

/// The macro engine's view of a raw event with these fields; see `input_event_of`.
pub open spec fn input_of_raw(raw_type: u32, keycode: i64, flags: u64) -> Option<InputEvent> {
    match kind_of(raw_type) {
        EventKind::KeyDown => Some(InputEvent::KeyPress(keycode as u16)),
        EventKind::KeyUp => Some(InputEvent::KeyRelease(keycode as u16)),
        EventKind::FlagsChanged => Some(InputEvent::FlagsChanged(keycode as u16, flags)),
        EventKind::Unknown => None,
    }
}

/// The input is a press of the engine's trigger hotkey, given the engine's latest flags.
pub open spec fn presses_trigger(engine: Handler, input: Option<InputEvent>) -> bool {
    input matches Some(InputEvent::KeyPress(code)) && matches_spec(
        engine.hotkey_spec(),
        engine.latest_flags_spec(),
        code,
    )
}

/// The engine `new` is `old` after the input: stepped by it, or unchanged when there is none.
pub open spec fn engine_after(old: Handler, new: Handler, input: Option<InputEvent>) -> bool {
    match input {
        Some(i) => Handler::steps(old, new, i),
        None => Handler::unchanged(old, new),
    }
}

impl ScriptHost {
    pub closed spec fn wf(&self) -> bool {
        self.plugins.wf()
    }

    /// The file that registered a plugin id.
    pub closed spec fn file_of(&self, id: Seq<char>) -> Option<Seq<char>> {
        self.plugins.file_of(id)
    }

    /// The built-in dynamic macro engine.
    pub closed spec fn engine(&self) -> Handler {
        self.macro_engine
    }

    /// A host with no plugin recorded, around the given macro engine.
    pub fn new(macro_engine: Handler) -> (r: ScriptHost)
        ensures
            r.wf(),
            r.engine() == macro_engine,
            forall|id: Seq<char>| r.file_of(id) is None,
    {
        ScriptHost { plugins: PluginIndex::new(), macro_engine }
    }

    /// The built-in dynamic macro engine.
    pub fn macro_engine(&self) -> (r: &Handler)
        ensures
            *r == self.engine(),
    {
        &self.macro_engine
    }

    /// The file that registered `plugin_id`, if any.
    pub fn get_filename_by_plugin_id(&self, plugin_id: &String) -> (r: Option<String>)
        requires
            self.wf(),
        ensures
            r matches Some(f) ==> self.file_of(plugin_id@) == Some(f@),
            r is None ==> self.file_of(plugin_id@) is None,
    {
        self.plugins.get_filename_by_plugin_id(plugin_id)
    }

    /// Applies one drained operation to the host's own state and says what remains to do in
    /// the script environment. Reloading forgets every record (the reload records them
    /// again); unloading a recorded id forgets it; unloading an id that is not recorded
    /// changes nothing and is reported, not raised. No operation touches the macro engine,
    /// so the keystrokes it has buffered survive any reload.
    pub fn apply_operation(&mut self, op: JsOperation) -> (r: HostStep)
        requires
            old(self).wf(),
        ensures
            final(self).wf(),
            final(self).engine() == old(self).engine(),
            match op {
                JsOperation::ReloadConfig => {
                    &&& r is ReloadConfig
                    &&& forall|id: Seq<char>| #[trigger]
                        final(self).file_of(id) == old(self).file_of(id)
                },
                JsOperation::ReloadPlugins => {
                    &&& r is ReloadPlugins
                    &&& forall|id: Seq<char>| #[trigger] final(self).file_of(id) is None
                },
                JsOperation::UnloadPlugin { plugin_id } => if old(self).file_of(plugin_id@) is Some {
                    &&& r matches HostStep::UnloadPlugin(p) && p@ == plugin_id@
                    &&& final(self).file_of(plugin_id@) is None
                    &&& forall|id: Seq<char>|
                        id != plugin_id@ ==> #[trigger] final(self).file_of(id) == old(self).file_of(
                            id,
                        )
                } else {
                    &&& r matches HostStep::UnknownPlugin(p) && p@ == plugin_id@
                    &&& forall|id: Seq<char>| #[trigger]
                        final(self).file_of(id) == old(self).file_of(id)
                },
            },
    {
        match op {
            JsOperation::ReloadConfig => HostStep::ReloadConfig,
            JsOperation::ReloadPlugins => {
                self.plugins.clear();
                HostStep::ReloadPlugins
            },
            JsOperation::UnloadPlugin { plugin_id } => {
                match self.plugins.get_filename_by_plugin_id(&plugin_id) {
                    Some(_) => {
                        self.plugins.remove(&plugin_id);
                        HostStep::UnloadPlugin(plugin_id)
                    },
                    None => HostStep::UnknownPlugin(plugin_id),
                }
            },
        }
    }

    /// Records the plugins that evaluating `filename` registered: the ids loaded after it
    /// and not before are attributed to it; other records stay. The macro engine is not
    /// touched.
    pub fn record_loaded(&mut self, filename: &String, before: &Vec<String>, after: &Vec<String>)
        requires
            old(self).wf(),
        ensures
            final(self).wf(),
            final(self).engine() == old(self).engine(),
            forall|id: Seq<char>|
                #[trigger] final(self).file_of(id) == (if newly_loaded(before@, after@, id) {
                    Some(filename@)
                } else {
                    old(self).file_of(id)
                }),
    {
        let ghost start = *self;
        let mut i: usize = 0;
        while i < after.len()
            invariant
                self.wf(),
                self.engine() == start.engine(),
                i <= after@.len(),
                forall|id: Seq<char>|
                    #[trigger] self.file_of(id) == (if has_id(after@.subrange(0, i as int), id)
                        && !has_id(before@, id) {
                        Some(filename@)
                    } else {
                        start.file_of(id)
                    }),
            decreases after@.len() - i,
        {
            let ghost prefix = after@.subrange(0, i as int);
            let ghost next = after@.subrange(0, i + 1);
            assert forall|id: Seq<char>| #[trigger] has_id(next, id) == (has_id(prefix, id) || after@[i as int]@ == id) by {
                if has_id(next, id) {
                    let k = choose|k: int| 0 <= k < next.len() && #[trigger] next[k]@ == id;
                    if k < i {
                        assert(prefix[k] == next[k]);
                    }
                }
                if has_id(prefix, id) {
                    let k = choose|k: int| 0 <= k < prefix.len() && #[trigger] prefix[k]@ == id;
                    assert(next[k] == prefix[k]);
                }
                if after@[i as int]@ == id {
                    assert(next[i as int] == after@[i as int]);
                }
            }
            let ghost mid = *self;
            let id = &after[i];
            let fresh = !contains_id(before, id);
            if fresh {
                self.plugins.insert(id.clone(), filename.clone());
            }
            assert forall|k: Seq<char>|
                #[trigger] self.file_of(k) == (if has_id(next, k) && !has_id(before@, k) {
                    Some(filename@)
                } else {
                    start.file_of(k)
                }) by {
                assert(has_id(next, k) == (has_id(prefix, k) || after@[i as int]@ == k));
                assert(mid.file_of(k) == (if has_id(prefix, k) && !has_id(before@, k) {
                    Some(filename@)
                } else {
                    start.file_of(k)
                }));
            }
            i = i + 1;
        }
        assert(after@.subrange(0, i as int) =~= after@);
    }

    /// Hands one normalised event to the dynamic macro engine; an event of unknown kind goes
    /// on untouched.
    pub fn on_event(&mut self, event: &Event) -> (r: Reaction)
        requires
            old(self).wf(),
        ensures
            final(self).wf(),
            forall|id: Seq<char>| #[trigger] final(self).file_of(id) == old(self).file_of(id),
            engine_after(old(self).engine(), final(self).engine(), input_event_of(*event)),
            presses_trigger(old(self).engine(), input_event_of(*event)) ==> !r.forward
                && r.replay@ == replay_spec(
                old(self).engine().buffer_spec(),
                old(self).engine().latest_flags_spec(),
            ),
            !presses_trigger(old(self).engine(), input_event_of(*event)) ==> r.forward
                && r.replay@.len() == 0,
    {
        match to_input_event(event) {
            Some(input) => self.macro_engine.callback(input),
            None => Reaction { forward: true, replay: Vec::new() },
        }
    }
}

/// The namespace of the host functions that scripts call.
pub struct JsBuiltin {}

impl JsBuiltin {
    /// Whether the live flags and key code trigger the hotkey written in `notation`; fails
    /// when the notation does not parse.
    pub fn matches_hotkey_string(flags: u64, keycode: u16, notation: &str) -> (r: Result<
        bool,
        ParseError,
    >)
        ensures
            r == (match parse_spec(notation@) {
                Ok(h) => Ok(matches_spec(h, flags, keycode)),
                Err(e) => Err(e),
            }),
    {
        match HotKey::from_str(notation) {
            Ok(hotkey) => Ok(hotkey.matches(flags, keycode)),
            Err(e) => Err(e),
        }
    }
}

} // verus!
