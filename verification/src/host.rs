//! The scripting host: owns the embedded runtime, registers the hotkey
//! type, the key table, the platform constants and the bridge primitives as
//! host-visible globals, loads the fixed dispatch protocol and the built-in
//! default plugin, and hands every captured hardware event to the dispatch
//! entry point, consuming its boolean verdict.
//!
//! The dispatch protocol lives in the runtime: `registerPlugin` keeps an
//! ordered list of plugin callbacks, re-registration of an id replacing the
//! prior entry; the dispatch entry point invokes every callback in
//! registration order — each plugin sees every event — and combines the
//! verdicts by conjunction; the schema entry point serializes the registered
//! descriptors. The host trusts the runtime for nothing: whatever dispatch
//! returns, the host's own interpretation is total and fails open — a
//! missing entry point, a thrown error or a non-boolean verdict forwards the
//! event rather than locking the keyboard.
use vstd::prelude::*;

use crate::jsoncfg::{
    json_as_array, json_as_str, json_get, json_is_object, parse_json, spec_doc, spec_json_text,
    JsonDoc,
};
use crate::jsrt::{
    call_dispatch, call_no_args, eval_js, get_global, new_context, register_console,
    register_global_callable, register_global_u32, to_function, value_as_boolean, value_to_text,
};
use crate::keys::{event_flags, event_keycode, event_type_name, Event};
use crate::monitor::{spec_monitor_push, MonitoringQueue};
use crate::plugin::Plugins;

verus! {

/// Failure of a caller-initiated host operation. Per-event dispatch never
/// raises these: it fails open instead.
#[derive(Debug)]
pub enum HostError {
    /// The runtime could not evaluate what the caller handed in, or a
    /// protocol entry point is missing or broken.
    RuntimeEvalError(String),
    /// The schema entry point returned a document that is not a well-formed
    /// schema list.
    SchemaParseError(String),
}

/// One declared configuration parameter of a plugin.
#[derive(Debug)]
pub struct ConfigField {
    pub name: String,
    pub field_type: String,
    pub default: String,
    pub description: String,
}

/// One plugin's descriptor: its stable id, display name, description, and
/// declared configuration schema.
#[derive(Debug)]
pub struct ConfigSchema {
    pub id: String,
    pub name: String,
    pub description: String,
    pub config: Vec<ConfigField>,
}

/// The descriptors of every currently registered plugin, rebuilt fresh on
/// demand.
#[derive(Debug)]
pub struct ConfigSchemaList {
    pub plugins: Vec<ConfigSchema>,
}

/// The mathematical image of one configuration parameter.
pub ghost struct FieldModel {
    pub name: Seq<char>,
    pub field_type: Seq<char>,
    pub default: Seq<char>,
    pub description: Seq<char>,
}

/// The mathematical image of one descriptor.
pub ghost struct SchemaModel {
    pub id: Seq<char>,
    pub name: Seq<char>,
    pub description: Seq<char>,
    pub config: Seq<FieldModel>,
}

/// The mathematical image of a descriptor list.
pub ghost struct SchemaListModel {
    pub plugins: Seq<SchemaModel>,
}

impl ConfigField {
    /// The parameter's image.
    pub open spec fn model(&self) -> FieldModel {
        FieldModel {
            name: self.name@,
            field_type: self.field_type@,
            default: self.default@,
            description: self.description@,
        }
    }
}

impl ConfigSchema {
    /// The descriptor's image.
    pub open spec fn model(&self) -> SchemaModel {
        SchemaModel {
            id: self.id@,
            name: self.name@,
            description: self.description@,
            config: self.config@.map_values(|f: ConfigField| f.model()),
        }
    }
}

impl ConfigSchemaList {
    /// The list's image.
    pub open spec fn model(&self) -> SchemaListModel {
        SchemaListModel { plugins: self.plugins@.map_values(|s: ConfigSchema| s.model()) }
    }
}

/// The member of an object document under a key.
pub open spec fn spec_member(d: JsonDoc, key: Seq<char>) -> Option<JsonDoc> {
    if d is Object && d->Object_0.contains_key(key) {
        Some(d->Object_0[key])
    } else {
        None
    }
}

/// A required string member: present and a string, or nothing.
pub open spec fn spec_req_text(d: JsonDoc, key: Seq<char>) -> Option<Seq<char>> {
    match spec_member(d, key) {
        Some(m) => if m is Text {
            Some(m->Text_0)
        } else {
            None
        },
        None => None,
    }
}

/// An optional string member: an absent or non-string member reads as empty.
pub open spec fn spec_opt_text(d: JsonDoc, key: Seq<char>) -> Seq<char> {
    match spec_member(d, key) {
        Some(m) => if m is Text {
            m->Text_0
        } else {
            Seq::<char>::empty()
        },
        None => Seq::<char>::empty(),
    }
}

/// The configuration parameter a document denotes: any object, its four
/// known members read as optional strings; anything else is none.
pub open spec fn spec_field_doc(d: JsonDoc) -> Option<FieldModel> {
    if d is Object {
        Some(
            FieldModel {
                name: spec_opt_text(d, "name"@),
                field_type: spec_opt_text(d, "type"@),
                default: spec_opt_text(d, "default"@),
                description: spec_opt_text(d, "description"@),
            },
        )
    } else {
        None
    }
}

/// The parameters a list of documents denotes: every one a parameter, or
/// none at all.
pub open spec fn spec_fields_docs(elems: Seq<JsonDoc>) -> Option<Seq<FieldModel>>
    decreases elems.len(),
{
    if elems.len() == 0 {
        Some(Seq::<FieldModel>::empty())
    } else {
        match spec_field_doc(elems[0]) {
            Some(f) => match spec_fields_docs(elems.drop_first()) {
                Some(rest) => Some(seq![f] + rest),
                None => None,
            },
            None => None,
        }
    }
}

/// The descriptor a document denotes: string `id`, `name` and `description`
/// members and a `config` array of parameters; anything else is none.
pub open spec fn spec_schema_doc(d: JsonDoc) -> Option<SchemaModel> {
    if spec_req_text(d, "id"@) is Some && spec_req_text(d, "name"@) is Some && spec_req_text(
        d,
        "description"@,
    ) is Some && spec_member(d, "config"@) is Some && spec_member(d, "config"@).unwrap()
        is Array && spec_fields_docs(spec_member(d, "config"@).unwrap()->Array_0) is Some {
        Some(
            SchemaModel {
                id: spec_req_text(d, "id"@).unwrap(),
                name: spec_req_text(d, "name"@).unwrap(),
                description: spec_req_text(d, "description"@).unwrap(),
                config: spec_fields_docs(spec_member(d, "config"@).unwrap()->Array_0).unwrap(),
            },
        )
    } else {
        None
    }
}

/// The descriptors a list of documents denotes: every one a descriptor, or
/// none at all.
pub open spec fn spec_schemas_docs(elems: Seq<JsonDoc>) -> Option<Seq<SchemaModel>>
    decreases elems.len(),
{
    if elems.len() == 0 {
        Some(Seq::<SchemaModel>::empty())
    } else {
        match spec_schema_doc(elems[0]) {
            Some(m) => match spec_schemas_docs(elems.drop_first()) {
                Some(rest) => Some(seq![m] + rest),
                None => None,
            },
            None => None,
        }
    }
}

/// The descriptor list a document denotes: an object whose `plugins` member
/// is an array of descriptors; anything else is none.
pub open spec fn spec_schema_list_doc(d: JsonDoc) -> Option<SchemaListModel> {
    if spec_member(d, "plugins"@) is Some && spec_member(d, "plugins"@).unwrap()
        is Array && spec_schemas_docs(spec_member(d, "plugins"@).unwrap()->Array_0) is Some {
        Some(
            SchemaListModel {
                plugins: spec_schemas_docs(spec_member(d, "plugins"@).unwrap()->Array_0).unwrap(),
            },
        )
    } else {
        None
    }
}

/// The descriptor list a text denotes: the text's JSON document, when it has
/// one, read as a descriptor list.
pub open spec fn spec_schema_of_text(text: Seq<char>) -> Option<SchemaListModel> {
    match spec_json_text(text) {
        Some(d) => spec_schema_list_doc(d),
        None => None,
    }
}

/// The host: the embedded runtime, the two reload-pulse channels, the
/// monitoring queue, and the plugin store.
pub struct JS {
    pub context: boa_engine::Context,
    pub config_reload_rx: Option<std::sync::mpsc::Receiver<bool>>,
    pub plugin_reload_rx: Option<std::sync::mpsc::Receiver<bool>>,
    pub monitoring_queue: Option<MonitoringQueue>,
    pub plugins: Option<Plugins>,
}

/// The queue invariant, where a queue is kept at all.
pub open spec fn queue_opt_wf(q: Option<MonitoringQueue>) -> bool {
    match q {
        Some(queue) => queue.wf(),
        None => true,
    }
}

impl JS {
    /// The recorded events, where a queue is kept at all.
    pub open spec fn queue_model(&self) -> Option<Seq<Event>> {
        match self.monitoring_queue {
            Some(q) => Some(q.queue@),
            None => None,
        }
    }

    /// The host's bound on its queue.
    pub open spec fn wf(&self) -> bool {
        queue_opt_wf(self.monitoring_queue)
    }

    /// Everything except the runtime state is the same in both hosts.
    pub open spec fn same_but_context(a: &JS, b: &JS) -> bool {
        &&& a.config_reload_rx == b.config_reload_rx
        &&& a.plugin_reload_rx == b.plugin_reload_rx
        &&& a.monitoring_queue == b.monitoring_queue
        &&& a.plugins == b.plugins
    }

    /// Builds the host and brings the runtime to readiness: console, the
    /// hotkey type, the key table and the platform constants are registered,
    /// and the dispatch protocol and the built-in default plugin evaluated.
    /// User plugins are loaded afterwards through `load_user_scripts`; the
    /// bridge primitives come from the embedder through
    /// `register_builtin_functions`.
    pub fn new(
        config_reload_rx: Option<std::sync::mpsc::Receiver<bool>>,
        plugin_reload_rx: Option<std::sync::mpsc::Receiver<bool>>,
        monitoring_queue: Option<MonitoringQueue>,
        plugins: Option<Plugins>,
    ) -> (r: Result<JS, HostError>)
        requires
            queue_opt_wf(monitoring_queue),
        ensures
            (match r {
                Ok(js) => {
                    &&& js.wf()
                    &&& js.monitoring_queue == monitoring_queue
                    &&& js.plugins == plugins
                    &&& js.config_reload_rx == config_reload_rx
                    &&& js.plugin_reload_rx == plugin_reload_rx
                },
                Err(_) => true,
            }),
    {
        let context = new_context();
        let mut js = JS { context, config_reload_rx, plugin_reload_rx, monitoring_queue, plugins };
        match js.init_console() {
            Ok(_) => (),
            Err(e) => {
                return Err(e);
            },
        }
        match js.init_hotkey() {
            Ok(_) => (),
            Err(e) => {
                return Err(e);
            },
        }
        match js.init_keycode() {
            Ok(_) => (),
            Err(e) => {
                return Err(e);
            },
        }
        match js.register_constants() {
            Ok(_) => (),
            Err(e) => {
                return Err(e);
            },
        }
        match js.load_driver() {
            Ok(_) => (),
            Err(e) => {
                return Err(e);
            },
        }
        match js.load_bundled() {
            Ok(_) => (),
            Err(e) => {
                return Err(e);
            },
        }
        Ok(js)
    }

    /// Exposes the `console` object to scripts.
    fn init_console(&mut self) -> (r: Result<(), HostError>)
        ensures
            JS::same_but_context(old(self), final(self)),
    {
        match register_console(&mut self.context) {
            Ok(_) => Ok(()),
            Err(e) => Err(HostError::RuntimeEvalError(e)),
        }
    }

    /// Exposes the `HotKey` type to scripts.
    fn init_hotkey(&mut self) -> (r: Result<(), HostError>)
        ensures
            JS::same_but_context(old(self), final(self)),
    {
        match eval_js(&mut self.context, HOTKEY_JS) {
            Ok(_) => Ok(()),
            Err(e) => Err(HostError::RuntimeEvalError(e)),
        }
    }

    /// Exposes the read-only `Key` table to scripts.
    fn init_keycode(&mut self) -> (r: Result<(), HostError>)
        ensures
            JS::same_but_context(old(self), final(self)),
    {
        match eval_js(&mut self.context, KEY_TABLE_JS) {
            Ok(_) => Ok(()),
            Err(e) => Err(HostError::RuntimeEvalError(e)),
        }
    }

    /// Exposes the platform event-type constants to scripts.
    fn register_constants(&mut self) -> (r: Result<(), HostError>)
        ensures
            JS::same_but_context(old(self), final(self)),
    {
        match self.register_constant("kCGEventKeyDown", 10) {
            Ok(_) => (),
            Err(e) => {
                return Err(e);
            },
        }
        match self.register_constant("kCGEventKeyUp", 11) {
            Ok(_) => (),
            Err(e) => {
                return Err(e);
            },
        }
        match self.register_constant("kCGEventFlagsChanged", 12) {
            Ok(_) => (),
            Err(e) => {
                return Err(e);
            },
        }
        match self.register_constant("kCGKeyboardEventKeycode", 9) {
            Ok(_) => (),
            Err(e) => {
                return Err(e);
            },
        }
        self.register_constant("kCGEventFlagMaskNonCoalesced", 0x100)
    }

    /// Registers one read-only numeric global.
    fn register_constant(&mut self, name: &str, value: u32) -> (r: Result<(), HostError>)
        ensures
            JS::same_but_context(old(self), final(self)),
    {
        match register_global_u32(&mut self.context, name, value) {
            Ok(_) => Ok(()),
            Err(e) => Err(HostError::RuntimeEvalError(e)),
        }
    }

    /// Registers the three bridge primitives the embedder implements —
    /// synthesizing a key event, synthesizing a flags change, and reading
    /// the external configuration document — under their protocol names.
    pub fn register_builtin_functions(
        &mut self,
        send_flags_changed_event: boa_engine::NativeFunction,
        send_keyboard_event: boa_engine::NativeFunction,
        load_app_config_json: boa_engine::NativeFunction,
    ) -> (r: Result<(), HostError>)
        ensures
            JS::same_but_context(old(self), final(self)),
    {
        match register_global_callable(
            &mut self.context,
            "sendFlagsChangedEvent",
            1,
            send_flags_changed_event,
        ) {
            Ok(_) => (),
            Err(e) => {
                return Err(HostError::RuntimeEvalError(e));
            },
        }
        match register_global_callable(
            &mut self.context,
            "sendKeyboardEvent",
            1,
            send_keyboard_event,
        ) {
            Ok(_) => (),
            Err(e) => {
                return Err(HostError::RuntimeEvalError(e));
            },
        }
        match register_global_callable(&mut self.context, "loadAppConfigJson", 1, load_app_config_json) {
            Ok(_) => Ok(()),
            Err(e) => Err(HostError::RuntimeEvalError(e)),
        }
    }

    /// Evaluates the fixed dispatch protocol.
    fn load_driver(&mut self) -> (r: Result<(), HostError>)
        ensures
            JS::same_but_context(old(self), final(self)),
    {
        match eval_js(&mut self.context, DRIVER_JS) {
            Ok(_) => Ok(()),
            Err(e) => Err(HostError::RuntimeEvalError(e)),
        }
    }

    /// Evaluates the built-in default plugin.
    fn load_bundled(&mut self) -> (r: Result<(), HostError>)
        ensures
            JS::same_but_context(old(self), final(self)),
    {
        match eval_js(&mut self.context, BUNDLED_JS) {
            Ok(_) => Ok(()),
            Err(e) => Err(HostError::RuntimeEvalError(e)),
        }
    }

    /// Evaluates caller-supplied text in the runtime. A failure here is the
    /// caller's own mistake and is surfaced, never defaulted.
    pub fn eval(&mut self, src: String) -> (r: Result<boa_engine::JsValue, HostError>)
        ensures
            JS::same_but_context(old(self), final(self)),
    {
        match eval_js(&mut self.context, src.as_str()) {
            Ok(v) => Ok(v),
            Err(e) => Err(HostError::RuntimeEvalError(e)),
        }
    }

    /// Evaluates caller-supplied text and converts the completion value to
    /// an unsigned number by the ECMAScript rules.
    pub fn eval_to_u32(&mut self, src: String) -> (r: Result<u32, HostError>)
        ensures
            JS::same_but_context(old(self), final(self)),
    {
        let value = match eval_js(&mut self.context, src.as_str()) {
            Ok(v) => v,
            Err(e) => {
                return Err(HostError::RuntimeEvalError(e));
            },
        };
        match crate::jsrt::value_to_u32(&mut self.context, &value) {
            Ok(n) => Ok(n),
            Err(e) => Err(HostError::RuntimeEvalError(e)),
        }
    }

    /// A non-blocking drain of the config-reload channel: true exactly when
    /// at least one pulse was pending; several pending pulses collapse into
    /// one reload. Without a channel there is never a reload.
    pub fn needs_config_reload(&mut self) -> (r: bool)
        ensures
            *final(self) == *old(self),
            old(self).config_reload_rx is None ==> r == false,
    {
        match &self.config_reload_rx {
            Some(rx) => drain_reload_pulses(rx),
            None => false,
        }
    }

    /// Loads every plugin of the store into the runtime, in store order. A
    /// plugin that fails to evaluate is skipped; it never aborts the others.
    pub fn load_user_scripts(&mut self) -> (r: Result<(), HostError>)
        ensures
            r is Ok,
            final(self).monitoring_queue == old(self).monitoring_queue,
            final(self).plugins == old(self).plugins,
            final(self).config_reload_rx == old(self).config_reload_rx,
            final(self).plugin_reload_rx == old(self).plugin_reload_rx,
    {
        let snippets = match &self.plugins {
            Some(p) => p.load_user_scripts(),
            None => Vec::new(),
        };
        let mut i: usize = 0;
        while i < snippets.len()
            invariant
                JS::same_but_context(old(self), self),
            decreases snippets@.len() - i,
        {
            match eval_js(&mut self.context, snippets[i].src.as_str()) {
                Ok(_) => (),
                Err(_) => (),
            }
            i += 1;
        }
        Ok(())
    }

    /// Feeds one captured hardware event through the host, as the ready
    /// state prescribes: drain the pending plugin-reload pulses — they
    /// collapse into one intent — and reload the
    /// user plugins on it; poll the config-reload pulse; record the event in
    /// the monitoring queue, evicting past the bound; and invoke the
    /// dispatch entry point with the event's projection. True means the
    /// event is forwarded to the application, false that it is swallowed;
    /// whatever goes wrong in dispatch, the verdict is true — fail open.
    pub fn send_event(&mut self, event: Event) -> (verdict: bool)
        requires
            old(self).wf(),
        ensures
            final(self).wf(),
            final(self).plugins == old(self).plugins,
            final(self).config_reload_rx == old(self).config_reload_rx,
            final(self).plugin_reload_rx == old(self).plugin_reload_rx,
            final(self).queue_model() == (match old(self).queue_model() {
                Some(q) => Some(spec_monitor_push(q, event)),
                None => None::<Seq<Event>>,
            }),
    {
        let plugin_reload = match &self.plugin_reload_rx {
            Some(rx) => drain_reload_pulses(rx),
            None => false,
        };
        if plugin_reload {
            match self.load_user_scripts() {
                Ok(_) => (),
                Err(_) => (),
            }
        }
        let needs_config_reload = self.needs_config_reload();
        match &mut self.monitoring_queue {
            Some(queue) => {
                queue.push(event);
            },
            None => (),
        }
        let entry = match get_global(&mut self.context, "$$dispatchEvent") {
            Ok(v) => v,
            Err(_) => {
                return true;
            },
        };
        let entry = match to_function(&mut self.context, &entry) {
            Ok(f) => f,
            Err(_) => {
                return true;
            },
        };
        let result = match call_dispatch(
            &mut self.context,
            &entry,
            event_type_name(&event),
            event_keycode(&event),
            event_flags(&event),
            needs_config_reload,
        ) {
            Ok(v) => v,
            Err(_) => {
                return true;
            },
        };
        verdict_of(value_as_boolean(&result))
    }

    /// Asks the schema entry point for the descriptors of every registered
    /// plugin and parses its JSON-serialized answer. A broken entry point or
    /// a malformed document is a hard error to the caller, never defaulted;
    /// a returned list is exactly what the answer's text denoted.
    pub fn get_config_schema(&mut self) -> (r: Result<ConfigSchemaList, HostError>)
        ensures
            JS::same_but_context(old(self), final(self)),
            (match r {
                Ok(list) => exists|text: Seq<char>|
                    #[trigger] spec_schema_of_text(text) == Some(list.model()),
                Err(_) => true,
            }),
    {
        let entry = match get_global(&mut self.context, "$$getConfigSchema") {
            Ok(v) => v,
            Err(e) => {
                return Err(HostError::RuntimeEvalError(e));
            },
        };
        let entry = match to_function(&mut self.context, &entry) {
            Ok(f) => f,
            Err(e) => {
                return Err(HostError::RuntimeEvalError(e));
            },
        };
        let result = match call_no_args(&mut self.context, &entry) {
            Ok(v) => v,
            Err(e) => {
                return Err(HostError::RuntimeEvalError(e));
            },
        };
        let text = match value_to_text(&mut self.context, &result) {
            Ok(s) => s,
            Err(e) => {
                return Err(HostError::RuntimeEvalError(e));
            },
        };
        match parse_schema_list(text.as_str()) {
            Ok(list) => {
                proof {
                    assert(spec_schema_of_text(text@) == Some(list.model()));
                }
                Ok(list)
            },
            Err(e) => Err(e),
        }
    }

    /// A copy of the monitoring queue's contents, oldest first; empty when
    /// no queue is kept.
    pub fn monitoring_snapshot(&self) -> (r: Vec<Event>)
        ensures
            (match self.queue_model() {
                Some(q) => r@ == q,
                None => r@.len() == 0,
            }),
    {
        match &self.monitoring_queue {
            Some(q) => q.snapshot(),
            None => Vec::new(),
        }
    }
}

/// What a dispatch result means to the host: the boolean itself when the
/// entry point gave one, and true — forward the event — for anything else.
pub fn verdict_of(result: Option<bool>) -> (r: bool)
    ensures
        r == (result != Some(false)),
{
    match result {
        Some(b) => b,
        None => true,
    }
}

/// How many pulses one drain consumes at most: plenty for any real backlog,
/// and finite even under a concurrent flood of pulses — whatever is left
/// collapses into the next event's drain.
pub const PULSE_DRAIN_BOUND: usize = 64;

/// Drains a reload channel without blocking: every pulse pending now is
/// consumed, and however many there were, they collapse into one intent.
/// Each poll's outcome goes through `pulse_pending`, which fixes the
/// decision.
fn drain_reload_pulses(rx: &std::sync::mpsc::Receiver<bool>) -> bool {
    let mut pending: bool = false;
    let mut i: usize = 0;
    while i < PULSE_DRAIN_BOUND
        decreases PULSE_DRAIN_BOUND - i,
    {
        let sig = crate::signals::poll_pulse(rx);
        if crate::signals::pulse_pending(sig) {
            pending = true;
        } else {
            return pending;
        }
        i += 1;
    }
    pending
}

/// Reads one required string member of a schema entry: the member exists
/// and is a string, or the document is malformed.
fn require_str_field(v: &serde_json::Value, key: &str) -> (r: Result<String, HostError>)
    ensures
        (match r {
            Ok(s) => spec_req_text(spec_doc(*v), key@) == Some(s@),
            Err(e) => e is SchemaParseError && spec_req_text(spec_doc(*v), key@) is None,
        }),
{
    match json_get(v, key) {
        Some(field) => {
            match json_as_str(field) {
                Some(s) => Ok(s.to_owned()),
                None => Err(
                    HostError::SchemaParseError(
                        "a descriptor field that must be a string is none".to_owned(),
                    ),
                ),
            }
        },
        None => Err(
            HostError::SchemaParseError("a descriptor misses a required field".to_owned()),
        ),
    }
}

/// Reads one optional string member of a configuration parameter; absent or
/// non-string members read as empty.
fn optional_str_field(v: &serde_json::Value, key: &str) -> (r: String)
    ensures
        r@ == spec_opt_text(spec_doc(*v), key@),
{
    match json_get(v, key) {
        Some(field) => {
            match json_as_str(field) {
                Some(s) => s.to_owned(),
                None => String::new(),
            }
        },
        None => String::new(),
    }
}

/// Parses one configuration parameter of a descriptor.
fn parse_config_field(v: &serde_json::Value) -> (r: Result<ConfigField, HostError>)
    ensures
        (match r {
            Ok(f) => spec_field_doc(spec_doc(*v)) == Some(f.model()),
            Err(e) => e is SchemaParseError && spec_field_doc(spec_doc(*v)) is None,
        }),
{
    if !json_is_object(v) {
        return Err(
            HostError::SchemaParseError(
                "a configuration parameter is not an object".to_owned(),
            ),
        );
    }
    Ok(
        ConfigField {
            name: optional_str_field(v, "name"),
            field_type: optional_str_field(v, "type"),
            default: optional_str_field(v, "default"),
            description: optional_str_field(v, "description"),
        },
    )
}

/// Parses the configuration parameters from the `i`th entry on, appending
/// each to `out`.
fn parse_config_fields(
    entries: &Vec<serde_json::Value>,
    i: usize,
    Ghost(docs): Ghost<Seq<JsonDoc>>,
    out: &mut Vec<ConfigField>,
) -> (r: Result<(), HostError>)
    requires
        i <= entries@.len(),
        docs.len() == entries@.len(),
        forall|j: int| 0 <= j < entries@.len() ==> spec_doc(entries@[j]) == docs[j],
    ensures
        (match r {
            Ok(_) => spec_fields_docs(docs.skip(i as int)) is Some && final(out)@.map_values(
                |f: ConfigField| f.model(),
            ) == old(out)@.map_values(|f: ConfigField| f.model()) + spec_fields_docs(
                docs.skip(i as int),
            ).unwrap(),
            Err(e) => e is SchemaParseError && spec_fields_docs(docs.skip(i as int)) is None,
        }),
    decreases entries@.len() - i,
{
    let ghost rest = docs.skip(i as int);
    if i == entries.len() {
        proof {
            assert(rest =~= Seq::<JsonDoc>::empty());
            assert(final(out)@.map_values(|f: ConfigField| f.model()) =~= old(out)@.map_values(
                |f: ConfigField| f.model(),
            ) + spec_fields_docs(rest).unwrap());
        }
        return Ok(());
    }
    proof {
        assert(rest[0] == docs[i as int]);
        assert(rest.drop_first() =~= docs.skip(i + 1));
    }
    let field = match parse_config_field(&entries[i]) {
        Ok(f) => f,
        Err(e) => {
            return Err(e);
        },
    };
    let ghost fm = field.model();
    let ghost out_pre = out@;
    out.push(field);
    proof {
        assert(out@.map_values(|f: ConfigField| f.model()) =~= out_pre.map_values(
            |f: ConfigField| f.model(),
        ).push(fm));
    }
    let r = parse_config_fields(entries, i + 1, Ghost(docs), out);
    proof {
        if r is Ok {
            assert(final(out)@.map_values(|f: ConfigField| f.model()) =~= old(out)@.map_values(
                |f: ConfigField| f.model(),
            ) + spec_fields_docs(rest).unwrap());
        }
    }
    r
}

/// Parses one plugin descriptor.
fn parse_schema_entry(v: &serde_json::Value) -> (r: Result<ConfigSchema, HostError>)
    ensures
        (match r {
            Ok(schema) => spec_schema_doc(spec_doc(*v)) == Some(schema.model()),
            Err(e) => e is SchemaParseError && spec_schema_doc(spec_doc(*v)) is None,
        }),
{
    let id = match require_str_field(v, "id") {
        Ok(s) => s,
        Err(e) => {
            return Err(e);
        },
    };
    let name = match require_str_field(v, "name") {
        Ok(s) => s,
        Err(e) => {
            return Err(e);
        },
    };
    let description = match require_str_field(v, "description") {
        Ok(s) => s,
        Err(e) => {
            return Err(e);
        },
    };
    let config_v = match json_get(v, "config") {
        Some(m) => m,
        None => {
            return Err(
                HostError::SchemaParseError("a descriptor misses its config".to_owned()),
            );
        },
    };
    let entries = match json_as_array(config_v) {
        Some(a) => a,
        None => {
            return Err(
                HostError::SchemaParseError(
                    "a descriptor's config is not an array".to_owned(),
                ),
            );
        },
    };
    let ghost docs = spec_doc(*config_v)->Array_0;
    let mut config: Vec<ConfigField> = Vec::new();
    let r = parse_config_fields(entries, 0, Ghost(docs), &mut config);
    proof {
        assert(docs.skip(0) =~= docs);
        assert(Seq::<ConfigField>::empty().map_values(|f: ConfigField| f.model()) =~= Seq::<
            FieldModel,
        >::empty());
    }
    match r {
        Ok(_) => {
            let schema = ConfigSchema { id, name, description, config };
            proof {
                assert(schema.config@.map_values(|f: ConfigField| f.model()) =~= spec_fields_docs(
                    docs,
                ).unwrap());
            }
            Ok(schema)
        },
        Err(e) => Err(e),
    }
}

/// Parses the descriptors from the `i`th entry on, appending each to `out`.
fn parse_schema_entries(
    entries: &Vec<serde_json::Value>,
    i: usize,
    Ghost(docs): Ghost<Seq<JsonDoc>>,
    out: &mut Vec<ConfigSchema>,
) -> (r: Result<(), HostError>)
    requires
        i <= entries@.len(),
        docs.len() == entries@.len(),
        forall|j: int| 0 <= j < entries@.len() ==> spec_doc(entries@[j]) == docs[j],
    ensures
        (match r {
            Ok(_) => spec_schemas_docs(docs.skip(i as int)) is Some && final(out)@.map_values(
                |s: ConfigSchema| s.model(),
            ) == old(out)@.map_values(|s: ConfigSchema| s.model()) + spec_schemas_docs(
                docs.skip(i as int),
            ).unwrap(),
            Err(e) => e is SchemaParseError && spec_schemas_docs(docs.skip(i as int)) is None,
        }),
    decreases entries@.len() - i,
{
    let ghost rest = docs.skip(i as int);
    if i == entries.len() {
        proof {
            assert(rest =~= Seq::<JsonDoc>::empty());
            assert(final(out)@.map_values(|s: ConfigSchema| s.model()) =~= old(out)@.map_values(
                |s: ConfigSchema| s.model(),
            ) + spec_schemas_docs(rest).unwrap());
        }
        return Ok(());
    }
    proof {
        assert(rest[0] == docs[i as int]);
        assert(rest.drop_first() =~= docs.skip(i + 1));
    }
    let schema = match parse_schema_entry(&entries[i]) {
        Ok(m) => m,
        Err(e) => {
            return Err(e);
        },
    };
    let ghost sm = schema.model();
    let ghost out_pre = out@;
    out.push(schema);
    proof {
        assert(out@.map_values(|s: ConfigSchema| s.model()) =~= out_pre.map_values(
            |s: ConfigSchema| s.model(),
        ).push(sm));
    }
    let r = parse_schema_entries(entries, i + 1, Ghost(docs), out);
    proof {
        if r is Ok {
            assert(final(out)@.map_values(|s: ConfigSchema| s.model()) =~= old(out)@.map_values(
                |s: ConfigSchema| s.model(),
            ) + spec_schemas_docs(rest).unwrap());
        }
    }
    r
}

/// Parses the schema entry point's JSON answer: an object holding the
/// `plugins` array of descriptors. Succeeds exactly when the text denotes a
/// descriptor list, which the result then equals; everything else is a
/// malformed document and a `SchemaParseError`.
pub fn parse_schema_list(text: &str) -> (r: Result<ConfigSchemaList, HostError>)
    ensures
        (match r {
            Ok(list) => spec_schema_of_text(text@) == Some(list.model()),
            Err(e) => e is SchemaParseError && spec_schema_of_text(text@) is None,
        }),
{
    let root = match parse_json(text) {
        Ok(v) => v,
        Err(e) => {
            return Err(HostError::SchemaParseError(e));
        },
    };
    let plugins_v = match json_get(&root, "plugins") {
        Some(v) => v,
        None => {
            return Err(
                HostError::SchemaParseError("the document has no plugins member".to_owned()),
            );
        },
    };
    let entries = match json_as_array(plugins_v) {
        Some(a) => a,
        None => {
            return Err(
                HostError::SchemaParseError("the plugins member is not an array".to_owned()),
            );
        },
    };
    let ghost docs = spec_doc(*plugins_v)->Array_0;
    let mut plugins: Vec<ConfigSchema> = Vec::new();
    let r = parse_schema_entries(entries, 0, Ghost(docs), &mut plugins);
    proof {
        assert(docs.skip(0) =~= docs);
        assert(Seq::<ConfigSchema>::empty().map_values(|s: ConfigSchema| s.model()) =~= Seq::<
            SchemaModel,
        >::empty());
    }
    match r {
        Ok(_) => {
            let list = ConfigSchemaList { plugins };
            proof {
                assert(list.plugins@.map_values(|s: ConfigSchema| s.model()) =~= spec_schemas_docs(
                    docs,
                ).unwrap());
            }
            Ok(list)
        },
        Err(e) => Err(e),
    }
}

/// The script-side hotkey type: a chord parsed from its text, matching a
/// live mask and key code exactly as the native matcher does.
pub const HOTKEY_JS: &'static str = r#"
var HotKey = class {
    constructor(chord) {
        this.mask = 0;
        this.keycode = -1;
        const mods = { "C": 0x40000, "S": 0x20000, "M": 0x80000, "D": 0x100000 };
        let rest = String(chord);
        while (rest.length >= 2 && rest[1] === "-" && mods[rest[0]] !== undefined) {
            this.mask = this.mask | mods[rest[0]];
            rest = rest.slice(2);
        }
        const code = Key[rest];
        if (code === undefined) {
            throw new Error("invalid chord: " + chord);
        }
        this.keycode = code;
    }
    matches(flags, keycode) {
        return (flags & 0x1e0000) === this.mask && keycode === this.keycode;
    }
};
"#;

/// The script-side key table, the same mapping the native key table holds.
pub const KEY_TABLE_JS: &'static str = r#"
var Key = {
    a: 0, s: 1, d: 2, f: 3, h: 4, g: 5, z: 6, x: 7, c: 8, v: 9, b: 11,
    q: 12, w: 13, e: 14, r: 15, y: 16, t: 17,
    "1": 18, "2": 19, "3": 20, "4": 21, "6": 22, "5": 23, "9": 25, "7": 26,
    "8": 28, "0": 29,
    o: 31, u: 32, i: 34, p: 35, l: 37, j: 38, k: 40, n: 45, m: 46,
    "return": 36, tab: 48, space: 49, "delete": 51, escape: 53
};
"#;

/// The fixed dispatch protocol: plugin registration, the dispatch entry
/// point taking the script event and the reload mark — every callback runs
/// in registration order and the verdicts combine by conjunction — a
/// marshalling shim that builds the script event from plain values, and the
/// schema query.
pub const DRIVER_JS: &'static str = r#"
var $$plugins = [];
function registerPlugin(id, name, description, callback, configSchema) {
    for (let i = 0; i < $$plugins.length; i++) {
        if ($$plugins[i].id === id) {
            $$plugins.splice(i, 1);
            break;
        }
    }
    $$plugins.push({
        id: id,
        name: name,
        description: description,
        callback: callback,
        configSchema: configSchema
    });
}
function $$configFor(plugin) {
    const config = {};
    for (const field of plugin.configSchema) {
        if (field.type === "hotkey") {
            config[field.name] = new HotKey(field.default);
        } else {
            config[field.name] = field.default;
        }
    }
    return config;
}
function $$invokeEvent(event, needsConfigReload) {
    let verdict = true;
    for (const plugin of $$plugins) {
        try {
            const result = plugin.callback(event, $$configFor(plugin));
            if (result === false) {
                verdict = false;
            }
        } catch (e) {
            console.error("plugin " + plugin.id + " failed: " + e);
        }
    }
    return verdict;
}
function $$dispatchEvent(type, keycode, flags, needsConfigReload) {
    const event = { type: type, keycode: keycode };
    if (flags !== undefined && flags !== null) {
        event.flags = flags;
    }
    return $$invokeEvent(event, needsConfigReload);
}
function $$getConfigSchema() {
    const list = $$plugins.map(function (p) {
        return {
            id: p.id,
            name: p.name,
            description: p.description,
            config: p.configSchema
        };
    });
    return JSON.stringify({ plugins: list });
}
"#;

/// The built-in default plugin: the dynamic-macro trigger, watching the
/// modifier flags and replaying the recorded keys when its configured
/// hotkey matches a key press.
pub const BUNDLED_JS: &'static str = r#"
(function () {
    const id = "builtin.dynamicmacro";
    let latest_flags = undefined;
    registerPlugin(
        id,
        "Dynamic Macro",
        "Replays the recently recorded keys when the hotkey is pressed.",
        function (event, config) {
            if (event.type === "flagsChanged") {
                latest_flags = event.flags;
            } else if (event.type === "keyDown") {
                if (config.hotkey.matches(latest_flags, event.keycode)) {
                    return !run_dynamic_macro();
                }
            }
            return true;
        },
        [
            {
                "name": "hotkey",
                "type": "hotkey",
                "default": "C-t",
                "description": "Key sequence that replays the recorded keys."
            },
            {
                "name": "size",
                "type": "integer",
                "default": "64",
                "description": "How many keys the macro buffer holds."
            }
        ]
    );
})();
"#;

} // verus!
