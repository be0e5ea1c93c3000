use codekeys::host::{verdict_of, JS};
use codekeys::keys::{Event, MASK_CONTROL};
use codekeys::monitor::MonitoringQueue;
use codekeys::host::parse_schema_list;
use codekeys::plugin::Plugins;

#[test]
fn test_get_config_schema() {
    let mut js = JS::new(None, None, None, None).unwrap();
    let schema = js.get_config_schema().unwrap();
    assert_eq!(schema.plugins.first().unwrap().id, "builtin.dynamicmacro");
    assert_eq!(schema.plugins.first().unwrap().name, "Dynamic Macro");
}

#[test]
fn test_eval() {
    let mut js = JS::new(None, None, None, None).unwrap();
    let got = js.eval_to_u32("3+4".to_string()).unwrap();
    assert_eq!(got, 7);
}

#[test]
fn builtin_schema_round_trip() {
    // A host holding only the built-in default plugin reports exactly one
    // descriptor, under the built-in id, with a non-empty config schema.
    let mut js = JS::new(None, None, None, None).unwrap();
    let schema = js.get_config_schema().unwrap();
    assert_eq!(schema.plugins.len(), 1);
    let descriptor = &schema.plugins[0];
    assert_eq!(descriptor.id, "builtin.dynamicmacro");
    assert!(!descriptor.config.is_empty());
    assert_eq!(descriptor.config[0].name, "hotkey");
    assert_eq!(descriptor.config[0].field_type, "hotkey");
    assert_eq!(descriptor.config[0].default, "C-t");
}

#[test]
fn flags_changed_dispatch_returns_a_boolean_verdict() {
    // No plugin reacts to a bare flags change; the dispatch still yields a
    // verdict, and with every registered plugin returning true it is true.
    let mut js = JS::new(None, None, None, None).unwrap();
    assert!(js.send_event(Event::FlagsChanged(59, MASK_CONTROL)));
    assert!(js.send_event(Event::KeyPress(3)));
    assert!(js.send_event(Event::KeyRelease(3)));
}

#[test]
fn a_vetoing_plugin_swallows_the_event() {
    let mut js = JS::new(None, None, None, None).unwrap();
    js.eval(
        "registerPlugin('veto.five', 'Veto Five', 'Blocks key code five', \
         function (event, config) { \
             if (event.type === 'keyDown' && event.keycode === 5) { return false; } \
             return true; \
         }, []);"
            .to_string(),
    )
    .unwrap();
    assert!(!js.send_event(Event::KeyPress(5)));
    assert!(js.send_event(Event::KeyPress(6)));
}

#[test]
fn reregistration_replaces_the_prior_plugin() {
    let mut js = JS::new(None, None, None, None).unwrap();
    js.eval(
        "registerPlugin('p', 'P', 'blocks all', function (e, c) { return false; }, []);"
            .to_string(),
    )
    .unwrap();
    assert!(!js.send_event(Event::KeyPress(1)));
    js.eval(
        "registerPlugin('p', 'P', 'allows all', function (e, c) { return true; }, []);"
            .to_string(),
    )
    .unwrap();
    assert!(js.send_event(Event::KeyPress(1)));
    let schema = js.get_config_schema().unwrap();
    assert_eq!(
        schema
            .plugins
            .iter()
            .filter(|p| p.id == "p")
            .count(),
        1
    );
}

#[test]
fn dispatch_fails_open_on_a_broken_verdict() {
    let mut js = JS::new(None, None, None, None).unwrap();
    // A plugin that throws never blocks the event.
    js.eval(
        "registerPlugin('bad', 'Bad', 'throws', function (e, c) { throw new Error('x'); }, []);"
            .to_string(),
    )
    .unwrap();
    assert!(js.send_event(Event::KeyPress(2)));
}

#[test]
fn host_honors_the_entry_points_aggregate_verdict() {
    let mut js = JS::new(None, None, None, None).unwrap();
    js.eval("$$invokeEvent = function (event, needsConfigReload) { return false; };".to_string())
        .unwrap();
    assert!(!js.send_event(Event::KeyPress(1)));
    js.eval("$$invokeEvent = function (event, needsConfigReload) { return 'not a boolean'; };".to_string())
        .unwrap();
    // A non-boolean aggregate fails open.
    assert!(js.send_event(Event::KeyPress(1)));
}

#[test]
fn verdict_interpretation_is_fail_open() {
    assert!(verdict_of(None));
    assert!(verdict_of(Some(true)));
    assert!(!verdict_of(Some(false)));
}

#[test]
fn send_event_records_into_the_monitoring_queue() {
    let mut js = JS::new(None, None, Some(MonitoringQueue::new()), None).unwrap();
    js.send_event(Event::KeyPress(1));
    js.send_event(Event::FlagsChanged(59, MASK_CONTROL));
    let events = js.monitoring_snapshot();
    assert_eq!(
        events,
        vec![Event::KeyPress(1), Event::FlagsChanged(59, MASK_CONTROL)]
    );
}

#[test]
fn user_plugins_load_from_the_store() {
    let mut store = Plugins::new_with_basedir("plugins".to_string());
    store.write(
        "veto_nine".to_string(),
        "registerPlugin('veto_nine', 'V', 'blocks nine', \
         function (e, c) { return e.keycode !== 9; }, []);"
            .to_string(),
    );
    let mut js = JS::new(None, None, None, Some(store)).unwrap();
    js.load_user_scripts().unwrap();
    assert!(!js.send_event(Event::KeyPress(9)));
    assert!(js.send_event(Event::KeyPress(10)));
}

#[test]
fn script_hotkey_matches_like_the_native_matcher() {
    let mut js = JS::new(None, None, None, None).unwrap();
    let hit = js
        .eval_to_u32("new HotKey('C-t').matches(0x40000, 17) ? 1 : 0".to_string())
        .unwrap();
    assert_eq!(hit, 1);
    let extra = js
        .eval_to_u32("new HotKey('C-t').matches(0x60000, 17) ? 1 : 0".to_string())
        .unwrap();
    assert_eq!(extra, 0);
    let key = js.eval_to_u32("Key.x".to_string()).unwrap();
    assert_eq!(key, 7);
}

#[test]
fn script_key_table_matches_native_table() {
    let names = [
        "a", "s", "d", "f", "h", "g", "z", "x", "c", "v", "b", "q", "w", "e", "r", "y", "t",
        "1", "2", "3", "4", "6", "5", "9", "7", "8", "0", "o", "u", "i", "p", "l", "j", "k",
        "n", "m", "return", "tab", "space", "delete", "escape",
    ];
    let mut js = JS::new(None, None, None, None).unwrap();
    for name in names {
        let native = codekeys::keycode::key_code(name).unwrap();
        let scripted = js
            .eval_to_u32(format!("Key[\"{name}\"]"))
            .unwrap();
        assert_eq!(u32::from(native), scripted, "key {name}");
    }
}

#[test]
fn script_chord_parsing_rejects_like_the_native_parser() {
    let mut js = JS::new(None, None, None, None).unwrap();
    let rejected = js
        .eval_to_u32("(function () { try { new HotKey('Q-t'); return 0; } catch (e) { return 1; } })()".to_string())
        .unwrap();
    assert_eq!(rejected, 1);
    assert!(codekeys::hotkey::parse_chord("Q-t").is_err());
}

#[test]
fn schema_parse_failure_is_a_hard_error() {
    let mut js = JS::new(None, None, None, None).unwrap();
    js.eval("$$getConfigSchema = function () { return 'not json'; };".to_string())
        .unwrap();
    let err = js.get_config_schema().unwrap_err();
    assert!(matches!(err, codekeys::host::HostError::SchemaParseError(_)));
}

#[test]
fn pending_reload_pulses_collapse_into_one() {
    let (tx, rx) = std::sync::mpsc::channel::<bool>();
    let mut js = JS::new(Some(rx), None, None, None).unwrap();
    tx.send(true).unwrap();
    tx.send(true).unwrap();
    tx.send(true).unwrap();
    // One drain consumes every pending pulse: one reload intent.
    assert!(js.needs_config_reload());
    assert!(!js.needs_config_reload());
    drop(tx);
    // A disconnected sender means no further reloads, never an error.
    assert!(!js.needs_config_reload());
}

#[test]
fn schema_documents_parse_exactly() {
    let list = parse_schema_list("{\"plugins\":[]}").unwrap();
    assert!(list.plugins.is_empty());
    let doc = "{\"plugins\":[{\"id\":\"p\",\"name\":\"N\",\"description\":\"D\",\"config\":[{\"name\":\"hotkey\",\"type\":\"hotkey\",\"default\":\"C-t\",\"description\":\"chord\"}]}]}";
    let list = parse_schema_list(doc).unwrap();
    assert_eq!(list.plugins.len(), 1);
    assert_eq!(list.plugins[0].id, "p");
    assert_eq!(list.plugins[0].config[0].default, "C-t");
    // Malformed documents are hard errors: no JSON, no plugins member, a
    // non-array plugins member, a descriptor without an id, a non-object
    // parameter.
    assert!(parse_schema_list("not json").is_err());
    assert!(parse_schema_list("{}").is_err());
    assert!(parse_schema_list("{\"plugins\":3}").is_err());
    assert!(parse_schema_list("{\"plugins\":[{\"name\":\"N\"}]}").is_err());
    assert!(
        parse_schema_list(
            "{\"plugins\":[{\"id\":\"p\",\"name\":\"N\",\"description\":\"D\",\"config\":[7]}]}"
        )
        .is_err()
    );
}

#[test]
fn a_broken_script_is_the_callers_error() {
    let mut js = JS::new(None, None, None, None).unwrap();
    let err = js.eval("this is not a program".to_string()).unwrap_err();
    assert!(matches!(err, codekeys::host::HostError::RuntimeEvalError(_)));
}
