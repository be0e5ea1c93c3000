use codekeys::plugin::{PluginError, PluginFile, Plugins};
use codekeys::strutil::json_quote;

#[test]
fn test_add_plugin_success() {
    let plugins = &mut Plugins::new_with_basedir("add_plugin".to_string());

    // Call the add function.
    plugins.add(
        "test_plugin".to_string(),
        "TestPlugin".to_string(),
        "A test plugin".to_string(),
    );

    // The plugin file exists in the store's directory image.
    let dir = plugins.dir.as_ref().expect("the directory is created by add");
    assert!(dir.iter().any(|f| f.name == "test_plugin.js"));
    assert!(plugins.load("test_plugin".to_string()).is_ok());
}

#[test]
fn test_list_plugins() {
    let mut plugins = Plugins::new_with_basedir("list_plugins".to_string());

    plugins.add(
        "plugin_one".to_string(),
        "PluginOne".to_string(),
        "Description one".to_string(),
    );
    plugins.add(
        "plugin_two".to_string(),
        "PluginTwo".to_string(),
        "Description two".to_string(),
    );

    let plugin_ids = plugins.list();
    assert_eq!(plugin_ids, vec!["plugin_one", "plugin_two"]);

    // Both plugin files exist.
    let dir = plugins.dir.as_ref().unwrap();
    assert!(dir.iter().any(|f| f.name == "plugin_one.js"));
    assert!(dir.iter().any(|f| f.name == "plugin_two.js"));
}

#[test]
fn missing_directory_lists_empty() {
    let plugins = Plugins::new_with_basedir("nowhere".to_string());
    assert_eq!(plugins.list(), Vec::<String>::new());
    assert_eq!(
        plugins.load("p1".to_string()).unwrap_err(),
        PluginError::PluginNotFound
    );
}

#[test]
fn added_plugin_round_trips_with_quoted_id() {
    let mut plugins = Plugins::new_with_basedir("nowhere".to_string());
    plugins.add("p1".to_string(), "N".to_string(), "D".to_string());
    let ids = plugins.list();
    assert!(ids.iter().any(|id| id == "p1"));
    let snippet = plugins.load("p1".to_string()).unwrap();
    assert_eq!(snippet.plugin_id, "p1");
    assert!(snippet.src.contains("\"p1\""));
    assert!(snippet.src.contains("registerPlugin"));
    assert!(snippet.src.contains("\"N\""));
    assert!(snippet.src.contains("\"D\""));
}

#[test]
fn write_overwrites_same_id() {
    let mut plugins = Plugins::new_with_basedir("base".to_string());
    plugins.write("p".to_string(), "first".to_string());
    plugins.write("p".to_string(), "second".to_string());
    assert_eq!(plugins.list(), vec!["p"]);
    assert_eq!(plugins.load("p".to_string()).unwrap().src, "second");
}

#[test]
fn load_all_follows_the_listing() {
    let mut plugins = Plugins::new_with_basedir("base".to_string());
    plugins.write("one".to_string(), "alpha".to_string());
    plugins.write("two".to_string(), "beta".to_string());
    let snippets = plugins.load_user_scripts();
    let ids: Vec<&str> = snippets.iter().map(|s| s.plugin_id.as_str()).collect();
    assert_eq!(ids, vec!["one", "two"]);
    assert_eq!(snippets[0].src, "alpha");
    assert_eq!(snippets[1].src, "beta");
}

#[test]
fn non_script_files_are_not_listed() {
    let files = vec![
        PluginFile {
            name: "readme.txt".to_string(),
            content: "notes".to_string(),
        },
        PluginFile {
            name: "good.js".to_string(),
            content: "x".to_string(),
        },
        PluginFile {
            name: "js".to_string(),
            content: "y".to_string(),
        },
        PluginFile {
            name: ".js".to_string(),
            content: "z".to_string(),
        },
    ];
    let plugins = Plugins::from_entries("base".to_string(), Some(files));
    assert_eq!(plugins.list(), vec!["good"]);
}

#[test]
fn json_quoting_escapes_specials() {
    assert_eq!(json_quote("plain"), "\"plain\"");
    assert_eq!(json_quote("a\"b\\c"), "\"a\\\"b\\\\c\"");
    assert_eq!(json_quote("line\nbreak\tand\r"), "\"line\\nbreak\\tand\\r\"");
    assert_eq!(json_quote("\u{1}"), "\"\\u0001\"");
    assert_eq!(json_quote("\u{1f}"), "\"\\u001f\"");
    assert_eq!(json_quote(""), "\"\"");
}
