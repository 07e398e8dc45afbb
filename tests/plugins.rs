use keyscripten::config::{set_log_level_by_config, AppConfig, ConfigSchema, ConfigSchemaList, LogLevel, PluginConfig};
use keyscripten::plugin::{DirEntry, PluginIndex, Plugins, ReadOutcome};

fn entry(name: &str, is_file: bool) -> DirEntry {
    DirEntry { name: name.to_string(), is_file }
}

#[test]
fn plugin_test_add_plugin_success() {
    let plugins = Plugins::new_with_basedir("/tmp/add_plugin".to_string());
    let snippet = plugins.add(
        "test_plugin".to_string(),
        "TestPlugin".to_string(),
        "A test plugin".to_string(),
    );
    assert_eq!(snippet.filename, "test_plugin.js");
    assert!(snippet.src.contains("\"test_plugin\""));
    assert!(snippet.src.contains("\"TestPlugin\""));
    assert!(snippet.src.contains("`A test plugin`"));
    assert!(snippet.src.contains("registerPlugin("));
    assert_eq!(plugins.plugin_path(&snippet.filename), "/tmp/add_plugin/test_plugin.js");
}

#[test]
fn list_keeps_script_files_in_order() {
    let plugins = Plugins::new_with_basedir("/p".to_string());
    let names = plugins.list(vec![
        entry("plugin_one.js", true),
        entry("notes.txt", true),
        entry("dir.js", false),
        entry(".js", true),
        entry("plugin_two.js", true),
    ]);
    assert_eq!(names, vec!["plugin_one.js", "plugin_two.js"]);
    assert_eq!(plugins.basedir(), "/p");
}

#[test]
fn read_user_scripts_skips_failed_reads() {
    let plugins = Plugins::new_with_basedir("/p".to_string());
    let snippets = plugins.read_user_scripts(vec![
        ReadOutcome { filename: "a.js".to_string(), src: Some("code a".to_string()) },
        ReadOutcome { filename: "b.js".to_string(), src: None },
        ReadOutcome { filename: "c.js".to_string(), src: Some("code c".to_string()) },
    ]);
    assert_eq!(snippets.len(), 2);
    assert_eq!(snippets[0].filename, "a.js");
    assert_eq!(snippets[0].src, "code a");
    assert_eq!(snippets[1].filename, "c.js");
}

#[test]
fn plugin_index_insert_remove_clear() {
    let mut index = PluginIndex::new();
    index.insert("p".to_string(), "one.js".to_string());
    index.insert("q".to_string(), "two.js".to_string());
    index.insert("p".to_string(), "three.js".to_string());
    assert_eq!(index.get_filename_by_plugin_id(&"p".to_string()), Some("three.js".to_string()));
    index.remove(&"p".to_string());
    assert_eq!(index.get_filename_by_plugin_id(&"p".to_string()), None);
    assert_eq!(index.get_filename_by_plugin_id(&"q".to_string()), Some("two.js".to_string()));
    index.clear();
    assert_eq!(index.get_filename_by_plugin_id(&"q".to_string()), None);
}

#[test]
fn log_level_from_config() {
    let mut config = AppConfig::default();
    assert_eq!(config.log_level, "INFO");
    assert_eq!(set_log_level_by_config(&config), LogLevel::Info);
    config.log_level = "DeBuG".to_string();
    assert_eq!(set_log_level_by_config(&config), LogLevel::Debug);
    config.log_level = "trace".to_string();
    assert_eq!(set_log_level_by_config(&config), LogLevel::Trace);
    config.log_level = "verbose".to_string();
    assert_eq!(set_log_level_by_config(&config), LogLevel::Info);
}

#[test]
fn config_defaults() {
    let p = PluginConfig::default();
    assert!(p.enabled);
    assert!(p.config.is_none());
    assert!(AppConfig::default().plugins.unwrap().is_empty());
}

#[test]
fn config_schema_ids_and_lookup() {
    let schema = |id: &str| ConfigSchema {
        id: id.to_string(),
        name: "n".to_string(),
        description: "d".to_string(),
        config: vec![],
    };
    let list = ConfigSchemaList { plugins: vec![schema("builtin.dynamicmacro"), schema("mine")] };
    assert_eq!(list.loaded_plugins(), vec!["builtin.dynamicmacro".to_string(), "mine".to_string()]);
    assert_eq!(list.find(&"mine".to_string()), Some(1));
    assert_eq!(list.find(&"other".to_string()), None);
}
