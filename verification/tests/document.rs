use omos::document::{read_names, written_text, Change, ConfigDocument, PLUGIN_FIELD};
use omos::error::ConfigError;

fn value(text: &str) -> serde_json::Value {
    serde_json::from_str::<serde_json::Value>(text).unwrap()
}

fn document(text: &str) -> ConfigDocument {
    ConfigDocument::parse(text).unwrap()
}

fn listed(config: &ConfigDocument) -> Vec<&str> {
    config.plugins().iter().map(|name| name.as_str()).collect()
}

#[test]
fn enable_appends_and_keeps_other_fields() {
    let mut config = document("{\"plugin\": [], \"theme\": \"dark\"}");
    assert_eq!(config.enable("x"), Change::Added);
    assert_eq!(listed(&config), vec!["x"]);
    assert_eq!(config.other().get("theme"), Some(&value("\"dark\"")));
    assert_eq!(config.other().len(), 1);
    assert_eq!(config.to_value(), value("{\"plugin\": [\"x\"], \"theme\": \"dark\"}"));
}

#[test]
fn disable_removes_the_entry() {
    let mut config = document("{\"plugin\": [\"x\", \"y\"]}");
    assert_eq!(config.disable("x"), Change::Removed);
    assert_eq!(listed(&config), vec!["y"]);
    assert_eq!(config.to_value(), value("{\"plugin\": [\"y\"]}"));
}

#[test]
fn disable_of_absent_entry_changes_nothing() {
    let mut config = document("{\"plugin\": [\"y\"]}");
    assert_eq!(config.disable("x"), Change::Unchanged);
    assert_eq!(listed(&config), vec!["y"]);
}

#[test]
fn invalid_json_is_a_parse_error() {
    assert_eq!(ConfigDocument::parse("{\"plugin\": [").unwrap_err(), ConfigError::Parse);
    assert_eq!(ConfigDocument::parse("not json").unwrap_err(), ConfigError::Parse);
    assert_eq!(ConfigDocument::parse("").unwrap_err(), ConfigError::Parse);
}

#[test]
fn document_must_be_an_object() {
    assert_eq!(ConfigDocument::parse("[\"x\"]").unwrap_err(), ConfigError::Parse);
    assert_eq!(ConfigDocument::parse("\"plugin\"").unwrap_err(), ConfigError::Parse);
    assert_eq!(ConfigDocument::parse("null").unwrap_err(), ConfigError::Parse);
    assert_eq!(ConfigDocument::from_value(value("3")).unwrap_err(), ConfigError::Parse);
}

#[test]
fn plugin_field_must_be_an_array_of_strings() {
    assert_eq!(ConfigDocument::parse("{\"plugin\": \"x\"}").unwrap_err(), ConfigError::Parse);
    assert_eq!(ConfigDocument::parse("{\"plugin\": null}").unwrap_err(), ConfigError::Parse);
    assert_eq!(ConfigDocument::parse("{\"plugin\": {\"x\": 1}}").unwrap_err(), ConfigError::Parse);
    assert_eq!(ConfigDocument::parse("{\"plugin\": [\"x\", 1]}").unwrap_err(), ConfigError::Parse);
    assert_eq!(ConfigDocument::parse("{\"plugin\": [[\"x\"]]}").unwrap_err(), ConfigError::Parse);
}

#[test]
fn missing_plugin_field_is_an_empty_list() {
    let config = document("{\"theme\": \"dark\"}");
    assert!(config.plugins().is_empty());
    assert_eq!(config.other().len(), 1);
    let empty = document("{}");
    assert!(empty.plugins().is_empty());
    assert!(empty.other().is_empty());
}

#[test]
fn plugin_field_is_kept_apart_from_other_fields() {
    let config = document("{\"a\": 1, \"plugin\": [\"x\"], \"b\": [true, null]}");
    assert_eq!(listed(&config), vec!["x"]);
    assert!(!config.other().contains_key(PLUGIN_FIELD));
    assert_eq!(config.other().len(), 2);
    assert_eq!(config.other().get("a"), Some(&value("1")));
    assert_eq!(config.other().get("b"), Some(&value("[true, null]")));
}

#[test]
fn repeated_key_counts_as_its_last_occurrence() {
    let config = document("{\"plugin\": [\"x\"], \"a\": 1, \"plugin\": [\"y\"], \"a\": 2}");
    assert_eq!(listed(&config), vec!["y"]);
    assert_eq!(config.other().len(), 1);
    assert_eq!(config.other().get("a"), Some(&value("2")));
}

#[test]
fn every_document_has_a_text() {
    for source in ["{}", "{\"plugin\": []}", "{\"n\": 1e300, \"deep\": [[[{\"k\": null}]]]}"] {
        let mut config = document(source);
        assert!(config.render().is_ok());
        config.enable("x");
        assert!(config.render().is_ok());
    }
}

#[test]
fn order_of_plugins_is_kept() {
    let config = document("{\"plugin\": [\"c\", \"a\", \"b\", \"a\"]}");
    assert_eq!(listed(&config), vec!["c", "a", "b", "a"]);
}

#[test]
fn read_names_reads_arrays_of_strings_only() {
    assert_eq!(read_names(&value("[\"a\", \"b\"]")), Some(vec!["a".to_string(), "b".to_string()]));
    assert_eq!(read_names(&value("[]")), Some(Vec::new()));
    assert_eq!(read_names(&value("[\"a\", 2]")), None);
    assert_eq!(read_names(&value("\"a\"")), None);
    assert_eq!(read_names(&value("{}")), None);
}

#[test]
fn is_enabled_tells_whether_the_name_is_listed() {
    let config = document("{\"plugin\": [\"x\", \"y\"]}");
    assert!(config.is_enabled("x"));
    assert!(config.is_enabled("y"));
    assert!(!config.is_enabled("z"));
    assert!(!config.is_enabled(""));
    assert!(!config.is_enabled("X"));
}

#[test]
fn enable_is_idempotent() {
    let mut config = document("{\"plugin\": [\"y\"], \"n\": 1}");
    assert_eq!(config.enable("x"), Change::Added);
    let once = config.to_value();
    assert_eq!(config.enable("x"), Change::Unchanged);
    assert_eq!(config.to_value(), once);
    assert_eq!(listed(&config), vec!["y", "x"]);
}

#[test]
fn disable_is_idempotent() {
    let mut config = document("{\"plugin\": [\"y\", \"x\", \"z\"], \"n\": 1}");
    assert_eq!(config.disable("x"), Change::Removed);
    let once = config.to_value();
    assert_eq!(config.disable("x"), Change::Unchanged);
    assert_eq!(config.to_value(), once);
    assert_eq!(listed(&config), vec!["y", "z"]);
}

#[test]
fn disable_removes_only_the_first_of_two() {
    let mut config = document("{\"plugin\": [\"x\", \"y\", \"x\"]}");
    assert_eq!(config.disable("x"), Change::Removed);
    assert_eq!(listed(&config), vec!["y", "x"]);
    assert!(config.is_enabled("x"));
    assert_eq!(config.disable("x"), Change::Removed);
    assert_eq!(listed(&config), vec!["y"]);
    assert_eq!(config.disable("x"), Change::Unchanged);
}

#[test]
fn enable_leaves_duplicates_alone() {
    let mut config = document("{\"plugin\": [\"x\", \"x\"]}");
    assert_eq!(config.enable("x"), Change::Unchanged);
    assert_eq!(listed(&config), vec!["x", "x"]);
}

#[test]
fn toggle_flips_the_state() {
    let mut config = document("{\"plugin\": [\"y\"]}");
    assert_eq!(config.toggle("x"), Change::Added);
    assert!(config.is_enabled("x"));
    assert_eq!(listed(&config), vec!["y", "x"]);
    assert_eq!(config.toggle("x"), Change::Removed);
    assert!(!config.is_enabled("x"));
    assert_eq!(listed(&config), vec!["y"]);
}

#[test]
fn toggle_twice_restores_an_absent_or_last_entry() {
    let mut absent = document("{\"plugin\": [\"a\", \"b\"], \"k\": {}}");
    let before = absent.to_value();
    absent.toggle("x");
    absent.toggle("x");
    assert_eq!(absent.to_value(), before);

    let mut last = document("{\"plugin\": [\"a\", \"x\"]}");
    let before = last.to_value();
    last.toggle("x");
    last.toggle("x");
    assert_eq!(last.to_value(), before);
}

#[test]
fn toggle_twice_moves_an_earlier_entry_to_the_end() {
    let mut config = document("{\"plugin\": [\"x\", \"y\"]}");
    config.toggle("x");
    config.toggle("x");
    assert_eq!(listed(&config), vec!["y", "x"]);
}

#[test]
fn to_value_holds_the_list_and_the_other_fields() {
    let config = document("{\"z\": 0, \"plugin\": [\"p\", \"q\"], \"a\": {\"plugin\": 1}}");
    let object = config.to_value();
    assert_eq!(object, value("{\"a\": {\"plugin\": 1}, \"plugin\": [\"p\", \"q\"], \"z\": 0}"));
    assert_eq!(object.as_object().unwrap().len(), 3);
}

#[test]
fn to_value_leaves_the_document_as_it_was() {
    let config = document("{\"plugin\": [\"p\"], \"a\": 1}");
    let _ = config.to_value();
    assert!(!config.other().contains_key(PLUGIN_FIELD));
    assert_eq!(config.other().len(), 1);
    assert_eq!(listed(&config), vec!["p"]);
}

#[test]
fn to_value_of_a_document_without_list_writes_an_empty_one() {
    let config = document("{\"theme\": \"dark\"}");
    assert_eq!(config.to_value(), value("{\"plugin\": [], \"theme\": \"dark\"}"));
}

#[test]
fn render_prints_pretty_json() {
    let config = document("{\"theme\":\"dark\",\"plugin\":[\"x\"]}");
    let text = config.render().unwrap();
    assert_eq!(text, "{\n  \"plugin\": [\n    \"x\"\n  ],\n  \"theme\": \"dark\"\n}");
}

#[test]
fn written_and_read_back_the_other_fields_are_the_same() {
    let source = "{\"theme\": \"dark\", \"plugin\": [\"y\"], \"n\": [1, -2, 2.5, 1e30], \
                  \"nested\": {\"plugin\": [3], \"s\": \"a\\\"b\\u00e9\"}, \"none\": null, \"t\": true}";
    let first = document(source);

    let mut enabled = document(source);
    enabled.enable("x");
    let read = document(&enabled.render().unwrap());
    assert_eq!(read.other(), first.other());
    assert_eq!(listed(&read), vec!["y", "x"]);

    let mut disabled = document(source);
    disabled.disable("y");
    let read = document(&disabled.render().unwrap());
    assert_eq!(read.other(), first.other());
    assert!(read.plugins().is_empty());

    let mut toggled = document(source);
    toggled.toggle("y");
    toggled.toggle("z");
    let read = document(&toggled.render().unwrap());
    assert_eq!(read.other(), first.other());
    assert_eq!(listed(&read), vec!["z"]);

    let read = document(&first.render().unwrap());
    assert_eq!(read.other(), first.other());
    assert_eq!(read.to_value(), first.to_value());
}

#[test]
fn clone_is_independent_of_its_source() {
    let first = document("{\"plugin\": [\"y\"], \"a\": 1}");
    let mut copy = first.clone();
    copy.enable("x");
    assert_eq!(listed(&first), vec!["y"]);
    assert_eq!(listed(&copy), vec!["y", "x"]);
    assert_eq!(copy.other(), first.other());
}

#[test]
fn written_text_keeps_the_text_and_maps_the_error() {
    assert_eq!(written_text(Ok("{}".to_string())), Ok("{}".to_string()));
    let failure = serde_json::from_str::<serde_json::Value>("{").unwrap_err();
    assert_eq!(written_text(Err(failure)), Err(ConfigError::Write));
}
