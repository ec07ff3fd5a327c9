use system_config::{resolve_path, Config, Error};

fn fresh(path: &str) -> Config {
    Config::empty(path.to_string())
}

#[test]
fn insert_then_get() {
    let mut config = fresh("cfg.yaml");
    config.insert("key1", "value1");
    assert_eq!(config.get("key1"), Some("value1".to_string()));
}

#[test]
fn insert_overwrites() {
    let mut config = fresh("cfg.yaml");
    config.insert("key1", "first");
    config.insert("key1", "second");
    assert_eq!(config.get("key1"), Some("second".to_string()));
}

#[test]
fn get_absent_key() {
    let mut config = fresh("cfg.yaml");
    config.insert("key1", "value1");
    assert_eq!(config.get("key2"), None);
}

#[test]
fn clear_idempotent() {
    let mut config = fresh("cfg.yaml");
    config.insert("key1", "value1");
    config.insert("key2", "value2");
    config.clear();
    config.clear();
    assert_eq!(config.get("key1"), None);
    assert_eq!(config.get("key2"), None);
}

#[test]
fn round_trip() {
    let mut config = fresh("cfg.yaml");
    config.insert("plain", "value");
    config.insert("colons and spaces", "a: b c");
    config.insert("empty", "");
    config.insert("looks-bool", "true");
    config.insert("looks-number", "123");
    let text = config.write().unwrap();

    let mut second = fresh("cfg.yaml");
    second.read(&text).unwrap();
    assert_eq!(second.get("plain"), Some("value".to_string()));
    assert_eq!(second.get("colons and spaces"), Some("a: b c".to_string()));
    assert_eq!(second.get("empty"), Some("".to_string()));
    assert_eq!(second.get("looks-bool"), Some("true".to_string()));
    assert_eq!(second.get("looks-number"), Some("123".to_string()));
    assert_eq!(second.get("absent"), None);
}

#[test]
fn bootstrap_empty_mapping() {
    // Constructing for a missing backing file starts from the empty mapping
    // and persists its serialization; that text parses back to the empty
    // mapping.
    let config = fresh("cfg.yaml");
    let text = config.write().unwrap();
    let restored = Config::from_text("cfg.yaml".to_string(), &text).unwrap();
    assert_eq!(restored.get("any"), None);
    assert_eq!(restored.get(""), None);
}

#[test]
fn write_visibility() {
    let mut writer = fresh("cfg.yaml");
    writer.insert("old", "kept");
    let text = writer.write_insert("key1", "value1").unwrap();

    let reader = Config::from_text("cfg.yaml".to_string(), &text).unwrap();
    assert_eq!(reader.get("key1"), Some("value1".to_string()));
    assert_eq!(reader.get("old"), Some("kept".to_string()));
}

#[test]
fn malformed_text_fails_parse() {
    let sequence = "- one\n- two\n";
    match Config::from_text("cfg.yaml".to_string(), sequence) {
        Err(Error::Parse(_)) => {}
        other => panic!("expected a parse failure, got {:?}", other),
    }

    let garbage = "key: [unclosed\n:::";
    match Config::from_text("cfg.yaml".to_string(), garbage) {
        Err(Error::Parse(_)) => {}
        other => panic!("expected a parse failure, got {:?}", other),
    }
}

#[test]
fn malformed_text_leaves_store_unchanged() {
    let mut config = fresh("cfg.yaml");
    config.insert("key1", "value1");
    let result = config.read("- not\n- a\n- mapping\n");
    assert!(matches!(result, Err(Error::Parse(_))));
    assert_eq!(config.get("key1"), Some("value1".to_string()));
}

#[test]
fn parses_handwritten_mapping() {
    let text = "key1: value1\nkey2: value2\n";
    let config = Config::from_text("cfg.yaml".to_string(), text).unwrap();
    assert_eq!(config.get("key1"), Some("value1".to_string()));
    assert_eq!(config.get("key2"), Some("value2".to_string()));
    assert_eq!(config.get("key3"), None);
}

#[test]
fn read_get_returns_parsed_value() {
    let mut writer = fresh("cfg.yaml");
    writer.insert("key1", "value1");
    let text = writer.write().unwrap();

    let mut reader = fresh("cfg.yaml");
    reader.insert("stale", "gone after read");
    assert_eq!(reader.read_get(&text, "key1").unwrap(), Some("value1".to_string()));
    assert_eq!(reader.get("stale"), None);
}

#[test]
fn read_get_propagates_parse_failure() {
    let mut config = fresh("cfg.yaml");
    let result = config.read_get("]broken[", "key1");
    assert!(matches!(result, Err(Error::Parse(_))));
}

#[test]
fn write_clear_empties_and_serializes_empty() {
    let mut config = fresh("cfg.yaml");
    config.insert("key1", "value1");
    let text = config.write_clear().unwrap();
    assert_eq!(config.get("key1"), None);

    let restored = Config::from_text("cfg.yaml".to_string(), &text).unwrap();
    assert_eq!(restored.get("key1"), None);
}

#[test]
fn write_clear_by_name_clears() {
    // Path resolution consults the platform, so accept either outcome.
    match Config::write_clear_by_name("system-config-test", "key1: value1\n") {
        Ok((config, text)) => {
            assert_eq!(config.get("key1"), None);
            assert!(config.path.ends_with("/system-config-test.yaml"));
            let restored = Config::from_text(config.path.clone(), &text).unwrap();
            assert_eq!(restored.get("key1"), None);
        }
        Err(e) => assert!(matches!(e, Error::Path(_) | Error::Other(_))),
    }
}

#[test]
fn write_clear_by_name_rejects_malformed_text() {
    match Config::write_clear_by_name("system-config-test", "- not\n- a\n- mapping\n") {
        Ok(_) => panic!("malformed text must not parse"),
        Err(Error::Parse(_)) => {}
        Err(e) => assert!(matches!(e, Error::Path(_) | Error::Other(_))),
    }
}

#[test]
fn resolve_path_shape() {
    match resolve_path("system-config-test") {
        Ok(path) => assert!(path.ends_with("/system-config-test.yaml")),
        Err(e) => assert!(matches!(e, Error::Path(_) | Error::Other(_))),
    }
}

#[test]
fn scenario_two_instances() {
    // Instance A: construct "cfg", insert two pairs, write.
    let mut a = fresh("cfg.yaml");
    a.insert("key1", "value1");
    a.insert("key2", "value2");
    let text = a.write().unwrap();

    // Instance B: construct "cfg" from the persisted text.
    let mut b = fresh("cfg.yaml");
    b.read(&text).unwrap();
    assert_eq!(b.get("key1"), Some("value1".to_string()));
    assert_eq!(b.get("key2"), Some("value2".to_string()));
    assert_eq!(b.get("key3"), None);
}

#[test]
fn error_messages() {
    assert_eq!(
        Error::Other("o".to_string()).message(),
        "Other Error: o".to_string()
    );
    assert_eq!(
        Error::Path("p".to_string()).message(),
        "Error getting path: p".to_string()
    );
    assert_eq!(
        Error::File("f".to_string()).message(),
        "Error getting file data: f".to_string()
    );
    assert_eq!(
        Error::Parse("x".to_string()).message(),
        "Error parsing file: x".to_string()
    );
}
