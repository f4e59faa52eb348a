use postgres::cli::parse_label;

#[test]
fn test_parse_label_valid() {
    let result = parse_label("env=prod");
    assert!(result.is_ok());
    let (key, value) = result.unwrap();
    assert_eq!(key, "env");
    assert_eq!(value, "prod");
}

#[test]
fn test_parse_label_with_spaces() {
    let result = parse_label(" key = value ");
    assert!(result.is_ok());
    let (key, value) = result.unwrap();
    assert_eq!(key, "key");
    assert_eq!(value, "value");
}

#[test]
fn test_parse_label_value_with_equals() {
    // Value can contain equals sign
    let result = parse_label("config=key=value");
    assert!(result.is_ok());
    let (key, value) = result.unwrap();
    assert_eq!(key, "config");
    assert_eq!(value, "key=value");
}

#[test]
fn test_parse_label_empty_value() {
    let result = parse_label("key=");
    assert!(result.is_ok());
    let (key, value) = result.unwrap();
    assert_eq!(key, "key");
    assert_eq!(value, "");
}

#[test]
fn test_parse_label_missing_equals() {
    let result = parse_label("invalid");
    assert!(result.is_err());
    assert!(result.unwrap_err().contains("Expected 'key=value'"));
}

#[test]
fn test_parse_label_empty_key() {
    let result = parse_label("=value");
    assert!(result.is_err());
    assert!(result.unwrap_err().contains("key cannot be empty"));
}

#[test]
fn parse_label_exact_messages() {
    assert_eq!(
        parse_label("noequals").unwrap_err(),
        "Invalid label format 'noequals'. Expected 'key=value'"
    );
    assert_eq!(parse_label("  =x").unwrap_err(), "Label key cannot be empty");
    assert_eq!(parse_label("\tk\t=\tv w\t").unwrap(), ("k".to_string(), "v w".to_string()));
}

#[test]
fn label_written_then_read_back() {
    for (k, v) in [("env", "prod"), ("team", "a b"), ("x", ""), ("url", "a=b=c")] {
        let text = format!("{}={}", k, v);
        assert_eq!(parse_label(&text).unwrap(), (k.to_string(), v.to_string()));
    }
}
