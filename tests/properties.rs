use rafka_clients::properties::{parse_properties, parse_property_line};
use std::collections::HashMap;

fn lines(text: &[&str]) -> Vec<String> {
    text.iter().map(|l| l.to_string()).collect()
}

fn as_map(pairs: Vec<(String, String)>) -> HashMap<String, String> {
    let n = pairs.len();
    let map: HashMap<String, String> = pairs.into_iter().collect();
    assert_eq!(map.len(), n, "keys must be unique");
    map
}

#[test]
fn test_read_valid_properties() {
    let properties = as_map(parse_properties(&lines(&[
        "# Database Configuration",
        "database.url=jdbc:mysql://localhost:3306/mydb",
        "database.user = myuser",
        "",
        "! Application Settings",
        "application.name = My Awesome App ",
        "key.with.equals=value=with=equals",
    ])));
    assert_eq!(properties.len(), 4);
    assert_eq!(
        properties.get("database.url").unwrap(),
        "jdbc:mysql://localhost:3306/mydb"
    );
    assert_eq!(properties.get("database.user").unwrap(), "myuser");
    assert_eq!(properties.get("application.name").unwrap(), "My Awesome App");
    assert_eq!(properties.get("key.with.equals").unwrap(), "value=with=equals");
}

#[test]
fn test_empty_file() {
    let properties = parse_properties(&Vec::new());
    assert!(properties.is_empty());
}

#[test]
fn test_file_with_only_comments_and_empty_lines() {
    let properties = parse_properties(&lines(&["# This is a comment", "! So is this", "", "   "]));
    assert!(properties.is_empty());
}

#[test]
fn test_malformed_line_is_skipped() {
    let properties = as_map(parse_properties(&lines(&[
        "this is a malformed line",
        "valid.key=valid.value",
    ])));
    assert_eq!(properties.len(), 1);
    assert_eq!(properties.get("valid.key").unwrap(), "valid.value");
}

#[test]
fn later_lines_override_earlier_ones() {
    let pairs = parse_properties(&lines(&["a=1", "b=2", " a = 3 ", "c="]));
    assert_eq!(
        pairs,
        vec![
            ("a".to_string(), "3".to_string()),
            ("b".to_string(), "2".to_string()),
            ("c".to_string(), "".to_string()),
        ]
    );
}

#[test]
fn single_lines() {
    assert_eq!(
        parse_property_line("  k = v  "),
        Some(("k".to_string(), "v".to_string()))
    );
    assert_eq!(parse_property_line("#k=v"), None);
    assert_eq!(parse_property_line("  !k=v"), None);
    assert_eq!(parse_property_line("no separator"), None);
    assert_eq!(
        parse_property_line("=v"),
        Some(("".to_string(), "v".to_string()))
    );
}
