use rafka_clients::config_def::{
    ConfigDef, ConfigError, ConfigKey, ConfigValueType, FromConfigDef, Importance,
};
use rafka_clients::password::Password;
use std::collections::HashMap;

#[test]
fn test_basic_types() {
    struct TestConfig {
        a: i32,
        b: i64,
        c: String,
        d: Vec<String>,
        e: f64,
        f: String,
        g: bool,
        h: bool,
        i: bool,
        j: Password,
    }

    impl FromConfigDef for TestConfig {
        fn from_props(
            props: &HashMap<String, String>,
            def: &ConfigDef,
        ) -> Result<Self, ConfigError> {
            let get_value = |name: &str| -> Result<String, ConfigError> {
                let meta = def
                    .find_key(name)
                    .ok_or_else(|| ConfigError::MissingKey(name.to_string()))?;
                props
                    .get(name)
                    .or(meta.default_value.as_ref())
                    .cloned()
                    .ok_or_else(|| ConfigError::MissingKey(name.to_string()))
            };
            let e_text = get_value("e")?;
            Ok(TestConfig {
                a: i32::parse("a", &get_value("a")?)?,
                b: i64::parse("b", &get_value("b")?)?,
                c: String::parse("c", &get_value("c")?)?,
                d: Vec::parse("d", &get_value("d")?)?,
                e: e_text.trim().parse().map_err(|_| ConfigError::InvalidValue {
                    key: "e".to_string(),
                    message: e_text.clone(),
                })?,
                f: String::parse("f", &get_value("f")?)?,
                g: bool::parse("g", &get_value("g")?)?,
                h: bool::parse("h", &get_value("h")?)?,
                i: bool::parse("i", &get_value("i")?)?,
                j: Password::parse("j", &get_value("j")?)?,
            })
        }
    }

    let def = ConfigDef::builder()
        .new("a")
        .default_value("5")
        .importance(Importance::HIGH)
        .documentation("docs")
        .new("b")
        .importance(Importance::HIGH)
        .documentation("docs")
        .new("c")
        .default_value("hello")
        .importance(Importance::HIGH)
        .documentation("docs")
        .new("d")
        .importance(Importance::HIGH)
        .documentation("docs")
        .new("e")
        .importance(Importance::HIGH)
        .documentation("docs")
        .new("f")
        .importance(Importance::HIGH)
        .documentation("docs")
        .new("g")
        .importance(Importance::HIGH)
        .documentation("docs")
        .new("h")
        .importance(Importance::HIGH)
        .documentation("docs")
        .new("i")
        .importance(Importance::HIGH)
        .documentation("docs")
        .new("j")
        .importance(Importance::HIGH)
        .documentation("docs")
        .build();

    let mut props = HashMap::new();
    props.insert("a".to_string(), "1   ".to_string());
    props.insert("b".to_string(), "2".to_string());
    props.insert("d".to_string(), " a , b, c".to_string());
    props.insert("e".to_string(), "42.5".to_string());
    props.insert("f".to_string(), "java.lang.String".to_string());
    props.insert("g".to_string(), "true".to_string());
    props.insert("h".to_string(), "FalSE".to_string());
    props.insert("i".to_string(), "TRUE".to_string());
    props.insert("j".to_string(), "password".to_string());

    let config = TestConfig::from_props(&props, &def).unwrap();

    assert_eq!(config.a, 1);
    assert_eq!(config.b, 2);
    assert_eq!(config.c, "hello");
    assert_eq!(config.d, vec!["a", "b", "c"]);
    assert_eq!(config.e, 42.5);
    assert_eq!(config.f, "java.lang.String");
    assert_eq!(config.g, true);
    assert_eq!(config.h, false);
    assert_eq!(config.i, true);
    assert!(config.j == Password::new("password".to_string()));
    assert_eq!(config.j.to_string(), "[hidden]");
}

#[test]
fn schema_keeps_keys_in_order_with_their_fields() {
    let def = ConfigDef::builder()
        .new("x")
        .documentation("first")
        .new("y")
        .default_value("7")
        .importance(Importance::LOW)
        .build();
    let x = def.find_key("x").unwrap();
    assert_eq!(x.name, "x");
    assert_eq!(x.documentation.as_deref(), Some("first"));
    assert_eq!(x.default_value, None);
    assert_eq!(x.importance, None);
    let y = def.find_key("y").unwrap();
    assert_eq!(y.default_value.as_deref(), Some("7"));
    assert_eq!(y.importance, Some(Importance::LOW));
    assert!(def.find_key("z").is_none());
    let fresh = ConfigKey::new("k");
    assert_eq!(fresh.name, "k");
    assert!(fresh.dependents.is_empty() && !fresh.internal_config);
}

#[test]
fn invalid_values_name_their_key() {
    match i32::parse("port", "eighty") {
        Err(ConfigError::InvalidValue { key, message }) => {
            assert_eq!(key, "port");
            assert!(!message.is_empty());
        }
        other => panic!("unexpected {:?}", other),
    }
    assert!(matches!(
        bool::parse("flag", "yes"),
        Err(ConfigError::InvalidValue { .. })
    ));
    assert!(matches!(
        i64::parse("big", "99999999999999999999"),
        Err(ConfigError::InvalidValue { .. })
    ));
    assert_eq!(i64::parse("big", " -9000000000 ").unwrap(), -9_000_000_000);
    assert_eq!(Vec::<String>::parse("l", "solo").unwrap(), vec!["solo"]);
    assert_eq!(Vec::<String>::parse("l", "a,,b").unwrap(), vec!["a", "", "b"]);
}
