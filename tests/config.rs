use rafka_clients::config_synonym::{
    hours_to_milliseconds, milliseconds_string, minutes_to_milliseconds, trimmed_value_to_int,
    ConfigSynonym, Converter,
};
use rafka_clients::password::Password;
use rafka_clients::security_protocol::{
    uses_sasl_authentication, uses_ssl_transport_layer, SecurityProtocol,
};
use rafka_clients::server_topic_config_synonyms::{
    all_topic_config_synonyms, log_cleaner_prefix, log_prefix, server_synonym,
};
use rafka_clients::topic_config;

#[test]
fn test_password_creation_and_retrieval() {
    let password_str = "my_secret_password".to_string();
    let password = Password::new(password_str.clone());
    assert_eq!(password.password(), password_str);
}

#[test]
fn test_password_debug_format() {
    let password = Password::new("my_secret_password".to_string());
    let debug_output = password.to_debug_string();
    assert_eq!(debug_output, "Password([hidden])");
}

#[test]
fn test_password_display_format() {
    let password = Password::new("my_secret_password".to_string());
    let display_output = password.to_string();
    assert_eq!(display_output, "[hidden]");
}

#[test]
fn test_password_clone_and_equality() {
    let password_str = "my_secret_password".to_string();
    let password = Password::new(password_str.clone());
    let password_clone = password.clone();
    assert!(password == password_clone);
    assert!(password != Password::new("other".to_string()));
}

#[test]
fn test_hours_to_milliseconds() {
    assert_eq!("0", hours_to_milliseconds("".to_string()));
    assert_eq!("0", hours_to_milliseconds(" ".to_string()));
    assert_eq!("0", hours_to_milliseconds("0".to_string()));
    assert_eq!("442800000", hours_to_milliseconds("123".to_string()));
    assert_eq!("442800000", hours_to_milliseconds(" 123 ".to_string()));
    assert_eq!("0", hours_to_milliseconds("not_a_number".to_string()));
}

#[test]
fn test_minutes_to_milliseconds() {
    assert_eq!("0", minutes_to_milliseconds("".to_string()));
    assert_eq!("0", minutes_to_milliseconds(" ".to_string()));
    assert_eq!("0", minutes_to_milliseconds("0".to_string()));
    assert_eq!("7380000", minutes_to_milliseconds("123".to_string()));
    assert_eq!("7380000", minutes_to_milliseconds(" 123 ".to_string()));
    assert_eq!("0", minutes_to_milliseconds("not_a_number".to_string()));
}

#[test]
fn value_parsing_follows_integer_syntax() {
    assert_eq!(trimmed_value_to_int("", 7), 7);
    assert_eq!(trimmed_value_to_int("+12", 7), 12);
    assert_eq!(trimmed_value_to_int("-12", 7), -12);
    assert_eq!(trimmed_value_to_int("-", 7), 7);
    assert_eq!(trimmed_value_to_int("2147483648", 7), 7);
    assert_eq!(trimmed_value_to_int("-2147483648", 7), i32::MIN);
    assert_eq!(milliseconds_string(2, 60), "120000");
    assert_eq!(milliseconds_string(0, 3600), "0");
}

#[test]
fn converters_apply_their_units() {
    assert_eq!(Converter::Identity.apply(" 5 ".to_string()), " 5 ");
    assert_eq!(Converter::HoursToMilliseconds.apply("1".to_string()), "3600000");
    assert_eq!(Converter::MinutesToMilliseconds.apply("1".to_string()), "60000");
    let synonym = ConfigSynonym::new("log.roll.hours".to_string(), Converter::HoursToMilliseconds);
    assert_eq!(synonym.name(), "log.roll.hours");
    assert_eq!(*synonym.converter(), Converter::HoursToMilliseconds);
    assert_eq!(synonym.own_converter(), Converter::HoursToMilliseconds);
    let identity = ConfigSynonym::new_identity("segment.bytes".to_string());
    assert_eq!(*identity.converter(), Converter::Identity);
}

#[test]
fn test_log_prefix() {
    assert_eq!(log_prefix("test"), "log.test");
}

#[test]
fn test_log_cleaner_prefix() {
    assert_eq!(log_cleaner_prefix("test"), "log.cleaner.test");
}

#[test]
fn server_synonyms_pick_the_highest_priority() {
    assert_eq!(server_synonym(topic_config::SEGMENT_MS_CONFIG), "log.roll.ms");
    assert_eq!(
        server_synonym(topic_config::RETENTION_MS_CONFIG),
        "log.retention.ms"
    );
    assert_eq!(
        server_synonym(topic_config::FILE_DELETE_DELAY_MS_CONFIG),
        "log.segment.delete.delay.ms"
    );
    assert_eq!(
        server_synonym(topic_config::MIN_CLEANABLE_DIRTY_RATIO_CONFIG),
        "log.cleaner.min.cleanable.ratio"
    );
    assert_eq!(
        server_synonym(topic_config::MAX_MESSAGE_BYTES_CONFIG),
        "message.max.bytes"
    );
    assert_eq!(
        server_synonym(topic_config::COMPRESSION_TYPE_CONFIG),
        "compression.type"
    );
}

#[test]
fn synonym_lists_keep_priority_and_converters() {
    let table = all_topic_config_synonyms();
    assert_eq!(table.len(), 28);
    let retention = table
        .iter()
        .find(|(k, _)| k == topic_config::RETENTION_MS_CONFIG)
        .unwrap();
    let names: Vec<&str> = retention.1.iter().map(|s| s.name()).collect();
    assert_eq!(
        names,
        vec!["log.retention.ms", "log.retention.minutes", "log.retention.hours"]
    );
    assert_eq!(*retention.1[1].converter(), Converter::MinutesToMilliseconds);
    assert_eq!(*retention.1[2].converter(), Converter::HoursToMilliseconds);
    assert!(table.iter().all(|(_, list)| !list.is_empty()));
}

#[test]
fn security_protocols_by_id_and_name() {
    for p in SecurityProtocol::values() {
        assert_eq!(SecurityProtocol::for_id(p.id()), Some(p));
        assert_eq!(SecurityProtocol::for_name(p.name()), Some(p));
    }
    assert_eq!(SecurityProtocol::for_id(4), None);
    assert_eq!(SecurityProtocol::for_id(-1), None);
    assert_eq!(SecurityProtocol::for_name("sasl_ssl"), Some(SecurityProtocol::SaslSsl));
    assert_eq!(SecurityProtocol::for_name("Ssl"), Some(SecurityProtocol::Ssl));
    assert_eq!(SecurityProtocol::for_name("tls"), None);
    assert_eq!(SecurityProtocol::for_canonical_name("ssl"), None);
    assert_eq!(
        SecurityProtocol::names(),
        vec!["PLAINTEXT", "SSL", "SASL_PLAINTEXT", "SASL_SSL"]
    );
    assert_eq!(SecurityProtocol::SaslPlaintext.id(), 2);
}

#[test]
fn transport_and_authentication_of_protocols() {
    assert!(!uses_ssl_transport_layer(&SecurityProtocol::Plaintext));
    assert!(uses_ssl_transport_layer(&SecurityProtocol::Ssl));
    assert!(!uses_ssl_transport_layer(&SecurityProtocol::SaslPlaintext));
    assert!(uses_ssl_transport_layer(&SecurityProtocol::SaslSsl));
    assert!(!uses_sasl_authentication(&SecurityProtocol::Plaintext));
    assert!(!uses_sasl_authentication(&SecurityProtocol::Ssl));
    assert!(uses_sasl_authentication(&SecurityProtocol::SaslPlaintext));
    assert!(uses_sasl_authentication(&SecurityProtocol::SaslSsl));
}

#[test]
fn negative_counts_wrap_as_unsigned_seconds() {
    assert_eq!(hours_to_milliseconds("-1".to_string()), "18446744073709548016000");
    assert_eq!(milliseconds_string(-1, 1), "18446744073709551615000");
}
