use user_service::object_id::is_well_formed_id;
use user_service::settings::{parse_port, Settings};
use user_service::topology::{created_exchange, created_queue, created_routing_key};

#[test]
fn parse_port_accepts_plain_decimal_ports() {
    assert_eq!(parse_port("8080"), Some(8080));
    assert_eq!(parse_port("0"), Some(0));
    assert_eq!(parse_port("65535"), Some(65535));
}

#[test]
fn parse_port_rejects_out_of_range_and_malformed_text() {
    assert_eq!(parse_port("65536"), None);
    assert_eq!(parse_port("999999999999"), None);
    assert_eq!(parse_port(""), None);
    assert_eq!(parse_port("80a0"), None);
    assert_eq!(parse_port("-1"), None);
    assert_eq!(parse_port(" 8080"), None);
}

#[test]
fn settings_require_a_well_formed_port() {
    let s = Settings::from_values(
        "8080",
        "mongodb://localhost:27017".to_string(),
        "amqp://127.0.0.1:5672/%2f".to_string(),
        "redis://127.0.0.1/".to_string(),
    )
    .expect("a well-formed port must be accepted");
    assert_eq!(s.port, 8080);
    assert_eq!(s.database_url, "mongodb://localhost:27017");
    assert_eq!(s.amqp_addr, "amqp://127.0.0.1:5672/%2f");
    assert_eq!(s.redis_url, "redis://127.0.0.1/");

    assert!(Settings::from_values(
        "port",
        "mongodb://localhost:27017".to_string(),
        "amqp://127.0.0.1:5672/%2f".to_string(),
        "redis://127.0.0.1/".to_string(),
    )
    .is_none());
}

#[test]
fn well_formed_ids_are_exactly_24_hex_characters() {
    assert!(is_well_formed_id("0123456789abcdef01234567"));
    assert!(is_well_formed_id("ABCDEF0123456789abcdef01"));
    // Wrong length.
    assert!(!is_well_formed_id(""));
    assert!(!is_well_formed_id("0123456789abcdef0123456"));
    assert!(!is_well_formed_id("0123456789abcdef012345678"));
    // Wrong charset.
    assert!(!is_well_formed_id("0123456789abcdef0123456g"));
    assert!(!is_well_formed_id("0123456789abcdef 1234567"));
}

#[test]
fn topology_names_are_fixed_and_scoped_to_the_entity() {
    assert_eq!(created_exchange(), "rust-user");
    assert_eq!(created_queue(), "rust-user-created");
    assert_eq!(created_routing_key(), "rust-user.created");
}
