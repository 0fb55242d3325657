use desktop_node::bootstrap::{address_format, AddressFormatError, SS58_FORMAT_PROPERTY};
use desktop_node::chain_spec::{ChainSpec, PropertyValue, TelemetryEndpoint};
use serde_json::Value;

fn chain_with(properties: Vec<(&str, Value)>) -> ChainSpec {
    let mut map = serde_json::Map::new();
    for (key, value) in properties {
        map.insert(key.to_string(), value);
    }
    ChainSpec {
        id: "gemini".to_string(),
        boot_nodes: vec![
            "/dns/bootstrap-0.example/tcp/30333/p2p/12D3KooWA".to_string(),
            "/ip4/10.0.0.7/tcp/30333/p2p/12D3KooWB".to_string(),
        ],
        telemetry_endpoints: Some(vec![TelemetryEndpoint {
            url: "wss://telemetry.example/submit/".to_string(),
            verbosity: 1,
        }]),
        properties: map,
    }
}

#[test]
fn property_lookup_finds_the_key() {
    let chain = chain_with(vec![
        ("tokenDecimals", Value::from(18u64)),
        ("tokenSymbol", Value::from("tSSC")),
        ("ss58Format", Value::from(2254u64)),
    ]);
    assert_eq!(chain.property("tokenDecimals"), Some(PropertyValue::Unsigned(18)));
    assert_eq!(chain.property("tokenSymbol"), Some(PropertyValue::Other));
    assert_eq!(chain.property("ss58Format"), Some(PropertyValue::Unsigned(2254)));
}

#[test]
fn property_lookup_misses_an_absent_key() {
    let chain = chain_with(vec![("tokenDecimals", Value::from(18u64))]);
    assert_eq!(chain.property("ss58Format"), None);
    assert_eq!(chain.property(""), None);
    assert_eq!(chain.property("tokendecimals"), None);
    assert_eq!(chain_with(vec![]).property("tokenDecimals"), None);
}

#[test]
fn property_lookup_tells_unsigned_numbers_from_the_rest() {
    let chain = chain_with(vec![
        ("zero", Value::from(0u64)),
        ("largest", Value::from(u64::MAX)),
        ("positive", Value::from(7i64)),
        ("negative", Value::from(-1i64)),
        ("fraction", Value::from(2.5f64)),
        ("whole", Value::from(256.0f64)),
        ("flag", Value::from(true)),
        ("nothing", Value::Null),
        ("digits", Value::from("42")),
        ("list", Value::from(vec![1u64, 2])),
        ("object", Value::Object(serde_json::Map::new())),
    ]);
    assert_eq!(chain.property("zero"), Some(PropertyValue::Unsigned(0)));
    assert_eq!(chain.property("largest"), Some(PropertyValue::Unsigned(u64::MAX)));
    assert_eq!(chain.property("positive"), Some(PropertyValue::Unsigned(7)));
    for key in ["negative", "fraction", "whole", "flag", "nothing", "digits", "list", "object"] {
        assert_eq!(chain.property(key), Some(PropertyValue::Other), "{}", key);
    }
}

#[test]
fn property_lookup_sees_the_value_stored_last() {
    let chain = chain_with(vec![
        ("ss58Format", Value::from(1u64)),
        ("ss58Format", Value::from(2u64)),
    ]);
    assert_eq!(chain.property("ss58Format"), Some(PropertyValue::Unsigned(2)));
}

#[test]
fn boot_nodes_are_copied_in_order() {
    let chain = chain_with(vec![]);
    assert_eq!(chain.boot_nodes(), chain.boot_nodes);
    assert_eq!(chain.boot_nodes().len(), 2);
}

#[test]
fn telemetry_endpoints_are_copied_in_order() {
    let mut chain = chain_with(vec![]);
    chain.telemetry_endpoints.as_mut().unwrap().push(TelemetryEndpoint {
        url: "wss://second.example/".to_string(),
        verbosity: 0,
    });
    let copy = chain.telemetry_endpoints().expect("endpoints are listed");
    assert_eq!(copy.len(), 2);
    assert_eq!(copy[0].url, "wss://telemetry.example/submit/");
    assert_eq!(copy[0].verbosity, 1);
    assert_eq!(copy[1].url, "wss://second.example/");
    assert_eq!(copy[1].verbosity, 0);
    chain.telemetry_endpoints = None;
    assert!(chain.telemetry_endpoints().is_none());
    chain.telemetry_endpoints = Some(vec![]);
    assert_eq!(chain.telemetry_endpoints().map(|e| e.len()), Some(0));
}

#[test]
fn absent_address_format_is_no_format() {
    let chain = chain_with(vec![("tokenDecimals", Value::from(18u64))]);
    assert_eq!(address_format(&chain), Ok(None));
}

#[test]
fn address_format_within_16_bits_is_taken() {
    for (number, format) in [(0u64, 0u16), (42, 42), (2254, 2254), (65535, 65535)] {
        let chain = chain_with(vec![(SS58_FORMAT_PROPERTY, Value::from(number))]);
        assert_eq!(address_format(&chain), Ok(Some(format)));
    }
}

#[test]
fn address_format_above_16_bits_is_out_of_range() {
    for number in [65536u64, 70000, u64::MAX] {
        let chain = chain_with(vec![("ss58Format", Value::from(number))]);
        assert_eq!(address_format(&chain), Err(AddressFormatError::OutOfRange(number)));
    }
}

#[test]
fn address_format_that_is_no_unsigned_number_is_rejected() {
    for value in [
        Value::from("42"),
        Value::from(-42i64),
        Value::from(42.5f64),
        Value::Null,
        Value::from(true),
    ] {
        let chain = chain_with(vec![("ss58Format", value)]);
        assert_eq!(address_format(&chain), Err(AddressFormatError::NotUnsigned));
    }
}

#[test]
fn address_format_property_name() {
    assert_eq!(SS58_FORMAT_PROPERTY, "ss58Format");
}
