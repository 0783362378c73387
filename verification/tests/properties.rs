use pulsar_cli::forward::forward_message;
use pulsar_cli::message::{Message, OutboundMessage};
use pulsar_cli::properties::Properties;

fn pair(key: &str, value: &str) -> (String, String) {
    (key.to_string(), value.to_string())
}

#[test]
fn new_properties_are_empty() {
    let props = Properties::new();
    assert!(props.is_empty());
    assert_eq!(props.len(), 0);
    assert_eq!(props.get("env"), None);
    assert_eq!(props.to_pairs(), vec![]);
}

#[test]
fn insert_appends_new_keys_in_order() {
    let mut props = Properties::new();
    props.insert("b".to_string(), "2".to_string());
    props.insert("a".to_string(), "1".to_string());
    assert_eq!(props.len(), 2);
    assert!(!props.is_empty());
    assert_eq!(props.to_pairs(), vec![pair("b", "2"), pair("a", "1")]);
    assert_eq!(props.get("a"), Some("1".to_string()));
    assert_eq!(props.get("b"), Some("2".to_string()));
    assert_eq!(props.get("c"), None);
}

#[test]
fn insert_replaces_the_value_of_a_present_key_in_place() {
    let props = Properties::new()
        .with("a".to_string(), "1".to_string())
        .with("b".to_string(), "2".to_string())
        .with("a".to_string(), "3".to_string());
    assert_eq!(props.len(), 2);
    assert_eq!(props.to_pairs(), vec![pair("a", "3"), pair("b", "2")]);
    assert_eq!(props.get("a"), Some("3".to_string()));
}

#[test]
fn from_pairs_keeps_the_later_of_two_values() {
    let props = Properties::from_pairs(vec![
        pair("env", "dev"),
        pair("region", "eu"),
        pair("env", "prod"),
    ]);
    assert_eq!(props.to_pairs(), vec![pair("env", "prod"), pair("region", "eu")]);
    assert_eq!(props.get("env"), Some("prod".to_string()));
}

#[test]
fn from_pairs_of_nothing_is_empty() {
    assert!(Properties::from_pairs(vec![]).is_empty());
}

#[test]
fn keys_are_compared_exactly() {
    let props = Properties::from_pairs(vec![pair("Env", "1"), pair("env", "2"), pair("", "3")]);
    assert_eq!(props.len(), 3);
    assert_eq!(props.get("Env"), Some("1".to_string()));
    assert_eq!(props.get("env"), Some("2".to_string()));
    assert_eq!(props.get(""), Some("3".to_string()));
    assert_eq!(props.get("en"), None);
}

#[test]
fn duplicate_has_the_same_entries() {
    let props = Properties::from_pairs(vec![pair("k", "v"), pair("x", "y")]);
    let copy = props.duplicate();
    assert_eq!(copy.to_pairs(), props.to_pairs());
}

#[test]
fn effective_timestamp_is_the_event_time_when_present() {
    let message = Message {
        payload: vec![],
        properties: Properties::new(),
        event_time: Some(1_700_000_000_123),
        publish_time: 1_600_000_000_000,
    };
    assert_eq!(message.effective_timestamp(), 1_700_000_000_123);
    assert_eq!(message.effective_timestamp(), 1_700_000_000_123);
}

#[test]
fn effective_timestamp_is_the_publish_time_without_event_time() {
    let message = Message {
        payload: vec![],
        properties: Properties::new(),
        event_time: None,
        publish_time: 1_600_000_000_000,
    };
    assert_eq!(message.effective_timestamp(), 1_600_000_000_000);
}

#[test]
fn event_time_zero_is_still_an_event_time() {
    let message = Message {
        payload: vec![],
        properties: Properties::new(),
        event_time: Some(0),
        publish_time: 77,
    };
    assert_eq!(message.effective_timestamp(), 0);
}

#[test]
fn forwarded_copy_keeps_payload_and_properties() {
    let message = Message {
        payload: vec![0, 159, 146, 150, 255, b'{'],
        properties: Properties::from_pairs(vec![pair("env", "prod"), pair("k", "v=w")]),
        event_time: None,
        publish_time: 42,
    };
    let at = message.effective_timestamp();
    let out: OutboundMessage = forward_message(&message, at);
    assert_eq!(out.payload, message.payload);
    assert_eq!(out.properties.to_pairs(), message.properties.to_pairs());
    assert_eq!(out.event_time, Some(42));
}

#[test]
fn forwarded_copy_takes_the_event_time_when_present() {
    let message = Message {
        payload: b"x".to_vec(),
        properties: Properties::new(),
        event_time: Some(7),
        publish_time: 42,
    };
    let out = forward_message(&message, message.effective_timestamp());
    assert_eq!(out.event_time, Some(7));
    assert!(out.properties.is_empty());
}

#[test]
fn message_duplicates_are_equal_field_by_field() {
    let message = Message {
        payload: b"abc".to_vec(),
        properties: Properties::from_pairs(vec![pair("a", "b")]),
        event_time: Some(1),
        publish_time: 2,
    };
    let copy = message.duplicate();
    assert_eq!(copy.payload, message.payload);
    assert_eq!(copy.properties.to_pairs(), message.properties.to_pairs());
    assert_eq!(copy.event_time, Some(1));
    assert_eq!(copy.publish_time, 2);
    let out = forward_message(&message, 1).duplicate();
    assert_eq!(out.payload, b"abc".to_vec());
    assert_eq!(out.event_time, Some(1));
}
