use pulsar_cli::config::{
    build_subscription, name_or, parse_properties, resolve_consume, resolve_interval,
    resolve_produce, resolve_url, split_property, ConfigError, ConsumeOptions, InitialPosition,
    ProduceOptions, Subscription, SubscriptionType, DEFAULT_NAME, DEFAULT_URL,
};
use pulsar_cli::forward::{resolve_forward, ForwardTarget};
use pulsar_cli::interval::{is_short_span, Interval};

fn text(s: &str) -> String {
    s.to_string()
}

fn plain() -> bool {
    false
}

fn consume_options(topic: &str) -> ConsumeOptions {
    ConsumeOptions {
        topic: text(topic),
        subscription_name: None,
        consumer_name: None,
        durable: false,
        json: false,
        shared: false,
        earliest: false,
        ack: false,
        forward_to_topic: None,
        forward_to_url: None,
    }
}

#[test]
fn property_splits_at_the_equals_sign() {
    assert_eq!(split_property("env=prod"), Some((text("env"), text("prod"))));
}

#[test]
fn property_splits_at_the_first_equals_sign_only() {
    assert_eq!(split_property("a=b=c"), Some((text("a"), text("b=c"))));
    assert_eq!(split_property("a=="), Some((text("a"), text("="))));
}

#[test]
fn property_may_have_an_empty_key_or_value() {
    assert_eq!(split_property("=v"), Some((text(""), text("v"))));
    assert_eq!(split_property("k="), Some((text("k"), text(""))));
    assert_eq!(split_property("="), Some((text(""), text(""))));
}

#[test]
fn property_without_equals_sign_does_not_split() {
    assert_eq!(split_property("envprod"), None);
    assert_eq!(split_property(""), None);
}

#[test]
fn property_with_characters_of_several_bytes() {
    assert_eq!(split_property("größe=42°"), Some((text("größe"), text("42°"))));
    assert_eq!(split_property("日本=語=x"), Some((text("日本"), text("語=x"))));
}

#[test]
fn properties_are_read_in_order_and_the_later_value_stays() {
    let props = parse_properties(&vec![text("env=dev"), text("a=1"), text("env=prod")]).unwrap();
    assert_eq!(
        props.to_pairs(),
        vec![(text("env"), text("prod")), (text("a"), text("1"))]
    );
}

#[test]
fn no_properties_give_an_empty_map() {
    assert!(parse_properties(&vec![]).unwrap().is_empty());
}

#[test]
fn the_first_malformed_property_is_reported() {
    let error = parse_properties(&vec![text("a=1"), text("bad"), text("worse")]).unwrap_err();
    assert_eq!(error, ConfigError::InvalidProperty { attr: text("bad") });
    assert_eq!(error.message(), "Invalid attr: \"bad\"");
}

#[test]
fn url_defaults_to_the_local_broker() {
    assert_eq!(DEFAULT_URL, "pulsar://127.0.0.1");
    assert_eq!(resolve_url(&None), Ok(text("pulsar://127.0.0.1")));
}

#[test]
fn url_is_taken_in_its_normal_form() {
    assert_eq!(resolve_url(&Some(text("pulsar://broker:6650"))), Ok(text("pulsar://broker:6650")));
    assert_eq!(resolve_url(&Some(text("HTTP://EXAMPLE.com"))), Ok(text("http://example.com/")));
}

#[test]
fn malformed_url_is_refused() {
    let error = resolve_url(&Some(text("not a url"))).unwrap_err();
    assert_eq!(error, ConfigError::InvalidUrl { text: text("not a url") });
    assert_eq!(error.message(), "Invalid URL: not a url");
}

#[test]
fn interval_defaults_to_five_seconds() {
    assert_eq!(resolve_interval(&None), Ok(Interval { secs: 5, nanos: 0 }));
}

#[test]
fn interval_is_read_as_a_time_span() {
    assert_eq!(resolve_interval(&Some(text("1s"))), Ok(Interval { secs: 1, nanos: 0 }));
    assert_eq!(resolve_interval(&Some(text("1min 30s"))), Ok(Interval { secs: 90, nanos: 0 }));
    assert_eq!(
        resolve_interval(&Some(text("1500ms"))),
        Ok(Interval { secs: 1, nanos: 500_000_000 })
    );
}

#[test]
fn malformed_interval_is_refused() {
    let error = resolve_interval(&Some(text("soon"))).unwrap_err();
    assert_eq!(error, ConfigError::InvalidInterval { text: text("soon") });
    assert_eq!(error.message(), "Invalid interval: soon");
}

#[test]
fn names_fall_back_to_the_default() {
    assert_eq!(DEFAULT_NAME, "pulsar-cli");
    assert_eq!(name_or(None, DEFAULT_NAME), "pulsar-cli");
    assert_eq!(name_or(Some(text("mine")), DEFAULT_NAME), "mine");
}

#[test]
fn subscription_defaults_to_exclusive_non_durable_latest() {
    let subscription = build_subscription(text("t"), None, None, false, false, false);
    assert_eq!(
        subscription,
        Subscription {
            topic: text("t"),
            subscription_name: text("pulsar-cli"),
            consumer_name: text("pulsar-cli"),
            sub_type: SubscriptionType::Exclusive,
            durable: false,
            initial_position: InitialPosition::Latest,
        }
    );
    assert_eq!(subscription.duplicate(), subscription);
}

#[test]
fn subscription_follows_the_flags() {
    let subscription =
        build_subscription(text("t"), Some(text("s")), Some(text("c")), true, true, true);
    assert_eq!(subscription.subscription_name, "s");
    assert_eq!(subscription.consumer_name, "c");
    assert_eq!(subscription.sub_type, SubscriptionType::Shared);
    assert!(subscription.durable);
    assert_eq!(subscription.initial_position, InitialPosition::Earliest);
}

#[test]
fn consume_without_forwarding() {
    let mut options = consume_options("events");
    options.json = true;
    options.ack = true;
    let config = resolve_consume(None, options, plain()).unwrap();
    assert_eq!(config.url, "pulsar://127.0.0.1");
    assert_eq!(config.subscription.topic, "events");
    assert!(config.json);
    assert!(config.ack);
    assert_eq!(config.forward, None);
    assert!(!config.ansi);
}

#[test]
fn forwarding_goes_to_the_source_broker_unless_another_is_named() {
    let mut options = consume_options("events");
    options.forward_to_topic = Some(text("copy"));
    let config = resolve_consume(Some(text("pulsar://a:6650")), options, plain()).unwrap();
    assert_eq!(
        config.forward,
        Some(ForwardTarget { url: text("pulsar://a:6650"), topic: text("copy") })
    );

    let mut options = consume_options("events");
    options.forward_to_topic = Some(text("copy"));
    options.forward_to_url = Some(text("pulsar://b:6650"));
    let config = resolve_consume(Some(text("pulsar://a:6650")), options, plain()).unwrap();
    let target = config.forward.unwrap();
    assert_eq!(target, ForwardTarget { url: text("pulsar://b:6650"), topic: text("copy") });
    assert_eq!(target.duplicate(), target);
    assert_eq!(config.url, "pulsar://a:6650");
}

#[test]
fn forward_url_without_topic_forwards_nothing() {
    let mut options = consume_options("events");
    options.forward_to_url = Some(text("pulsar://b:6650"));
    let config = resolve_consume(None, options, plain()).unwrap();
    assert_eq!(config.forward, None);
}

#[test]
fn consume_refuses_malformed_urls() {
    let error = resolve_consume(Some(text("::")), consume_options("t"), plain()).unwrap_err();
    assert_eq!(error, ConfigError::InvalidUrl { text: text("::") });

    let mut options = consume_options("t");
    options.forward_to_topic = Some(text("copy"));
    options.forward_to_url = Some(text("nowhere"));
    let error = resolve_consume(None, options, plain()).unwrap_err();
    assert_eq!(error, ConfigError::InvalidUrl { text: text("nowhere") });
}

#[test]
fn produce_resolves_interval_and_properties() {
    let options = ProduceOptions {
        topic: text("events"),
        producer_name: None,
        interval: Some(text("1s")),
        properties: vec![text("env=prod")],
    };
    let config = resolve_produce(None, options).unwrap();
    assert_eq!(config.url, "pulsar://127.0.0.1");
    assert_eq!(config.interval, Interval { secs: 1, nanos: 0 });
    assert_eq!(config.producer.topic, "events");
    assert_eq!(config.producer.producer_name, "pulsar-cli");
    assert_eq!(config.producer.static_properties.get("env"), Some(text("prod")));
    let copy = config.producer.duplicate();
    assert_eq!(copy.topic, "events");
    assert_eq!(copy.static_properties.to_pairs(), vec![(text("env"), text("prod"))]);
}

#[test]
fn produce_refuses_a_property_without_equals_sign() {
    let options = ProduceOptions {
        topic: text("events"),
        producer_name: Some(text("p")),
        interval: None,
        properties: vec![text("env")],
    };
    let error = resolve_produce(None, options).unwrap_err();
    assert_eq!(error, ConfigError::InvalidProperty { attr: text("env") });
}

#[test]
fn produce_checks_url_then_interval_then_properties() {
    let options = ProduceOptions {
        topic: text("t"),
        producer_name: None,
        interval: Some(text("never")),
        properties: vec![text("bad")],
    };
    let error = resolve_produce(Some(text("no url")), options).unwrap_err();
    assert_eq!(error, ConfigError::InvalidUrl { text: text("no url") });

    let options = ProduceOptions {
        topic: text("t"),
        producer_name: None,
        interval: Some(text("never")),
        properties: vec![text("bad")],
    };
    let error = resolve_produce(None, options).unwrap_err();
    assert_eq!(error, ConfigError::InvalidInterval { text: text("never") });
}

#[test]
fn forward_target_needs_a_topic() {
    let broker = text("pulsar://a:6650");
    assert_eq!(resolve_forward(&broker, None, None), None);
    assert_eq!(resolve_forward(&broker, None, Some(text("pulsar://b:6650"))), None);
    assert_eq!(
        resolve_forward(&broker, Some(text("copy")), None),
        Some(ForwardTarget { url: text("pulsar://a:6650"), topic: text("copy") })
    );
    assert_eq!(
        resolve_forward(&broker, Some(text("copy")), Some(text("pulsar://b:6650"))),
        Some(ForwardTarget { url: text("pulsar://b:6650"), topic: text("copy") })
    );
}

#[test]
fn malformed_property_is_quoted_in_the_message() {
    let error = parse_properties(&vec![text("say \"hi\"")]).unwrap_err();
    assert_eq!(error.message(), "Invalid attr: \"say \\\"hi\\\"\"");
}

#[test]
fn time_span_may_have_eleven_digits() {
    assert!(is_short_span(""));
    assert!(is_short_span("5s"));
    assert!(is_short_span("1h 30min 15s 500ms"));
    assert!(is_short_span("12345678901s"));
    assert!(!is_short_span("123456789012s"));
    assert!(!is_short_span("1h 30min 15s 500ms 250us 100ns"));
    assert!(is_short_span("no digits at all, however long the text may be"));
    assert_eq!(
        resolve_interval(&Some(text("12345678901s"))),
        Ok(Interval { secs: 12_345_678_901, nanos: 0 })
    );
    assert_eq!(
        resolve_interval(&Some(text("99999999999y"))),
        Ok(Interval { secs: 3_155_759_999_968_442_400, nanos: 0 })
    );
    assert_eq!(
        resolve_interval(&Some(text("123456789012s"))),
        Err(ConfigError::InvalidInterval { text: text("123456789012s") })
    );
}

#[test]
fn time_span_that_would_overflow_the_seconds_is_refused() {
    for given in ["18446744073709551615s 1000000000ns", "18446744073709551615s 1000ms"] {
        assert_eq!(
            resolve_interval(&Some(text(given))),
            Err(ConfigError::InvalidInterval { text: text(given) })
        );
    }
}

#[test]
fn parts_of_a_time_span_that_add_up_to_a_second_are_carried() {
    assert_eq!(
        resolve_interval(&Some(text("1s 1000000000ns"))),
        Ok(Interval { secs: 2, nanos: 0 })
    );
    assert_eq!(resolve_interval(&Some(text("500ms 500ms"))), Ok(Interval { secs: 1, nanos: 0 }));
}
