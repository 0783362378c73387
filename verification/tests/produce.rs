use pulsar_cli::config::{resolve_produce, ProduceConfig, ProduceOptions};
use pulsar_cli::interval::Interval;
use pulsar_cli::message::OutboundMessage;
use pulsar_cli::produce::{
    build_message, build_payload, produce_start, produce_step, ProduceAction, ProduceEvent,
    ProduceNotice, ProduceState, ProduceTermination, WallClock, COUNT_FIELD, TIME_FIELD,
};
use pulsar_cli::properties::Properties;

const NOON: WallClock = WallClock { secs: 1_431_648_000, nanos: 0 };

fn config() -> ProduceConfig {
    let options = ProduceOptions {
        topic: "events".to_string(),
        producer_name: None,
        interval: Some("1s".to_string()),
        properties: vec!["env=prod".to_string()],
    };
    resolve_produce(None, options).unwrap()
}

fn sent(action: &ProduceAction) -> (&OutboundMessage, Interval, Interval) {
    match action {
        ProduceAction::Send { message, after, timeout } => (message, *after, *timeout),
        other => panic!("unexpected action {:?}", other),
    }
}

#[test]
fn payload_holds_the_counter_and_the_time() {
    assert_eq!(COUNT_FIELD, "iteration");
    assert_eq!(TIME_FIELD, "timestamp");
    assert_eq!(
        build_payload(0, NOON),
        Some(b"{\"iteration\":0,\"timestamp\":\"2015-05-15T00:00:00Z\"}".to_vec())
    );
    assert_eq!(
        build_payload(12, WallClock { secs: 947_638_923, nanos: 4_000_000 }),
        Some(b"{\"iteration\":12,\"timestamp\":\"2000-01-12T01:02:03.004Z\"}".to_vec())
    );
    assert_eq!(
        build_payload(u64::MAX, WallClock { secs: 0, nanos: 1 }),
        Some(
            b"{\"iteration\":18446744073709551615,\"timestamp\":\"1970-01-01T00:00:00.000000001Z\"}"
                .to_vec()
        )
    );
}

#[test]
fn payload_is_a_json_object_of_two_fields() {
    let bytes = build_payload(7, NOON).unwrap();
    let value: serde_json::Value = serde_json::from_slice(&bytes).unwrap();
    let object = value.as_object().unwrap();
    assert_eq!(object.len(), 2);
    assert_eq!(object["iteration"].as_u64(), Some(7));
    assert_eq!(object["timestamp"].as_str(), Some("2015-05-15T00:00:00Z"));
}

#[test]
fn clock_reading_beyond_the_calendar_gives_no_payload() {
    assert_eq!(build_payload(0, WallClock { secs: i64::MAX, nanos: 0 }), None);
    assert_eq!(build_payload(0, WallClock { secs: 0, nanos: 2_000_000_000 }), None);
}

#[test]
fn message_gets_the_static_properties_and_no_event_time() {
    let props = Properties::from_pairs(vec![("env".to_string(), "prod".to_string())]);
    let message = build_message(&props, b"body".to_vec());
    assert_eq!(message.payload, b"body".to_vec());
    assert_eq!(message.properties.to_pairs(), props.to_pairs());
    assert_eq!(message.event_time, None);
}

#[test]
fn producer_connects_with_backoff_and_then_sleeps() {
    let config = config();
    let step = produce_start(&config);
    match &step.action {
        ProduceAction::Connect { url, producer, after } => {
            assert_eq!(url, "pulsar://127.0.0.1");
            assert_eq!(producer.topic, "events");
            assert_eq!(producer.producer_name, "pulsar-cli");
            assert_eq!(*after, Interval { secs: 0, nanos: 0 });
        }
        other => panic!("unexpected action {:?}", other),
    }
    let step = produce_step(&config, step.state, ProduceEvent::ConnectFailed);
    assert_eq!(
        step.notice,
        Some(ProduceNotice::RetryingConnect { attempt: 0, delay: Interval { secs: 1, nanos: 0 } })
    );
    assert!(matches!(
        step.action,
        ProduceAction::Connect { after: Interval { secs: 1, nanos: 0 }, .. }
    ));
    let step = produce_step(&config, step.state, ProduceEvent::ConnectFailed);
    assert!(matches!(
        step.action,
        ProduceAction::Connect { after: Interval { secs: 2, nanos: 0 }, .. }
    ));
    let step = produce_step(&config, step.state, ProduceEvent::Connected);
    assert_eq!(step.notice, Some(ProduceNotice::Connected));
    assert!(matches!(step.state, ProduceState::Sleeping { iteration: 0 }));
    assert!(matches!(
        step.action,
        ProduceAction::Sleep { interval: Interval { secs: 1, nanos: 0 } }
    ));
}

#[test]
fn every_interval_sends_a_message_with_the_next_counter() {
    let config = config();
    let mut state = ProduceState::Sleeping { iteration: 0 };
    for expected in 0..3u64 {
        let now = WallClock { secs: NOON.secs + expected as i64, nanos: 0 };
        let step = produce_step(&config, state, ProduceEvent::IntervalElapsed { now });
        let (message, after, timeout) = sent(&step.action);
        assert_eq!(after, Interval { secs: 0, nanos: 0 });
        assert_eq!(timeout, Interval { secs: 30, nanos: 0 });
        assert_eq!(message.properties.get("env"), Some("prod".to_string()));
        assert_eq!(message.event_time, None);
        let body: serde_json::Value = serde_json::from_slice(&message.payload).unwrap();
        assert_eq!(body["iteration"].as_u64(), Some(expected));
        assert_eq!(step.notice, None);
        let step = produce_step(&config, step.state, ProduceEvent::SendConfirmed);
        assert_eq!(step.notice, Some(ProduceNotice::Published { iteration: expected }));
        assert!(matches!(
            step.action,
            ProduceAction::Sleep { interval: Interval { secs: 1, nanos: 0 } }
        ));
        state = step.state;
    }
    assert!(matches!(state, ProduceState::Sleeping { iteration: 3 }));
}

#[test]
fn a_failed_send_repeats_the_same_message_after_one_second() {
    let config = config();
    let step = produce_step(
        &config,
        ProduceState::Sleeping { iteration: 4 },
        ProduceEvent::IntervalElapsed { now: NOON },
    );
    let first = sent(&step.action).0.duplicate();
    let mut state = step.state;
    for (event, timed_out) in
        [(ProduceEvent::SendFailed, false), (ProduceEvent::SendTimedOut, true)]
    {
        let step = produce_step(&config, state, event);
        assert_eq!(
            step.notice,
            Some(ProduceNotice::PublishFailed { iteration: 4, timed_out })
        );
        let (message, after, timeout) = sent(&step.action);
        assert_eq!(message.payload, first.payload);
        assert_eq!(message.properties.to_pairs(), first.properties.to_pairs());
        assert_eq!(message.event_time, None);
        assert_eq!(after, Interval { secs: 1, nanos: 0 });
        assert_eq!(timeout, Interval { secs: 30, nanos: 0 });
        assert!(matches!(step.state, ProduceState::Sending { iteration: 4, .. }));
        state = step.state;
    }
    let step = produce_step(&config, state, ProduceEvent::SendConfirmed);
    assert_eq!(step.notice, Some(ProduceNotice::Published { iteration: 4 }));
    assert!(matches!(step.state, ProduceState::Sleeping { iteration: 5 }));
}

#[test]
fn counter_starts_over_after_the_largest_value() {
    let config = config();
    let state = ProduceState::Sending {
        iteration: u64::MAX,
        message: build_message(&Properties::new(), vec![]),
    };
    let step = produce_step(&config, state, ProduceEvent::SendConfirmed);
    assert!(matches!(step.state, ProduceState::Sleeping { iteration: 0 }));
}

#[test]
fn unusable_clock_reading_ends_the_pipeline() {
    let config = config();
    let step = produce_step(
        &config,
        ProduceState::Sleeping { iteration: 0 },
        ProduceEvent::IntervalElapsed { now: WallClock { secs: i64::MIN, nanos: 0 } },
    );
    assert!(matches!(
        step.state,
        ProduceState::Terminated { cause: ProduceTermination::EncodeFailed }
    ));
    assert!(matches!(
        step.action,
        ProduceAction::Stop { cause: ProduceTermination::EncodeFailed }
    ));
}

#[test]
fn an_event_that_answers_nothing_ends_the_producer() {
    let config = config();
    let step =
        produce_step(&config, ProduceState::Sleeping { iteration: 0 }, ProduceEvent::SendConfirmed);
    assert!(matches!(
        step.state,
        ProduceState::Terminated { cause: ProduceTermination::UnexpectedEvent }
    ));
    let step = produce_step(&config, step.state, ProduceEvent::Connected);
    assert!(matches!(
        step.action,
        ProduceAction::Stop { cause: ProduceTermination::UnexpectedEvent }
    ));
    assert_eq!(step.notice, None);
}
