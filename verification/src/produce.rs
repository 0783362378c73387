//! The produce pipeline as a state machine: connect, then for ever sleep,
//! build a message, and send it until the broker has taken it.
//!
//! The caller performs one action at a time and reports how it went as an
//! event. `produce_step` says what to log and what to do next.

use crate::config::{ProduceConfig, ProduceConfigView, ProducerConfig, ProducerConfigView};
use crate::interval::Interval;
use crate::message::{OutboundMessage, OutboundView};
use crate::outside::{encode_record, record_json};
use crate::properties::Properties;
use crate::retry::{RetryPolicy, RetryState, SEND_RETRY_DELAY_MS, SEND_TIMEOUT_MS};
use crate::supervisor::{connect_failed, first_session, reconnect_after};
use vstd::prelude::*;

verus! {

/// The field of the payload that holds the iteration counter.
pub const COUNT_FIELD: &'static str = "iteration";

/// The field of the payload that holds the time of building.
pub const TIME_FIELD: &'static str = "timestamp";

/// A reading of the wall clock: seconds and nanoseconds since the epoch, UTC.
#[derive(Clone, Copy, Debug, PartialEq, Eq, Structural)]
pub struct WallClock {
    pub secs: i64,
    pub nanos: u32,
}

/// Why the pipeline has ended.
#[derive(Clone, Copy, Debug, PartialEq, Eq, Structural)]
pub enum ProduceTermination {
    /// The payload could not be built from the clock reading.
    EncodeFailed,
    /// An event was reported that does not answer the action in progress.
    UnexpectedEvent,
}

/// Where the pipeline stands, named by the outcome it is waiting for.
#[derive(Debug)]
pub enum ProduceState {
    /// An attempt to create the producer.
    Connecting { retry: RetryState },
    /// The end of the interval before message number `iteration`.
    Sleeping { iteration: u64 },
    /// The broker's answer to `message`, which is message number `iteration`.
    Sending { iteration: u64, message: OutboundMessage },
    /// Nothing: the pipeline has ended.
    Terminated { cause: ProduceTermination },
}

pub enum ProduceStateView {
    Connecting { retry: RetryState },
    Sleeping { iteration: u64 },
    Sending { iteration: u64, message: OutboundView },
    Terminated { cause: ProduceTermination },
}

impl View for ProduceState {
    type V = ProduceStateView;

    open spec fn view(&self) -> ProduceStateView {
        match self {
            ProduceState::Connecting { retry } => ProduceStateView::Connecting { retry: *retry },
            ProduceState::Sleeping { iteration } => ProduceStateView::Sleeping {
                iteration: *iteration,
            },
            ProduceState::Sending { iteration, message } => ProduceStateView::Sending {
                iteration: *iteration,
                message: message@,
            },
            ProduceState::Terminated { cause } => ProduceStateView::Terminated { cause: *cause },
        }
    }
}

/// How the action in progress went.
#[derive(Clone, Copy, Debug, PartialEq, Eq, Structural)]
pub enum ProduceEvent {
    ConnectFailed,
    Connected,
    /// The interval is over; the clock shows `now`.
    IntervalElapsed { now: WallClock },
    SendConfirmed,
    SendFailed,
    /// The broker has not answered within the time allowed.
    SendTimedOut,
}

/// Something worth a log entry.
#[derive(Clone, Copy, Debug, PartialEq, Eq, Structural)]
pub enum ProduceNotice {
    /// Failure number `attempt` (from zero) of this session to connect; the
    /// next attempt follows after `delay`.
    RetryingConnect { attempt: u64, delay: Interval },
    /// The producer has been created.
    Connected,
    /// The broker has taken message number `iteration`.
    Published { iteration: u64 },
    /// An attempt to send message number `iteration` has failed; it is sent
    /// again.
    PublishFailed { iteration: u64, timed_out: bool },
}

/// What the caller is to do next.
#[derive(Debug)]
pub enum ProduceAction {
    /// Wait for `after`, then connect to `url` and create the producer.
    Connect { url: String, producer: ProducerConfig, after: Interval },
    /// Wait for `interval`, then read the clock.
    Sleep { interval: Interval },
    /// Wait for `after`, then send `message` and give the broker `timeout`
    /// to confirm it.
    Send { message: OutboundMessage, after: Interval, timeout: Interval },
    /// End the pipeline.
    Stop { cause: ProduceTermination },
}

pub enum ProduceActionView {
    Connect { url: Seq<char>, producer: ProducerConfigView, after: Interval },
    Sleep { interval: Interval },
    Send { message: OutboundView, after: Interval, timeout: Interval },
    Stop { cause: ProduceTermination },
}

impl View for ProduceAction {
    type V = ProduceActionView;

    open spec fn view(&self) -> ProduceActionView {
        match self {
            ProduceAction::Connect { url, producer, after } => ProduceActionView::Connect {
                url: url@,
                producer: producer@,
                after: *after,
            },
            ProduceAction::Sleep { interval } => ProduceActionView::Sleep { interval: *interval },
            ProduceAction::Send { message, after, timeout } => ProduceActionView::Send {
                message: message@,
                after: *after,
                timeout: *timeout,
            },
            ProduceAction::Stop { cause } => ProduceActionView::Stop { cause: *cause },
        }
    }
}

/// The answer to an event.
#[derive(Debug)]
pub struct ProduceStep {
    /// Where the pipeline stands now.
    pub state: ProduceState,
    /// What to log.
    pub notice: Option<ProduceNotice>,
    /// What to do then.
    pub action: ProduceAction,
}

pub struct ProduceStepView {
    pub state: ProduceStateView,
    pub notice: Option<ProduceNotice>,
    pub action: ProduceActionView,
}

impl View for ProduceStep {
    type V = ProduceStepView;

    open spec fn view(&self) -> ProduceStepView {
        ProduceStepView { state: self.state@, notice: self.notice, action: self.action@ }
    }
}

/// The counter after `iteration`: one more, and zero after the largest.
pub open spec fn next_iteration(iteration: u64) -> u64 {
    if iteration == u64::MAX {
        0
    } else {
        (iteration + 1) as u64
    }
}

/// The payload of message number `iteration`, built when the clock shows
/// `now`; `None` where the clock reading stands for no instant.
pub open spec fn payload_for(iteration: u64, now: WallClock) -> Option<Seq<u8>> {
    record_json(COUNT_FIELD@, iteration, TIME_FIELD@, now.secs, now.nanos)
}

/// The message that carries `payload`: the configured properties, no event
/// time.
pub open spec fn message_for(config: ProduceConfigView, payload: Seq<u8>) -> OutboundView {
    OutboundView { payload, properties: config.producer.static_properties, event_time: None }
}

/// The delay before a message is sent again.
pub open spec fn send_retry_delay() -> Interval {
    Interval::of_millis(SEND_RETRY_DELAY_MS)
}

/// The time the broker is given to confirm a message.
pub open spec fn send_timeout() -> Interval {
    Interval::of_millis(SEND_TIMEOUT_MS)
}

/// The step that ends the pipeline for `cause`.
pub open spec fn halted(cause: ProduceTermination) -> ProduceStepView {
    ProduceStepView {
        state: ProduceStateView::Terminated { cause },
        notice: None,
        action: ProduceActionView::Stop { cause },
    }
}

/// The first step of a pipeline: connect at once, with a fresh retry session.
pub open spec fn produce_first(config: ProduceConfigView) -> ProduceStepView {
    ProduceStepView {
        state: ProduceStateView::Connecting {
            retry: RetryPolicy::for_connect_spec().fresh(),
        },
        notice: None,
        action: ProduceActionView::Connect {
            url: config.url,
            producer: config.producer,
            after: Interval { secs: 0, nanos: 0 },
        },
    }
}

/// The pipeline's answer to `event` in `state`.
pub open spec fn produce_next(
    config: ProduceConfigView,
    state: ProduceStateView,
    event: ProduceEvent,
) -> ProduceStepView {
    match state {
        ProduceStateView::Connecting { retry } => match event {
            ProduceEvent::ConnectFailed => {
                let next = reconnect_after(retry);
                ProduceStepView {
                    state: ProduceStateView::Connecting { retry: next.retry },
                    notice: Some(
                        ProduceNotice::RetryingConnect { attempt: next.attempt, delay: next.delay },
                    ),
                    action: ProduceActionView::Connect {
                        url: config.url,
                        producer: config.producer,
                        after: next.delay,
                    },
                }
            },
            ProduceEvent::Connected => ProduceStepView {
                state: ProduceStateView::Sleeping { iteration: 0 },
                notice: Some(ProduceNotice::Connected),
                action: ProduceActionView::Sleep { interval: config.interval },
            },
            _ => halted(ProduceTermination::UnexpectedEvent),
        },
        ProduceStateView::Sleeping { iteration } => match event {
            ProduceEvent::IntervalElapsed { now } => match payload_for(iteration, now) {
                Some(payload) => ProduceStepView {
                    state: ProduceStateView::Sending {
                        iteration,
                        message: message_for(config, payload),
                    },
                    notice: None,
                    action: ProduceActionView::Send {
                        message: message_for(config, payload),
                        after: Interval { secs: 0, nanos: 0 },
                        timeout: send_timeout(),
                    },
                },
                None => halted(ProduceTermination::EncodeFailed),
            },
            _ => halted(ProduceTermination::UnexpectedEvent),
        },
        ProduceStateView::Sending { iteration, message } => match event {
            ProduceEvent::SendConfirmed => ProduceStepView {
                state: ProduceStateView::Sleeping { iteration: next_iteration(iteration) },
                notice: Some(ProduceNotice::Published { iteration }),
                action: ProduceActionView::Sleep { interval: config.interval },
            },
            ProduceEvent::SendFailed => ProduceStepView {
                state: ProduceStateView::Sending { iteration, message },
                notice: Some(ProduceNotice::PublishFailed { iteration, timed_out: false }),
                action: ProduceActionView::Send {
                    message,
                    after: send_retry_delay(),
                    timeout: send_timeout(),
                },
            },
            ProduceEvent::SendTimedOut => ProduceStepView {
                state: ProduceStateView::Sending { iteration, message },
                notice: Some(ProduceNotice::PublishFailed { iteration, timed_out: true }),
                action: ProduceActionView::Send {
                    message,
                    after: send_retry_delay(),
                    timeout: send_timeout(),
                },
            },
            _ => halted(ProduceTermination::UnexpectedEvent),
        },
        ProduceStateView::Terminated { cause } => halted(cause),
    }
}

/// Builds the payload of message number `iteration` at the time `now`: a
/// JSON object with the counter and the time.
pub fn build_payload(iteration: u64, now: WallClock) -> (payload: Option<Vec<u8>>)
    ensures
        payload matches Some(bytes) ==> payload_for(iteration, now) == Some(bytes@),
        payload is None ==> payload_for(iteration, now) is None,
{
    encode_record(COUNT_FIELD, iteration, TIME_FIELD, now.secs, now.nanos)
}

/// Builds the message that carries `payload`, with a copy of the
/// properties that every message gets.
pub fn build_message(static_properties: &Properties, payload: Vec<u8>) -> (message: OutboundMessage)
    ensures
        message@ == (OutboundView {
            payload: payload@,
            properties: static_properties.entries(),
            event_time: None,
        }),
{
    OutboundMessage { payload, properties: static_properties.duplicate(), event_time: None }
}

fn halt(cause: ProduceTermination) -> (step: ProduceStep)
    ensures
        step@ == halted(cause),
{
    ProduceStep {
        state: ProduceState::Terminated { cause },
        notice: None,
        action: ProduceAction::Stop { cause },
    }
}

fn send_again(iteration: u64, message: OutboundMessage, timed_out: bool) -> (step: ProduceStep)
    ensures
        step@ == (ProduceStepView {
            state: ProduceStateView::Sending { iteration, message: message@ },
            notice: Some(ProduceNotice::PublishFailed { iteration, timed_out }),
            action: ProduceActionView::Send {
                message: message@,
                after: send_retry_delay(),
                timeout: send_timeout(),
            },
        }),
{
    let again = message.duplicate();
    ProduceStep {
        state: ProduceState::Sending { iteration, message },
        notice: Some(ProduceNotice::PublishFailed { iteration, timed_out }),
        action: ProduceAction::Send {
            message: again,
            after: Interval::from_millis(SEND_RETRY_DELAY_MS),
            timeout: Interval::from_millis(SEND_TIMEOUT_MS),
        },
    }
}

/// Starts the pipeline: the producer is to be created at once.
pub fn produce_start(config: &ProduceConfig) -> (step: ProduceStep)
    ensures
        step@ == produce_first(config@),
{
    ProduceStep {
        state: ProduceState::Connecting { retry: first_session() },
        notice: None,
        action: ProduceAction::Connect {
            url: config.url.clone(),
            producer: config.producer.duplicate(),
            after: Interval::zero(),
        },
    }
}

/// Answers `event`, which reports how the action given with `state` went.
///
/// A failed attempt to create the producer is retried for ever, each time
/// after a longer delay. A message that the broker has not taken is sent
/// again after a fixed delay, unchanged, until it has been taken; only then
/// does the counter move on.
pub fn produce_step(config: &ProduceConfig, state: ProduceState, event: ProduceEvent) -> (step:
    ProduceStep)
    ensures
        step@ == produce_next(config@, state@, event),
{
    match state {
        ProduceState::Connecting { retry } => match event {
            ProduceEvent::ConnectFailed => {
                let next = connect_failed(retry);
                ProduceStep {
                    state: ProduceState::Connecting { retry: next.retry },
                    notice: Some(
                        ProduceNotice::RetryingConnect { attempt: next.attempt, delay: next.delay },
                    ),
                    action: ProduceAction::Connect {
                        url: config.url.clone(),
                        producer: config.producer.duplicate(),
                        after: next.delay,
                    },
                }
            },
            ProduceEvent::Connected => ProduceStep {
                state: ProduceState::Sleeping { iteration: 0 },
                notice: Some(ProduceNotice::Connected),
                action: ProduceAction::Sleep { interval: config.interval },
            },
            _ => halt(ProduceTermination::UnexpectedEvent),
        },
        ProduceState::Sleeping { iteration } => match event {
            ProduceEvent::IntervalElapsed { now } => match build_payload(iteration, now) {
                Some(payload) => {
                    let message = build_message(&config.producer.static_properties, payload);
                    let first = message.duplicate();
                    ProduceStep {
                        state: ProduceState::Sending { iteration, message },
                        notice: None,
                        action: ProduceAction::Send {
                            message: first,
                            after: Interval::zero(),
                            timeout: Interval::from_millis(SEND_TIMEOUT_MS),
                        },
                    }
                },
                None => halt(ProduceTermination::EncodeFailed),
            },
            _ => halt(ProduceTermination::UnexpectedEvent),
        },
        ProduceState::Sending { iteration, message } => match event {
            ProduceEvent::SendConfirmed => ProduceStep {
                state: ProduceState::Sleeping { iteration: iteration.wrapping_add(1) },
                notice: Some(ProduceNotice::Published { iteration }),
                action: ProduceAction::Sleep { interval: config.interval },
            },
            ProduceEvent::SendFailed => send_again(iteration, message, false),
            ProduceEvent::SendTimedOut => send_again(iteration, message, true),
            _ => halt(ProduceTermination::UnexpectedEvent),
        },
        ProduceState::Terminated { cause } => halt(cause),
    }
}

/// The state of a pipeline whose first `n` attempts to create the producer
/// have all failed.
pub open spec fn connecting_after(config: ProduceConfigView, n: nat) -> ProduceStateView
    decreases n,
{
    if n == 0 {
        produce_first(config).state
    } else {
        produce_next(
            config,
            connecting_after(config, (n - 1) as nat),
            ProduceEvent::ConnectFailed,
        ).state
    }
}

/// However often the producer cannot be created, the pipeline does not end:
/// it is still connecting, and the next failure is answered with another
/// attempt, after the delay the connect schedule gives for it. The first
/// success after that starts the first interval.
pub proof fn law_connect_never_gives_up(config: ProduceConfigView, n: nat)
    ensures
        connecting_after(config, n) == (ProduceStateView::Connecting {
            retry: RetryPolicy::for_connect_spec().fresh().after_failures(n),
        }),
        produce_next(config, connecting_after(config, n), ProduceEvent::ConnectFailed).action
            == (ProduceActionView::Connect {
            url: config.url,
            producer: config.producer,
            after: reconnect_after(RetryPolicy::for_connect_spec().fresh().after_failures(n)).delay,
        }),
        produce_next(config, connecting_after(config, n), ProduceEvent::Connected).action
            == (ProduceActionView::Sleep { interval: config.interval }),
    decreases n,
{
    if n > 0 {
        law_connect_never_gives_up(config, (n - 1) as nat);
    }
}

/// The state after `failures` attempts to send in a row have failed or
/// timed out, as `timed_out` says for each.
pub open spec fn after_send_failures(
    config: ProduceConfigView,
    state: ProduceStateView,
    timed_out: Seq<bool>,
) -> ProduceStateView
    decreases timed_out.len(),
{
    if timed_out.len() == 0 {
        state
    } else {
        let before = after_send_failures(config, state, timed_out.drop_last());
        produce_next(
            config,
            before,
            if timed_out.last() {
                ProduceEvent::SendTimedOut
            } else {
                ProduceEvent::SendFailed
            },
        ).state
    }
}

/// A send that fails or times out changes neither the counter nor the
/// message: the same message is sent again after the fixed delay.
pub proof fn law_failed_send_repeats_message(
    config: ProduceConfigView,
    iteration: u64,
    message: OutboundView,
    timed_out: bool,
)
    ensures
        ({
            let event = if timed_out {
                ProduceEvent::SendTimedOut
            } else {
                ProduceEvent::SendFailed
            };
            let step = produce_next(
                config,
                ProduceStateView::Sending { iteration, message },
                event,
            );
            &&& step.state == (ProduceStateView::Sending { iteration, message })
            &&& step.action == (ProduceActionView::Send {
                message,
                after: Interval { secs: 1, nanos: 0 },
                timeout: Interval { secs: 30, nanos: 0 },
            })
        }),
{
}

/// However often a message has to be sent again, its confirmation moves
/// the counter on by exactly one, and the confirmation is reported for the
/// number the message was built with.
pub proof fn law_counter_steps_by_one(
    config: ProduceConfigView,
    iteration: u64,
    message: OutboundView,
    timed_out: Seq<bool>,
)
    requires
        iteration < u64::MAX,
    ensures
        ({
            let sending = ProduceStateView::Sending { iteration, message };
            let step = produce_next(
                config,
                after_send_failures(config, sending, timed_out),
                ProduceEvent::SendConfirmed,
            );
            &&& after_send_failures(config, sending, timed_out) == sending
            &&& step.state == (ProduceStateView::Sleeping { iteration: (iteration + 1) as u64 })
            &&& step.notice == Some(ProduceNotice::Published { iteration })
            &&& step.action == (ProduceActionView::Sleep { interval: config.interval })
        }),
    decreases timed_out.len(),
{
    if timed_out.len() > 0 {
        law_counter_steps_by_one(config, iteration, message, timed_out.drop_last());
    }
}

/// The first message is number zero, and the message built at the end of an
/// interval carries the counter of that interval and the configured
/// properties.
pub proof fn law_message_carries_counter(config: ProduceConfigView, iteration: u64, now: WallClock)
    ensures
        produce_next(
            config,
            ProduceStateView::Connecting { retry: RetryPolicy::for_connect_spec().fresh() },
            ProduceEvent::Connected,
        ).state == (ProduceStateView::Sleeping { iteration: 0 }),
        payload_for(iteration, now) is Some ==> produce_next(
            config,
            ProduceStateView::Sleeping { iteration },
            ProduceEvent::IntervalElapsed { now },
        ).state == (ProduceStateView::Sending {
            iteration,
            message: OutboundView {
                payload: payload_for(iteration, now)->0,
                properties: config.producer.static_properties,
                event_time: None,
            },
        }),
{
}

} // verus!
