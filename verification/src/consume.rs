//! The consume pipeline as a state machine: connect, stream, show, forward,
//! acknowledge.
//!
//! The caller performs one action at a time and reports how it went as an
//! event. `consume_step` says what to show and what to do next. Nothing is
//! done for a message before it has been received, and the next message is
//! asked for only when the current one has been forwarded and acknowledged
//! as configured.

use crate::config::{ConsumeConfig, ConsumeConfigView, Subscription, SubscriptionView};
use crate::forward::{forward_message, ForwardTarget, ForwardTargetView};
use crate::interval::Interval;
use crate::message::{Message, MessageView, OutboundMessage, OutboundView};
use crate::outside::{json_rendering, quoted_text};
use crate::render::{
    lines_view, message_lines, payload_text, render_message, warning_text, Line, LineView,
};
use crate::retry::{RetryPolicy, RetryState};
use crate::supervisor::{connect_failed, first_session, reconnect_after};
use vstd::prelude::*;

verus! {

/// Why the pipeline has ended.
#[derive(Clone, Copy, Debug, PartialEq, Eq, Structural)]
pub enum Termination {
    /// The stream of messages has come to its end.
    EndOfInput,
    /// The producer to forward with could not be created.
    ForwarderConnectFailed,
    /// The next message could not be retrieved.
    ReceiveFailed,
    /// A message could not be forwarded.
    ForwardFailed,
    /// A message could not be acknowledged.
    AcknowledgeFailed,
    /// An event was reported that does not answer the action in progress.
    UnexpectedEvent,
}

/// Where the pipeline stands, named by the outcome it is waiting for.
#[derive(Clone, Copy, Debug)]
pub enum ConsumeState {
    /// An attempt to create the consumer.
    Connecting { retry: RetryState },
    /// The attempt to create the producer to forward with.
    ConnectingForwarder,
    /// The next message.
    Streaming,
    /// The confirmation that the current message has been forwarded.
    Forwarding,
    /// The confirmation that the current message has been acknowledged.
    Acknowledging,
    /// Nothing: the pipeline has ended.
    Terminated { cause: Termination },
}

/// How the action in progress went.
#[derive(Debug)]
pub enum ConsumeEvent {
    ConnectFailed,
    Connected,
    ForwarderConnectFailed,
    ForwarderConnected,
    Received { message: Message },
    EndOfInput,
    ReceiveFailed,
    ForwardConfirmed,
    ForwardFailed,
    AckConfirmed,
    AckFailed,
}

pub enum ConsumeEventView {
    ConnectFailed,
    Connected,
    ForwarderConnectFailed,
    ForwarderConnected,
    Received { message: MessageView },
    EndOfInput,
    ReceiveFailed,
    ForwardConfirmed,
    ForwardFailed,
    AckConfirmed,
    AckFailed,
}

impl View for ConsumeEvent {
    type V = ConsumeEventView;

    open spec fn view(&self) -> ConsumeEventView {
        match self {
            ConsumeEvent::ConnectFailed => ConsumeEventView::ConnectFailed,
            ConsumeEvent::Connected => ConsumeEventView::Connected,
            ConsumeEvent::ForwarderConnectFailed => ConsumeEventView::ForwarderConnectFailed,
            ConsumeEvent::ForwarderConnected => ConsumeEventView::ForwarderConnected,
            ConsumeEvent::Received { message } => ConsumeEventView::Received { message: message@ },
            ConsumeEvent::EndOfInput => ConsumeEventView::EndOfInput,
            ConsumeEvent::ReceiveFailed => ConsumeEventView::ReceiveFailed,
            ConsumeEvent::ForwardConfirmed => ConsumeEventView::ForwardConfirmed,
            ConsumeEvent::ForwardFailed => ConsumeEventView::ForwardFailed,
            ConsumeEvent::AckConfirmed => ConsumeEventView::AckConfirmed,
            ConsumeEvent::AckFailed => ConsumeEventView::AckFailed,
        }
    }
}

/// Something worth a log entry.
#[derive(Clone, Copy, Debug, PartialEq, Eq, Structural)]
pub enum ConsumeNotice {
    /// Failure number `attempt` (from zero) of this session to connect; the
    /// next attempt follows after `delay`.
    RetryingConnect { attempt: u64, delay: Interval },
    /// The consumer has been created.
    Connected,
}

/// What the caller is to do next.
#[derive(Debug)]
pub enum ConsumeAction {
    /// Wait for `after`, then connect to `url` and subscribe.
    Connect { url: String, subscription: Subscription, after: Interval },
    /// Create the producer to forward with.
    ConnectForwarder { target: ForwardTarget },
    /// Retrieve the next message.
    Receive,
    /// Send `message` with the forwarding producer and wait for the
    /// confirmation.
    Forward { message: OutboundMessage },
    /// Acknowledge the message that was received last.
    Acknowledge,
    /// End the pipeline.
    Stop { cause: Termination },
}

pub enum ConsumeActionView {
    Connect { url: Seq<char>, subscription: SubscriptionView, after: Interval },
    ConnectForwarder { target: ForwardTargetView },
    Receive,
    Forward { message: OutboundView },
    Acknowledge,
    Stop { cause: Termination },
}

impl View for ConsumeAction {
    type V = ConsumeActionView;

    open spec fn view(&self) -> ConsumeActionView {
        match self {
            ConsumeAction::Connect { url, subscription, after } => ConsumeActionView::Connect {
                url: url@,
                subscription: subscription@,
                after: *after,
            },
            ConsumeAction::ConnectForwarder { target } => ConsumeActionView::ConnectForwarder {
                target: target@,
            },
            ConsumeAction::Receive => ConsumeActionView::Receive,
            ConsumeAction::Forward { message } => ConsumeActionView::Forward { message: message@ },
            ConsumeAction::Acknowledge => ConsumeActionView::Acknowledge,
            ConsumeAction::Stop { cause } => ConsumeActionView::Stop { cause: *cause },
        }
    }
}

/// The answer to an event.
#[derive(Debug)]
pub struct ConsumeStep {
    /// Where the pipeline stands now.
    pub state: ConsumeState,
    /// What to log.
    pub notice: Option<ConsumeNotice>,
    /// What to print, in order, before anything else is done.
    pub lines: Vec<Line>,
    /// What to do then.
    pub action: ConsumeAction,
}

pub struct ConsumeStepView {
    pub state: ConsumeState,
    pub notice: Option<ConsumeNotice>,
    pub lines: Seq<LineView>,
    pub action: ConsumeActionView,
}

impl View for ConsumeStep {
    type V = ConsumeStepView;

    open spec fn view(&self) -> ConsumeStepView {
        ConsumeStepView {
            state: self.state,
            notice: self.notice,
            lines: lines_view(self.lines@),
            action: self.action@,
        }
    }
}

/// The step that ends the pipeline for `cause`.
pub open spec fn stopped(cause: Termination) -> ConsumeStepView {
    ConsumeStepView {
        state: ConsumeState::Terminated { cause },
        notice: None,
        lines: Seq::empty(),
        action: ConsumeActionView::Stop { cause },
    }
}

/// The step that follows once a message needs no more forwarding: it is
/// acknowledged if that is configured, and else the next one is asked for.
pub open spec fn settled(config: ConsumeConfigView, lines: Seq<LineView>) -> ConsumeStepView {
    if config.ack {
        ConsumeStepView {
            state: ConsumeState::Acknowledging,
            notice: None,
            lines,
            action: ConsumeActionView::Acknowledge,
        }
    } else {
        ConsumeStepView {
            state: ConsumeState::Streaming,
            notice: None,
            lines,
            action: ConsumeActionView::Receive,
        }
    }
}

/// The first step of a pipeline: connect at once, with a fresh retry session.
pub open spec fn consume_first(config: ConsumeConfigView) -> ConsumeStepView {
    ConsumeStepView {
        state: ConsumeState::Connecting {
            retry: RetryPolicy::for_connect_spec().fresh(),
        },
        notice: None,
        lines: Seq::empty(),
        action: ConsumeActionView::Connect {
            url: config.url,
            subscription: config.subscription,
            after: Interval { secs: 0, nanos: 0 },
        },
    }
}

/// The pipeline's answer to `event` in `state`.
pub open spec fn consume_next(
    config: ConsumeConfigView,
    state: ConsumeState,
    event: ConsumeEventView,
) -> ConsumeStepView {
    match state {
        ConsumeState::Connecting { retry } => match event {
            ConsumeEventView::ConnectFailed => {
                let next = reconnect_after(retry);
                ConsumeStepView {
                    state: ConsumeState::Connecting { retry: next.retry },
                    notice: Some(
                        ConsumeNotice::RetryingConnect { attempt: next.attempt, delay: next.delay },
                    ),
                    lines: Seq::empty(),
                    action: ConsumeActionView::Connect {
                        url: config.url,
                        subscription: config.subscription,
                        after: next.delay,
                    },
                }
            },
            ConsumeEventView::Connected => match config.forward {
                Some(target) => ConsumeStepView {
                    state: ConsumeState::ConnectingForwarder,
                    notice: Some(ConsumeNotice::Connected),
                    lines: Seq::empty(),
                    action: ConsumeActionView::ConnectForwarder { target },
                },
                None => ConsumeStepView {
                    state: ConsumeState::Streaming,
                    notice: Some(ConsumeNotice::Connected),
                    lines: Seq::empty(),
                    action: ConsumeActionView::Receive,
                },
            },
            _ => stopped(Termination::UnexpectedEvent),
        },
        ConsumeState::ConnectingForwarder => match event {
            ConsumeEventView::ForwarderConnected => ConsumeStepView {
                state: ConsumeState::Streaming,
                notice: None,
                lines: Seq::empty(),
                action: ConsumeActionView::Receive,
            },
            ConsumeEventView::ForwarderConnectFailed => stopped(
                Termination::ForwarderConnectFailed,
            ),
            _ => stopped(Termination::UnexpectedEvent),
        },
        ConsumeState::Streaming => match event {
            ConsumeEventView::Received { message } => {
                let lines = message_lines(config.ansi, config.json, message);
                if config.forward is Some {
                    ConsumeStepView {
                        state: ConsumeState::Forwarding,
                        notice: None,
                        lines,
                        action: ConsumeActionView::Forward { message: message.forwarded() },
                    }
                } else {
                    settled(config, lines)
                }
            },
            ConsumeEventView::EndOfInput => stopped(Termination::EndOfInput),
            ConsumeEventView::ReceiveFailed => stopped(Termination::ReceiveFailed),
            _ => stopped(Termination::UnexpectedEvent),
        },
        ConsumeState::Forwarding => match event {
            ConsumeEventView::ForwardConfirmed => settled(config, Seq::empty()),
            ConsumeEventView::ForwardFailed => stopped(Termination::ForwardFailed),
            _ => stopped(Termination::UnexpectedEvent),
        },
        ConsumeState::Acknowledging => match event {
            ConsumeEventView::AckConfirmed => ConsumeStepView {
                state: ConsumeState::Streaming,
                notice: None,
                lines: Seq::empty(),
                action: ConsumeActionView::Receive,
            },
            ConsumeEventView::AckFailed => stopped(Termination::AcknowledgeFailed),
            _ => stopped(Termination::UnexpectedEvent),
        },
        ConsumeState::Terminated { cause } => stopped(cause),
    }
}

fn stop(cause: Termination) -> (step: ConsumeStep)
    ensures
        step@ == stopped(cause),
{
    let lines: Vec<Line> = Vec::new();
    assert(lines_view(lines@) =~= Seq::empty());
    ConsumeStep {
        state: ConsumeState::Terminated { cause },
        notice: None,
        lines,
        action: ConsumeAction::Stop { cause },
    }
}

fn receive_next(notice: Option<ConsumeNotice>) -> (step: ConsumeStep)
    ensures
        step@ == (ConsumeStepView {
            state: ConsumeState::Streaming,
            notice,
            lines: Seq::empty(),
            action: ConsumeActionView::Receive,
        }),
{
    let lines: Vec<Line> = Vec::new();
    assert(lines_view(lines@) =~= Seq::empty());
    ConsumeStep { state: ConsumeState::Streaming, notice, lines, action: ConsumeAction::Receive }
}

fn settle(config: &ConsumeConfig, lines: Vec<Line>) -> (step: ConsumeStep)
    ensures
        step@ == settled(config@, lines_view(lines@)),
{
    if config.ack {
        ConsumeStep {
            state: ConsumeState::Acknowledging,
            notice: None,
            lines,
            action: ConsumeAction::Acknowledge,
        }
    } else {
        ConsumeStep {
            state: ConsumeState::Streaming,
            notice: None,
            lines,
            action: ConsumeAction::Receive,
        }
    }
}

/// Starts the pipeline: the consumer is to be created at once.
pub fn consume_start(config: &ConsumeConfig) -> (step: ConsumeStep)
    ensures
        step@ == consume_first(config@),
{
    let lines: Vec<Line> = Vec::new();
    assert(lines_view(lines@) =~= Seq::empty());
    ConsumeStep {
        state: ConsumeState::Connecting { retry: first_session() },
        notice: None,
        lines,
        action: ConsumeAction::Connect {
            url: config.url.clone(),
            subscription: config.subscription.duplicate(),
            after: Interval::zero(),
        },
    }
}

/// Answers `event`, which reports how the action given with `state` went.
///
/// A failed attempt to create the consumer is retried for ever, each time
/// after a longer delay and with a subscription built anew. Every other
/// failure ends the pipeline, and so does an event that does not answer the
/// action in progress.
pub fn consume_step(config: &ConsumeConfig, state: ConsumeState, event: ConsumeEvent) -> (step:
    ConsumeStep)
    ensures
        step@ == consume_next(config@, state, event@),
{
    match state {
        ConsumeState::Connecting { retry } => match event {
            ConsumeEvent::ConnectFailed => {
                let next = connect_failed(retry);
                let lines: Vec<Line> = Vec::new();
                assert(lines_view(lines@) =~= Seq::empty());
                ConsumeStep {
                    state: ConsumeState::Connecting { retry: next.retry },
                    notice: Some(
                        ConsumeNotice::RetryingConnect { attempt: next.attempt, delay: next.delay },
                    ),
                    lines,
                    action: ConsumeAction::Connect {
                        url: config.url.clone(),
                        subscription: config.subscription.duplicate(),
                        after: next.delay,
                    },
                }
            },
            ConsumeEvent::Connected => match &config.forward {
                Some(target) => {
                    let lines: Vec<Line> = Vec::new();
                    assert(lines_view(lines@) =~= Seq::empty());
                    ConsumeStep {
                        state: ConsumeState::ConnectingForwarder,
                        notice: Some(ConsumeNotice::Connected),
                        lines,
                        action: ConsumeAction::ConnectForwarder { target: target.duplicate() },
                    }
                },
                None => receive_next(Some(ConsumeNotice::Connected)),
            },
            _ => stop(Termination::UnexpectedEvent),
        },
        ConsumeState::ConnectingForwarder => match event {
            ConsumeEvent::ForwarderConnected => receive_next(None),
            ConsumeEvent::ForwarderConnectFailed => stop(Termination::ForwarderConnectFailed),
            _ => stop(Termination::UnexpectedEvent),
        },
        ConsumeState::Streaming => match event {
            ConsumeEvent::Received { message } => {
                let lines = render_message(config.ansi, config.json, &message);
                if config.forward.is_some() {
                    let at = message.effective_timestamp();
                    ConsumeStep {
                        state: ConsumeState::Forwarding,
                        notice: None,
                        lines,
                        action: ConsumeAction::Forward { message: forward_message(&message, at) },
                    }
                } else {
                    settle(config, lines)
                }
            },
            ConsumeEvent::EndOfInput => stop(Termination::EndOfInput),
            ConsumeEvent::ReceiveFailed => stop(Termination::ReceiveFailed),
            _ => stop(Termination::UnexpectedEvent),
        },
        ConsumeState::Forwarding => match event {
            ConsumeEvent::ForwardConfirmed => {
                let lines: Vec<Line> = Vec::new();
                assert(lines_view(lines@) =~= Seq::empty());
                settle(config, lines)
            },
            ConsumeEvent::ForwardFailed => stop(Termination::ForwardFailed),
            _ => stop(Termination::UnexpectedEvent),
        },
        ConsumeState::Acknowledging => match event {
            ConsumeEvent::AckConfirmed => receive_next(None),
            ConsumeEvent::AckFailed => stop(Termination::AcknowledgeFailed),
            _ => stop(Termination::UnexpectedEvent),
        },
        ConsumeState::Terminated { cause } => stop(cause),
    }
}

/// The actions that handling the message `m` takes, from its receipt to the
/// request for the next message, where every one of them succeeds.
pub open spec fn handling(config: ConsumeConfigView, m: MessageView) -> Seq<ConsumeActionView> {
    let first = consume_next(
        config,
        ConsumeState::Streaming,
        ConsumeEventView::Received { message: m },
    );
    if first.action is Forward {
        let second = consume_next(config, first.state, ConsumeEventView::ForwardConfirmed);
        if second.action is Acknowledge {
            let third = consume_next(config, second.state, ConsumeEventView::AckConfirmed);
            seq![first.action, second.action, third.action]
        } else {
            seq![first.action, second.action]
        }
    } else if first.action is Acknowledge {
        let second = consume_next(config, first.state, ConsumeEventView::AckConfirmed);
        seq![first.action, second.action]
    } else {
        seq![first.action]
    }
}

/// With forwarding configured, what is sent on for a received message has
/// the payload bytes and the property map of that message, and its
/// effective timestamp as the event time.
pub proof fn law_forwarded_copy_is_faithful(config: ConsumeConfigView, m: MessageView)
    requires
        config.forward is Some,
    ensures
        consume_next(
            config,
            ConsumeState::Streaming,
            ConsumeEventView::Received { message: m },
        ).action == (ConsumeActionView::Forward { message: m.forwarded() }),
        m.forwarded().payload == m.payload,
        m.forwarded().property_map() == m.property_map(),
        m.forwarded().event_time == Some(m.effective_timestamp()),
{
}

/// A message is forwarded if and only if a forward target is configured,
/// and acknowledged if and only if acknowledgment is configured: forwarding
/// first, the acknowledgment after its confirmation, the request for the
/// next message last.
pub proof fn law_forward_and_ack_as_configured(config: ConsumeConfigView, m: MessageView)
    ensures
        handling(config, m) == (if config.forward is Some {
            seq![ConsumeActionView::Forward { message: m.forwarded() }]
        } else {
            Seq::<ConsumeActionView>::empty()
        }) + (if config.ack {
            seq![ConsumeActionView::Acknowledge]
        } else {
            Seq::<ConsumeActionView>::empty()
        }) + seq![ConsumeActionView::Receive],
{
    let expected = (if config.forward is Some {
        seq![ConsumeActionView::Forward { message: m.forwarded() }]
    } else {
        Seq::<ConsumeActionView>::empty()
    }) + (if config.ack {
        seq![ConsumeActionView::Acknowledge]
    } else {
        Seq::<ConsumeActionView>::empty()
    }) + seq![ConsumeActionView::Receive];
    assert(handling(config, m) =~= expected);
}

/// In no state and on no event is anything forwarded without a forward
/// target or acknowledged without acknowledgment being configured.
pub proof fn law_no_unconfigured_side_effect(
    config: ConsumeConfigView,
    state: ConsumeState,
    event: ConsumeEventView,
)
    ensures
        consume_next(config, state, event).action is Forward ==> config.forward is Some,
        consume_next(config, state, event).action is ConnectForwarder ==> config.forward is Some,
        consume_next(config, state, event).action is Acknowledge ==> config.ack,
{
}

/// No payload ends the pipeline: whatever a received message holds, the
/// pipeline goes on to forward and acknowledge it as configured and then
/// asks for the next one. With JSON rendering on, a payload that is no JSON
/// document is reported on the error stream and is not printed.
pub proof fn law_unparsable_payload_is_not_fatal(config: ConsumeConfigView, m: MessageView)
    ensures
        !(consume_next(
            config,
            ConsumeState::Streaming,
            ConsumeEventView::Received { message: m },
        ).state is Terminated),
        handling(config, m).last() == ConsumeActionView::Receive,
        config.json && json_rendering(m.payload) is None ==> consume_next(
            config,
            ConsumeState::Streaming,
            ConsumeEventView::Received { message: m },
        ).lines.last() == LineView::Stderr(
            warning_text(config.ansi, quoted_text(payload_text(m.payload))),
        ),
        config.json && json_rendering(m.payload) is Some ==> consume_next(
            config,
            ConsumeState::Streaming,
            ConsumeEventView::Received { message: m },
        ).lines.last() == LineView::Json(json_rendering(m.payload)->0),
{
    law_forward_and_ack_as_configured(config, m);
}

/// The state of a pipeline whose first `n` attempts to create the consumer
/// have all failed.
pub open spec fn connecting_after(config: ConsumeConfigView, n: nat) -> ConsumeState
    decreases n,
{
    if n == 0 {
        consume_first(config).state
    } else {
        consume_next(
            config,
            connecting_after(config, (n - 1) as nat),
            ConsumeEventView::ConnectFailed,
        ).state
    }
}

/// However often the consumer cannot be created, the pipeline does not end:
/// it is still connecting, and the next failure is answered with another
/// attempt, after the delay the connect schedule gives for it. The first
/// success after that starts the streaming, or the creation of the
/// forwarding producer where one is configured.
pub proof fn law_connect_never_gives_up(config: ConsumeConfigView, n: nat)
    ensures
        connecting_after(config, n) == (ConsumeState::Connecting {
            retry: RetryPolicy::for_connect_spec().fresh().after_failures(n),
        }),
        consume_next(config, connecting_after(config, n), ConsumeEventView::ConnectFailed).action
            == (ConsumeActionView::Connect {
            url: config.url,
            subscription: config.subscription,
            after: reconnect_after(RetryPolicy::for_connect_spec().fresh().after_failures(n)).delay,
        }),
        consume_next(config, connecting_after(config, n), ConsumeEventView::Connected).state
            == if config.forward is Some {
            ConsumeState::ConnectingForwarder
        } else {
            ConsumeState::Streaming
        },
    decreases n,
{
    if n > 0 {
        law_connect_never_gives_up(config, (n - 1) as nat);
    }
}

/// Failures to create the forwarding producer, to retrieve, to forward and
/// to acknowledge end the pipeline, and an ended pipeline stays ended.
pub proof fn law_fatal_failures(
    config: ConsumeConfigView,
    event: ConsumeEventView,
    cause: Termination,
)
    ensures
        consume_next(
            config,
            ConsumeState::ConnectingForwarder,
            ConsumeEventView::ForwarderConnectFailed,
        ) == stopped(Termination::ForwarderConnectFailed),
        consume_next(config, ConsumeState::Streaming, ConsumeEventView::ReceiveFailed) == stopped(
            Termination::ReceiveFailed,
        ),
        consume_next(config, ConsumeState::Forwarding, ConsumeEventView::ForwardFailed) == stopped(
            Termination::ForwardFailed,
        ),
        consume_next(config, ConsumeState::Acknowledging, ConsumeEventView::AckFailed) == stopped(
            Termination::AcknowledgeFailed,
        ),
        consume_next(config, ConsumeState::Terminated { cause }, event) == stopped(cause),
{
}

} // verus!
