//! The forward sink: where consumed messages are sent on to, and what is
//! sent there.

use crate::config::{text_of, text_or};
use crate::message::{copy_bytes, Message, MessageView, OutboundMessage};
use vstd::prelude::*;

verus! {

/// Where consumed messages are forwarded to.
#[derive(Debug, PartialEq, Eq)]
pub struct ForwardTarget {
    pub url: String,
    pub topic: String,
}

pub struct ForwardTargetView {
    pub url: Seq<char>,
    pub topic: Seq<char>,
}

impl View for ForwardTarget {
    type V = ForwardTargetView;

    open spec fn view(&self) -> ForwardTargetView {
        ForwardTargetView { url: self.url@, topic: self.topic@ }
    }
}

impl ForwardTarget {
    /// A copy, built anew.
    pub fn duplicate(&self) -> (copy: ForwardTarget)
        ensures
            copy@ == self@,
    {
        ForwardTarget { url: self.url.clone(), topic: self.topic.clone() }
    }
}

/// Where the options ask to forward to: the named topic on the named broker,
/// or on the broker that is consumed from where none is named. `None` where
/// no topic is named.
pub open spec fn forward_for(
    broker: Seq<char>,
    forward_to_topic: Option<Seq<char>>,
    forward_url: Option<Seq<char>>,
) -> Option<ForwardTargetView> {
    match forward_to_topic {
        Some(topic) => Some(ForwardTargetView { url: text_or(forward_url, broker), topic }),
        None => None,
    }
}

/// Settles where to forward to. `broker` is the address that is consumed
/// from; `forward_url` is the address named for forwarding, if any.
pub fn resolve_forward(
    broker: &String,
    forward_to_topic: Option<String>,
    forward_url: Option<String>,
) -> (target: Option<ForwardTarget>)
    ensures
        match target {
            Some(found) => forward_for(broker@, text_of(forward_to_topic), text_of(forward_url))
                == Some(found@),
            None => forward_for(broker@, text_of(forward_to_topic), text_of(forward_url)) is None,
        },
        target is Some <==> forward_to_topic is Some,
{
    match forward_to_topic {
        Some(topic) => Some(
            ForwardTarget {
                url: match forward_url {
                    Some(named) => named,
                    None => broker.clone(),
                },
                topic,
            },
        ),
        None => None,
    }
}

/// Builds the copy of `received` that is sent on: the same payload bytes,
/// the same properties, and `effective_timestamp` as its event time.
pub fn forward_message(received: &Message, effective_timestamp: u64) -> (out: OutboundMessage)
    ensures
        out@.payload == received@.payload,
        out@.properties == received@.properties,
        out.properties@ == received.properties@,
        out@.event_time == Some(effective_timestamp),
        effective_timestamp == received@.effective_timestamp() ==> out@ == received@.forwarded(),
{
    OutboundMessage {
        payload: copy_bytes(&received.payload),
        properties: received.properties.duplicate(),
        event_time: Some(effective_timestamp),
    }
}

/// A forwarded copy carries the payload bytes and the property map of the
/// message it was made from unchanged, and that message's effective
/// timestamp as its event time.
pub proof fn law_forward_preserves_message(m: MessageView)
    ensures
        m.forwarded().payload == m.payload,
        m.forwarded().property_map() == m.property_map(),
        m.forwarded().properties == m.properties,
        m.forwarded().event_time == Some(m.effective_timestamp()),
{
}

} // verus!
