//! Messages as they come from the broker and as they are sent to it.

use crate::properties::{to_map, Properties};
use vstd::prelude::*;

verus! {

/// A message received from a topic.
#[derive(Debug)]
pub struct Message {
    /// The body, as the publisher sent it.
    pub payload: Vec<u8>,
    /// The properties the publisher attached.
    pub properties: Properties,
    /// The time the publisher gave the event, in milliseconds since the epoch.
    pub event_time: Option<u64>,
    /// The time the broker took the message in, in milliseconds since the epoch.
    pub publish_time: u64,
}

/// What a received message holds.
pub struct MessageView {
    pub payload: Seq<u8>,
    /// The properties in display order.
    pub properties: Seq<(Seq<char>, Seq<char>)>,
    pub event_time: Option<u64>,
    pub publish_time: u64,
}

/// A message to publish.
#[derive(Debug)]
pub struct OutboundMessage {
    pub payload: Vec<u8>,
    pub properties: Properties,
    /// The event time to publish with; `None` leaves it to the broker.
    pub event_time: Option<u64>,
}

/// What a message to publish holds.
pub struct OutboundView {
    pub payload: Seq<u8>,
    pub properties: Seq<(Seq<char>, Seq<char>)>,
    pub event_time: Option<u64>,
}

impl MessageView {
    /// The event time where the publisher gave one, else the publish time.
    pub open spec fn effective_timestamp(self) -> u64 {
        match self.event_time {
            Some(at) => at,
            None => self.publish_time,
        }
    }

    /// The properties as a map.
    pub open spec fn property_map(self) -> Map<Seq<char>, Seq<char>> {
        to_map(self.properties)
    }

    /// The copy that is sent on when this message is forwarded.
    pub open spec fn forwarded(self) -> OutboundView {
        OutboundView {
            payload: self.payload,
            properties: self.properties,
            event_time: Some(self.effective_timestamp()),
        }
    }
}

impl OutboundView {
    /// The properties as a map.
    pub open spec fn property_map(self) -> Map<Seq<char>, Seq<char>> {
        to_map(self.properties)
    }

    /// This message as a subscriber receives it once a broker has published
    /// it at `publish_time`.
    pub open spec fn received_at(self, publish_time: u64) -> MessageView {
        MessageView {
            payload: self.payload,
            properties: self.properties,
            event_time: self.event_time,
            publish_time,
        }
    }
}

impl View for Message {
    type V = MessageView;

    open spec fn view(&self) -> MessageView {
        MessageView {
            payload: self.payload@,
            properties: self.properties.entries(),
            event_time: self.event_time,
            publish_time: self.publish_time,
        }
    }
}

impl View for OutboundMessage {
    type V = OutboundView;

    open spec fn view(&self) -> OutboundView {
        OutboundView {
            payload: self.payload@,
            properties: self.properties.entries(),
            event_time: self.event_time,
        }
    }
}

/// A copy of `bytes`.
pub fn copy_bytes(bytes: &Vec<u8>) -> (copy: Vec<u8>)
    ensures
        copy@ == bytes@,
{
    let mut copy: Vec<u8> = Vec::new();
    let mut i: usize = 0;
    while i < bytes.len()
        invariant
            i <= bytes@.len(),
            copy@ == bytes@.subrange(0, i as int),
        decreases bytes@.len() - i,
    {
        copy.push(bytes[i]);
        assert(copy@ =~= bytes@.subrange(0, i + 1));
        i = i + 1;
    }
    assert(copy@ =~= bytes@);
    copy
}

impl Message {
    /// The time to show for this message and to forward it with: the event
    /// time where present, else the publish time.
    pub fn effective_timestamp(&self) -> (at: u64)
        ensures
            at == self@.effective_timestamp(),
            self.event_time is Some ==> at == self.event_time->0,
            self.event_time is None ==> at == self.publish_time,
    {
        match self.event_time {
            Some(at) => at,
            None => self.publish_time,
        }
    }

    /// A copy of this message.
    pub fn duplicate(&self) -> (copy: Message)
        ensures
            copy@ == self@,
    {
        Message {
            payload: copy_bytes(&self.payload),
            properties: self.properties.duplicate(),
            event_time: self.event_time,
            publish_time: self.publish_time,
        }
    }
}

impl OutboundMessage {
    /// A copy of this message.
    pub fn duplicate(&self) -> (copy: OutboundMessage)
        ensures
            copy@ == self@,
    {
        OutboundMessage {
            payload: copy_bytes(&self.payload),
            properties: self.properties.duplicate(),
            event_time: self.event_time,
        }
    }
}

/// The effective timestamp is the event time when present and the publish
/// time otherwise; taking it again from the forwarded copy, whenever the
/// next broker publishes it, gives the same instant.
pub proof fn law_effective_timestamp(m: MessageView, next_publish_time: u64)
    ensures
        m.event_time is Some ==> m.effective_timestamp() == m.event_time->0,
        m.event_time is None ==> m.effective_timestamp() == m.publish_time,
        m.forwarded().received_at(next_publish_time).effective_timestamp()
            == m.effective_timestamp(),
{
}

} // verus!
