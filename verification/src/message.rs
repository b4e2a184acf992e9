//! Normalized message records and the eligibility gate.
//!
//! An `InboundMessage` is what decoding a raw event payload yields: every
//! field optional, since different event subtypes carry different fields.
//! An `EligibleMessage` is an inbound message proven to be a genuine user
//! chat message; it is the only thing the dispatcher accepts, so no handler
//! can ever run for an ineligible event.

use vstd::prelude::*;
use crate::strutil::string_eq_str;

verus! {

/// The fields of a decoded event, as character sequences.
pub ghost struct InboundFields {
    pub event_type: Option<Seq<char>>,
    pub subtype: Option<Seq<char>>,
    pub sender_id: Option<Seq<char>>,
    pub text: Option<Seq<char>>,
    pub channel_id: Option<Seq<char>>,
}

/// One decoded chat event. Produced only by decoding a raw payload
/// (`normalize`), never hand-constructed elsewhere.
#[derive(Debug)]
pub struct InboundMessage {
    event_type: Option<String>,
    subtype: Option<String>,
    sender_id: Option<String>,
    text: Option<String>,
    channel_id: Option<String>,
}

impl View for InboundMessage {
    type V = InboundFields;

    closed spec fn view(&self) -> InboundFields {
        InboundFields {
            event_type: self.event_type.deep_view(),
            subtype: self.subtype.deep_view(),
            sender_id: self.sender_id.deep_view(),
            text: self.text.deep_view(),
            channel_id: self.channel_id.deep_view(),
        }
    }
}

impl InboundMessage {
    /// Assembles the record that decoding yielded. Only the normalizer uses
    /// this; everything else reads an `InboundMessage` through its view.
    pub(crate) fn from_fields(
        event_type: Option<String>,
        subtype: Option<String>,
        sender_id: Option<String>,
        text: Option<String>,
        channel_id: Option<String>,
    ) -> (r: Self)
        ensures
            r@ == (InboundFields {
                event_type: event_type.deep_view(),
                subtype: subtype.deep_view(),
                sender_id: sender_id.deep_view(),
                text: text.deep_view(),
                channel_id: channel_id.deep_view(),
            }),
    {
        InboundMessage { event_type, subtype, sender_id, text, channel_id }
    }
}

/// The fields of an eligible message, as character sequences.
pub ghost struct EligibleFields {
    pub sender_id: Seq<char>,
    pub text: Seq<char>,
    pub channel_id: Seq<char>,
}

/// A genuine user chat message: event type `"message"`, no subtype, and
/// sender, text and channel all present. Constructed only by `eligible`,
/// so every value of this type has passed the eligibility rule.
#[derive(Debug)]
pub struct EligibleMessage {
    sender_id: String,
    text: String,
    channel_id: String,
}

impl View for EligibleMessage {
    type V = EligibleFields;

    closed spec fn view(&self) -> EligibleFields {
        EligibleFields {
            sender_id: self.sender_id@,
            text: self.text@,
            channel_id: self.channel_id@,
        }
    }
}

impl EligibleMessage {
    /// The id of the user who sent the message.
    pub fn sender_id(&self) -> (r: &String)
        ensures
            r@ == self@.sender_id,
    {
        &self.sender_id
    }

    /// The message text that patterns are matched against.
    pub fn text(&self) -> (r: &String)
        ensures
            r@ == self@.text,
    {
        &self.text
    }

    /// The channel the message was posted in.
    pub fn channel_id(&self) -> (r: &String)
        ensures
            r@ == self@.channel_id,
    {
        &self.channel_id
    }
}

/// The eligibility rule: a decoded event is a genuine user chat message
/// exactly when its event type is the literal `"message"`, it carries no
/// subtype, and sender, text and channel are all present.
pub open spec fn is_eligible(v: InboundFields) -> bool {
    &&& v.event_type == Some("message"@)
    &&& v.subtype is None
    &&& v.sender_id is Some
    &&& v.text is Some
    &&& v.channel_id is Some
}

/// The eligibility gate: returns a populated `EligibleMessage` exactly for
/// genuine user chat messages, and `None` otherwise (an ineligible event is
/// expected traffic and is silently ignored, not an error).
pub fn eligible(msg: &InboundMessage) -> (r: Option<EligibleMessage>)
    ensures
        r is Some <==> is_eligible(msg@),
        r matches Some(e) ==> {
            &&& msg@.sender_id == Some(e@.sender_id)
            &&& msg@.text == Some(e@.text)
            &&& msg@.channel_id == Some(e@.channel_id)
        },
{
    let type_is_message = match &msg.event_type {
        Some(t) => string_eq_str(t, "message"),
        None => false,
    };
    if !type_is_message || msg.subtype.is_some() {
        return None;
    }
    match (&msg.sender_id, &msg.text, &msg.channel_id) {
        (Some(sender_id), Some(text), Some(channel_id)) => Some(EligibleMessage {
            sender_id: sender_id.clone(),
            text: text.clone(),
            channel_id: channel_id.clone(),
        }),
        _ => None,
    }
}

} // verus!
