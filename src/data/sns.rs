//! Pub/sub notifications.
use vstd::prelude::*;

use crate::json::{nested, 
    member, members_from, opt_str_field, opt_text, read_members, read_opt_string, read_string,
    required, str_field, text_eq, DecodeError, Json,
};
use crate::time::{read_time, time_field, Timestamp};

verus! {

/// A typed value attached to a message.
pub struct MessageAttribute {
    pub attribute_type: MessageAttributeType,
    pub value: String,
}

pub open spec fn message_attribute_from(j: Json, x: MessageAttribute) -> bool {
    &&& str_field(j, "Type"@) matches Some(t) && attribute_type_named(t) == Some(x.attribute_type)
    &&& str_field(j, "Value"@) == Some(x.value@)
}

pub open spec fn message_attribute_ok(j: Json) -> bool {
    exists|x: MessageAttribute| #[trigger] message_attribute_from(j, x)
}

pub open spec fn message_attribute_rel() -> spec_fn(Json, MessageAttribute) -> bool {
    |j: Json, x: MessageAttribute| message_attribute_from(j, x)
}

impl MessageAttribute {
    pub fn decode(j: &Json) -> (r: Result<MessageAttribute, DecodeError>)
        ensures
            match r {
                Ok(x) => message_attribute_from(*j, x),
                Err(_) => !message_attribute_ok(*j),
            },
    {
        let t = read_string(j, "Type")?;
        let attribute_type = match MessageAttributeType::from_name(t.as_str()) {
            Some(a) => a,
            None => return Err(DecodeError::at("Type")),
        };
        let value = read_string(j, "Value")?;
        Ok(MessageAttribute { attribute_type, value })
    }
}

/// The kind of an attribute's value.
#[derive(Clone, Copy, Debug, PartialEq, Eq, Structural)]
pub enum MessageAttributeType {
    UTF8,
    Binary,
}

pub open spec fn attribute_type_named(s: Seq<char>) -> Option<MessageAttributeType> {
    if s == "String"@ {
        Some(MessageAttributeType::UTF8)
    } else if s == "Binary"@ {
        Some(MessageAttributeType::Binary)
    } else {
        None
    }
}

impl MessageAttributeType {
    pub fn from_name(s: &str) -> (r: Option<MessageAttributeType>)
        ensures
            r == attribute_type_named(s@),
    {
        if text_eq(s, "String") {
            Some(MessageAttributeType::UTF8)
        } else if text_eq(s, "Binary") {
            Some(MessageAttributeType::Binary)
        } else {
            None
        }
    }
}

/// One notification delivered from a topic.
pub struct Record {
    pub event_version: String,
    pub event_subscription_arn: String,
    pub event: Event,
}

pub open spec fn record_from(j: Json, x: Record) -> bool {
    &&& str_field(j, "EventVersion"@) == Some(x.event_version@)
    &&& str_field(j, "EventSubscriptionArn"@) == Some(x.event_subscription_arn@)
    &&& member(j, "Sns"@) matches Some(e) && event_from(e, x.event)
}

pub open spec fn record_ok(j: Json) -> bool {
    exists|x: Record| #[trigger] record_from(j, x)
}

impl Record {
    pub fn decode(j: &Json) -> (r: Result<Record, DecodeError>)
        ensures
            match r {
                Ok(x) => record_from(*j, x),
                Err(_) => !record_ok(*j),
            },
    {
        let event_version = read_string(j, "EventVersion")?;
        let event_subscription_arn = read_string(j, "EventSubscriptionArn")?;
        let event = nested(Event::decode(required(j, "Sns")?), "Sns")?;
        Ok(Record { event_version, event_subscription_arn, event })
    }
}

/// A message published to a topic.
pub struct Event {
    pub message: String,
    /// The message attributes by name, in document order.
    pub message_attributes: Option<Vec<(String, MessageAttribute)>>,
    pub message_id: String,
    pub message_type: Option<EventType>,
    pub signature: String,
    pub signature_version: String,
    pub signing_cert_url: String,
    pub subject: Option<String>,
    pub timestamp: Timestamp,
    pub topic_arn: String,
    pub unsubscribe_url: String,
}

/// `x` is what `j` holds as the message attributes: absent or null is `None`.
pub open spec fn attributes_from(j: Json, x: Option<Vec<(String, MessageAttribute)>>) -> bool {
    match member(j, "MessageAttributes"@) {
        None => x is None,
        Some(Json::Null) => x is None,
        Some(v) => x matches Some(a) && members_from(v, a@, message_attribute_rel()),
    }
}

pub open spec fn event_from(j: Json, x: Event) -> bool {
    &&& str_field(j, "Message"@) == Some(x.message@)
    &&& attributes_from(j, x.message_attributes)
    &&& str_field(j, "MessageId"@) == Some(x.message_id@)
    &&& match member(j, "MessageType"@) {
        None => x.message_type is None,
        Some(Json::Null) => x.message_type is None,
        _ => str_field(j, "MessageType"@) == Some("Notification"@) && x.message_type == Some(
            EventType::Notification,
        ),
    }
    &&& str_field(j, "Signature"@) == Some(x.signature@)
    &&& str_field(j, "SignatureVersion"@) == Some(x.signature_version@)
    &&& str_field(j, "SigningCertUrl"@) == Some(x.signing_cert_url@)
    &&& opt_str_field(j, "Subject"@) == Some(opt_text(x.subject))
    &&& time_field(j, "Timestamp"@) == Some(x.timestamp)
    &&& str_field(j, "TopicArn"@) == Some(x.topic_arn@)
    &&& str_field(j, "UnsubscribeUrl"@) == Some(x.unsubscribe_url@)
}

pub open spec fn event_ok(j: Json) -> bool {
    exists|x: Event| #[trigger] event_from(j, x)
}

impl Event {
    pub fn decode(j: &Json) -> (r: Result<Event, DecodeError>)
        ensures
            match r {
                Ok(x) => event_from(*j, x),
                Err(_) => !event_ok(*j),
            },
    {
        let message = read_string(j, "Message")?;
        let message_attributes = match j.get("MessageAttributes") {
            None => None,
            Some(Json::Null) => None,
            Some(v) => Some(
                read_members(
                    v,
                    "MessageAttributes",
                    MessageAttribute::decode,
                    Ghost(message_attribute_rel()),
                )?,
            ),
        };
        let message_id = read_string(j, "MessageId")?;
        let message_type = match j.get("MessageType") {
            None => None,
            Some(Json::Null) => None,
            _ => {
                let t = read_string(j, "MessageType")?;
                if text_eq(t.as_str(), "Notification") {
                    Some(EventType::Notification)
                } else {
                    return Err(DecodeError::at("MessageType"));
                }
            },
        };
        let signature = read_string(j, "Signature")?;
        let signature_version = read_string(j, "SignatureVersion")?;
        let signing_cert_url = read_string(j, "SigningCertUrl")?;
        let subject = read_opt_string(j, "Subject")?;
        let timestamp = read_time(j, "Timestamp")?;
        let topic_arn = read_string(j, "TopicArn")?;
        let unsubscribe_url = read_string(j, "UnsubscribeUrl")?;
        Ok(Event {
            message,
            message_attributes,
            message_id,
            message_type,
            signature,
            signature_version,
            signing_cert_url,
            subject,
            timestamp,
            topic_arn,
            unsubscribe_url,
        })
    }
}

/// The kind of a message.
#[derive(Clone, Copy, Debug, PartialEq, Eq, Structural)]
pub enum EventType {
    Notification,
}

} // verus!
