//! Mail-receipt notifications and the disposition a function answers with.
use vstd::prelude::*;

pub mod message;

pub use self::message::{Action, LambdaInvocationType, Message};

use crate::json::{nested, member, read_string, required, str_field, DecodeError, Json};

verus! {

/// One mail-receipt notification.
pub struct Record {
    pub event_version: String,
    pub event: Event,
}

pub open spec fn record_from(j: Json, x: Record) -> bool {
    &&& str_field(j, "eventVersion"@) == Some(x.event_version@)
    &&& member(j, "ses"@) matches Some(e) && event_from(e, x.event)
}

pub open spec fn record_ok(j: Json) -> bool {
    exists|x: Record| #[trigger] record_from(j, x)
}

impl Record {
    pub fn decode(j: &Json) -> (r: Result<Record, DecodeError>)
        ensures
            match r {
                Ok(x) => record_from(*j, x),
                Err(_) => !record_ok(*j),
            },
    {
        let event_version = read_string(j, "eventVersion")?;
        let event = nested(Event::decode(required(j, "ses")?), "ses")?;
        Ok(Record { event_version, event })
    }
}

/// The mail and its receipt.
pub struct Event {
    pub details: message::Details,
    pub receipt: message::Receipt,
}

pub open spec fn event_from(j: Json, x: Event) -> bool {
    &&& member(j, "mail"@) matches Some(m) && message::details_from(m, x.details)
    &&& member(j, "receipt"@) matches Some(r) && message::receipt_from(r, x.receipt)
}

pub open spec fn event_ok(j: Json) -> bool {
    exists|x: Event| #[trigger] event_from(j, x)
}

impl Event {
    pub fn decode(j: &Json) -> (r: Result<Event, DecodeError>)
        ensures
            match r {
                Ok(x) => event_from(*j, x),
                Err(_) => !event_ok(*j),
            },
    {
        let details = nested(message::Details::decode(required(j, "mail")?), "mail")?;
        let receipt = nested(message::Receipt::decode(required(j, "receipt")?), "receipt")?;
        Ok(Event { details, receipt })
    }
}

/// The answer to a mail-receipt notification: how rule processing goes on.
pub struct Response {
    pub action: ResponseAction,
}

/// How rule processing goes on after the function.
#[derive(Clone, Copy, Debug, PartialEq, Eq, Structural)]
pub enum ResponseAction {
    Continue,
    StopRule,
    StopRuleSet,
}

impl ResponseAction {
    pub open spec fn spec_name(self) -> Seq<char> {
        match self {
            ResponseAction::Continue => "CONTINUE"@,
            ResponseAction::StopRule => "STOP_RULE"@,
            ResponseAction::StopRuleSet => "STOP_RULE_SET"@,
        }
    }

    /// The wire name of this disposition.
    pub fn name(&self) -> (r: &'static str)
        ensures
            r@ == self.spec_name(),
    {
        match self {
            ResponseAction::Continue => "CONTINUE",
            ResponseAction::StopRule => "STOP_RULE",
            ResponseAction::StopRuleSet => "STOP_RULE_SET",
        }
    }
}

impl Response {
    /// A response with the given disposition.
    pub fn from(action: ResponseAction) -> (r: Response)
        ensures
            r.action == action,
    {
        Response { action }
    }

    /// Go on with the next rule.
    pub fn proceed() -> (r: Response)
        ensures
            r.action == ResponseAction::Continue,
    {
        Response::from(ResponseAction::Continue)
    }

    /// Stop the rules of this rule.
    pub fn stop_rule() -> (r: Response)
        ensures
            r.action == ResponseAction::StopRule,
    {
        Response::from(ResponseAction::StopRule)
    }

    /// Stop the whole rule set.
    pub fn stop_rule_set() -> (r: Response)
        ensures
            r.action == ResponseAction::StopRuleSet,
    {
        Response::from(ResponseAction::StopRuleSet)
    }

    /// The response document: the disposition under `disposition`.
    pub fn encode(&self) -> (r: Json)
        ensures
            r matches Json::Object(entries) && entries@.len() == 1,
            str_field(r, "disposition"@) == Some(self.action.spec_name()),
    {
        let mut entries: Vec<(String, Json)> = Vec::new();
        entries.push((String::from_str("disposition"), Json::String(String::from_str(self.action.name()))));
        Json::Object(entries)
    }
}

} // verus!
