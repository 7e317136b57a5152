//! Scheduled and status-change notifications.
use vstd::prelude::*;

use crate::json::{member, read_string, read_string_list, str_field, str_list_field, texts, DecodeError, Json};

verus! {

/// A scheduled or status-change notification; its detail is kept as the document gave it.
pub struct Event {
    pub account: String,
    /// The members of the detail object, in document order.
    pub detail: Vec<(String, Json)>,
    pub detail_type: String,
    pub id: String,
    pub region: String,
    pub resources: Vec<String>,
    pub source: String,
    pub time: String,
    pub version: String,
}

/// Every member but the detail.
pub open spec fn event_fields_from(j: Json, x: Event) -> bool {
    &&& str_field(j, "account"@) == Some(x.account@)
    &&& str_field(j, "detail-type"@) == Some(x.detail_type@)
    &&& str_field(j, "id"@) == Some(x.id@)
    &&& str_field(j, "region"@) == Some(x.region@)
    &&& str_list_field(j, "resources"@) == Some(texts(x.resources@))
    &&& str_field(j, "source"@) == Some(x.source@)
    &&& str_field(j, "time"@) == Some(x.time@)
    &&& str_field(j, "version"@) == Some(x.version@)
}

pub open spec fn event_from(j: Json, x: Event) -> bool {
    &&& event_fields_from(j, x)
    &&& member(j, "detail"@) == Some(Json::Object(x.detail))
}

pub open spec fn event_ok(j: Json) -> bool {
    exists|x: Event| #[trigger] event_from(j, x)
}

impl Event {
    fn decode_fields(j: &Json) -> (r: Result<Event, DecodeError>)
        ensures
            match r {
                Ok(x) => event_fields_from(*j, x) && member(*j, "detail"@) matches Some(
                    Json::Object(_),
                ),
                Err(_) => !event_ok(*j),
            },
    {
        let account = read_string(j, "account")?;
        match j.get("detail") {
            Some(Json::Object(_)) => {},
            _ => return Err(DecodeError::at("detail")),
        }
        let detail_type = read_string(j, "detail-type")?;
        let id = read_string(j, "id")?;
        let region = read_string(j, "region")?;
        let resources = read_string_list(j, "resources")?;
        let source = read_string(j, "source")?;
        let time = read_string(j, "time")?;
        let version = read_string(j, "version")?;
        Ok(Event { account, detail: Vec::new(), detail_type, id, region, resources, source, time, version })
    }

    /// Reads a notification, taking the document; when the document is not one it is given back
    /// unchanged.
    pub fn decode(j: Json) -> (r: Result<Event, Json>)
        ensures
            match r {
                Ok(x) => event_from(j, x),
                Err(back) => back == j && !event_ok(j),
            },
    {
        let mut x = match Event::decode_fields(&j) {
            Ok(x) => x,
            Err(_) => return Err(j),
        };
        match j.into_member("detail") {
            Some(Json::Object(members)) => {
                x.detail = members;
                Ok(x)
            },
            _ => {
                proof {
                    assert(false);
                }
                Err(Json::Null)
            },
        }
    }
}

} // verus!
