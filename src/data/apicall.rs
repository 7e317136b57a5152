//! Audit-log records of API calls.
use vstd::prelude::*;

use crate::json::{nested, 
    member, opt_map_field, opt_map_view, read_opt_map, read_string, read_string_list, required,
    str_field, str_list_field, texts, DecodeError, Json,
};
use crate::map::StringMap;
use crate::time::{read_time, time_field, Timestamp};

verus! {

/// An API call recorded by the audit log.
pub struct APICall {
    pub version: String,
    pub id: String,
    pub account: String,
    pub time: Timestamp,
    pub region: String,
    pub resources: Vec<String>,
    pub detail: APICallDetail,
}

pub open spec fn api_call_from(j: Json, x: APICall) -> bool {
    &&& str_field(j, "version"@) == Some(x.version@)
    &&& str_field(j, "id"@) == Some(x.id@)
    &&& str_field(j, "account"@) == Some(x.account@)
    &&& time_field(j, "time"@) == Some(x.time)
    &&& str_field(j, "region"@) == Some(x.region@)
    &&& str_list_field(j, "resources"@) == Some(texts(x.resources@))
    &&& member(j, "detail"@) matches Some(d) && api_call_detail_from(d, x.detail)
}

pub open spec fn api_call_ok(j: Json) -> bool {
    exists|x: APICall| #[trigger] api_call_from(j, x)
}

impl APICall {
    /// Reads an audit-log record, taking the document.
    pub fn decode(j: Json) -> (r: Result<APICall, DecodeError>)
        ensures
            match r {
                Ok(x) => api_call_from(j, x),
                Err(_) => !api_call_ok(j),
            },
    {
        let version = read_string(&j, "version")?;
        let id = read_string(&j, "id")?;
        let account = read_string(&j, "account")?;
        let time = read_time(&j, "time")?;
        let region = read_string(&j, "region")?;
        let resources = read_string_list(&j, "resources")?;
        let d = match j.into_member("detail") {
            Some(d) => d,
            None => return Err(DecodeError::at("detail")),
        };
        let detail = nested(APICallDetail::decode(d), "detail")?;
        Ok(APICall { version, id, account, time, region, resources, detail })
    }
}

/// What the call was and who made it.
pub struct APICallDetail {
    pub event_version: String,
    pub user_identity: UserIdentity,
    pub event_time: Timestamp,
    pub event_source: String,
    pub event_name: String,
    pub aws_region: String,
    pub source_ip_address: String,
    pub user_agent: String,
    pub request_parameters: Option<StringMap>,
    /// The response, kept as the document gave it; absent or null is `None`.
    pub response_elements: Option<Json>,
    pub request_id: String,
    pub event_id: String,
    pub event_type: String,
}

pub open spec fn api_call_detail_from(j: Json, x: APICallDetail) -> bool {
    &&& str_field(j, "eventVersion"@) == Some(x.event_version@)
    &&& member(j, "userIdentity"@) matches Some(u) && user_identity_from(u, x.user_identity)
    &&& time_field(j, "eventTime"@) == Some(x.event_time)
    &&& str_field(j, "eventSource"@) == Some(x.event_source@)
    &&& str_field(j, "eventName"@) == Some(x.event_name@)
    &&& str_field(j, "awsRegion"@) == Some(x.aws_region@)
    &&& str_field(j, "sourceIPAddress"@) == Some(x.source_ip_address@)
    &&& str_field(j, "userAgent"@) == Some(x.user_agent@)
    &&& opt_map_field(j, "requestParameters"@) == Some(opt_map_view(x.request_parameters))
    &&& match member(j, "responseElements"@) {
        None => x.response_elements is None,
        Some(Json::Null) => x.response_elements is None,
        Some(v) => x.response_elements == Some(v),
    }
    &&& str_field(j, "requestID"@) == Some(x.request_id@)
    &&& str_field(j, "eventID"@) == Some(x.event_id@)
    &&& str_field(j, "eventType"@) == Some(x.event_type@)
}

pub open spec fn api_call_detail_ok(j: Json) -> bool {
    exists|x: APICallDetail| #[trigger] api_call_detail_from(j, x)
}

impl APICallDetail {
    /// Reads the detail of an audit-log record, taking the document.
    pub fn decode(j: Json) -> (r: Result<APICallDetail, DecodeError>)
        ensures
            match r {
                Ok(x) => api_call_detail_from(j, x),
                Err(_) => !api_call_detail_ok(j),
            },
    {
        let event_version = read_string(&j, "eventVersion")?;
        let user_identity = nested(UserIdentity::decode(required(&j, "userIdentity")?), "userIdentity")?;
        let event_time = read_time(&j, "eventTime")?;
        let event_source = read_string(&j, "eventSource")?;
        let event_name = read_string(&j, "eventName")?;
        let aws_region = read_string(&j, "awsRegion")?;
        let source_ip_address = read_string(&j, "sourceIPAddress")?;
        let user_agent = read_string(&j, "userAgent")?;
        let request_parameters = read_opt_map(&j, "requestParameters")?;
        let request_id = read_string(&j, "requestID")?;
        let event_id = read_string(&j, "eventID")?;
        let event_type = read_string(&j, "eventType")?;
        let response_elements = match j.into_member("responseElements") {
            None => None,
            Some(Json::Null) => None,
            Some(v) => Some(v),
        };
        Ok(APICallDetail {
            event_version,
            user_identity,
            event_time,
            event_source,
            event_name,
            aws_region,
            source_ip_address,
            user_agent,
            request_parameters,
            response_elements,
            request_id,
            event_id,
            event_type,
        })
    }
}

/// Who made the call.
pub struct UserIdentity {
    pub user_type: String,
    pub principal_id: String,
    pub arn: String,
    pub account_id: String,
    pub session_context: SessionContext,
}

pub open spec fn user_identity_from(j: Json, x: UserIdentity) -> bool {
    &&& str_field(j, "type"@) == Some(x.user_type@)
    &&& str_field(j, "principalId"@) == Some(x.principal_id@)
    &&& str_field(j, "arn"@) == Some(x.arn@)
    &&& str_field(j, "accountId"@) == Some(x.account_id@)
    &&& member(j, "sessionContext"@) matches Some(s) && member(s, "attributes"@) matches Some(a)
        && session_attributes_from(a, x.session_context.attributes)
}

pub open spec fn user_identity_ok(j: Json) -> bool {
    exists|x: UserIdentity| #[trigger] user_identity_from(j, x)
}

impl UserIdentity {
    pub fn decode(j: &Json) -> (r: Result<UserIdentity, DecodeError>)
        ensures
            match r {
                Ok(x) => user_identity_from(*j, x),
                Err(_) => !user_identity_ok(*j),
            },
    {
        let user_type = read_string(j, "type")?;
        let principal_id = read_string(j, "principalId")?;
        let arn = read_string(j, "arn")?;
        let account_id = read_string(j, "accountId")?;
        let session = required(j, "sessionContext")?;
        let attributes = nested(
            nested(SessionContextAttributes::decode(required(session, "attributes")?), "attributes"),
            "sessionContext",
        )?;
        Ok(UserIdentity {
            user_type,
            principal_id,
            arn,
            account_id,
            session_context: SessionContext { attributes },
        })
    }
}

/// The session the call was made in.
pub struct SessionContext {
    pub attributes: SessionContextAttributes,
}

/// Facts about the session.
pub struct SessionContextAttributes {
    pub mfa_authenticated: String,
    pub creation_date: Timestamp,
}

pub open spec fn session_attributes_from(j: Json, x: SessionContextAttributes) -> bool {
    &&& str_field(j, "mfaAuthenticated"@) == Some(x.mfa_authenticated@)
    &&& time_field(j, "creationDate"@) == Some(x.creation_date)
}

pub open spec fn session_attributes_ok(j: Json) -> bool {
    exists|x: SessionContextAttributes| #[trigger] session_attributes_from(j, x)
}

impl SessionContextAttributes {
    pub fn decode(j: &Json) -> (r: Result<SessionContextAttributes, DecodeError>)
        ensures
            match r {
                Ok(x) => session_attributes_from(*j, x),
                Err(_) => !session_attributes_ok(*j),
            },
    {
        let mfa_authenticated = read_string(j, "mfaAuthenticated")?;
        let creation_date = read_time(j, "creationDate")?;
        Ok(SessionContextAttributes { mfa_authenticated, creation_date })
    }
}

} // verus!
