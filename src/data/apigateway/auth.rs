//! Requests that API Gateway sends to a custom authorizer.
use vstd::prelude::*;

use super::{request_context_from, HttpEventRequestContext};
use crate::json::{nested, map_field, member, read_map, read_string, required, str_field, text_eq, DecodeError, Json};
use crate::map::StringMap;

verus! {

/// The kind of an authorization request.
#[derive(Clone, Copy, Debug, PartialEq, Eq, Structural)]
pub enum AuthEventType {
    Request,
    Token,
}

pub open spec fn auth_event_type_named(s: Seq<char>) -> Option<AuthEventType> {
    if s == "REQUEST"@ {
        Some(AuthEventType::Request)
    } else if s == "TOKEN"@ {
        Some(AuthEventType::Token)
    } else {
        None
    }
}

impl AuthEventType {
    /// The kind a wire name stands for.
    pub fn from_name(s: &str) -> (r: Option<AuthEventType>)
        ensures
            r == auth_event_type_named(s@),
    {
        if text_eq(s, "REQUEST") {
            Some(AuthEventType::Request)
        } else if text_eq(s, "TOKEN") {
            Some(AuthEventType::Token)
        } else {
            None
        }
    }
}

/// An authorization request for a custom authorizer.
pub struct AuthEvent {
    pub headers: StringMap,
    pub http_method: String,
    pub method_arn: String,
    pub path: String,
    pub path_parameters: StringMap,
    pub query_string_parameters: StringMap,
    pub resource: String,
    pub request_context: HttpEventRequestContext,
    pub stage_variables: StringMap,
    pub event_type: AuthEventType,
}

/// `x` is what the document `j` holds as an authorization request.
pub open spec fn auth_event_from(j: Json, x: AuthEvent) -> bool {
    &&& map_field(j, "headers"@) == Some(x.headers@) && x.headers.wf()
    &&& str_field(j, "httpMethod"@) == Some(x.http_method@)
    &&& str_field(j, "methodArn"@) == Some(x.method_arn@)
    &&& str_field(j, "path"@) == Some(x.path@)
    &&& map_field(j, "pathParameters"@) == Some(x.path_parameters@) && x.path_parameters.wf()
    &&& map_field(j, "queryStringParameters"@) == Some(x.query_string_parameters@)
        && x.query_string_parameters.wf()
    &&& str_field(j, "resource"@) == Some(x.resource@)
    &&& member(j, "requestContext"@) matches Some(c) && request_context_from(c, x.request_context)
    &&& map_field(j, "stageVariables"@) == Some(x.stage_variables@) && x.stage_variables.wf()
    &&& str_field(j, "type"@) matches Some(t) && auth_event_type_named(t) == Some(x.event_type)
}

pub open spec fn auth_event_ok(j: Json) -> bool {
    exists|x: AuthEvent| #[trigger] auth_event_from(j, x)
}

impl AuthEvent {
    /// Reads an authorization request document.
    pub fn decode(j: &Json) -> (r: Result<AuthEvent, DecodeError>)
        ensures
            match r {
                Ok(x) => auth_event_from(*j, x),
                Err(_) => !auth_event_ok(*j),
            },
    {
        let headers = read_map(j, "headers")?;
        let http_method = read_string(j, "httpMethod")?;
        let method_arn = read_string(j, "methodArn")?;
        let path = read_string(j, "path")?;
        let path_parameters = read_map(j, "pathParameters")?;
        let query_string_parameters = read_map(j, "queryStringParameters")?;
        let resource = read_string(j, "resource")?;
        let request_context = nested(HttpEventRequestContext::decode(required(j, "requestContext")?), "requestContext")?;
        let stage_variables = read_map(j, "stageVariables")?;
        let t = read_string(j, "type")?;
        let event_type = match AuthEventType::from_name(t.as_str()) {
            Some(k) => k,
            None => return Err(DecodeError::at("type")),
        };
        Ok(AuthEvent {
            headers,
            http_method,
            method_arn,
            path,
            path_parameters,
            query_string_parameters,
            resource,
            request_context,
            stage_variables,
            event_type,
        })
    }
}

/// The effect an authorizer grants.
#[derive(Clone, Copy, Debug, PartialEq, Eq, Structural)]
pub enum AuthEffect {
    /// Allow access to the resource.
    Allow,
    /// Refuse access to the resource.
    Deny,
}

impl AuthEffect {
    pub open spec fn spec_name(self) -> Seq<char> {
        match self {
            AuthEffect::Allow => "Allow"@,
            AuthEffect::Deny => "Deny"@,
        }
    }

    /// The wire name of this effect.
    pub fn name(&self) -> (r: &'static str)
        ensures
            r@ == self.spec_name(),
    {
        match self {
            AuthEffect::Allow => "Allow",
            AuthEffect::Deny => "Deny",
        }
    }
}

} // verus!
