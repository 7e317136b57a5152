//! API Gateway proxy requests and the responses sent back for them.
use vstd::prelude::*;

pub mod auth;

pub use self::auth::{AuthEffect, AuthEvent, AuthEventType};

use crate::json::{nested, 
    lookup, as_text_map, bool_field, map_field, member, nullable_members_from, nullable_text, opt_str_field,
    opt_text, opt_u64_field, read_bool, read_map, read_nullable_members, read_opt_string,
    read_opt_u64, read_string, read_u64, required, str_field, text_eq, u64_field, DecodeError, Json,
    Number,
};
use crate::map::{pairs_map, StringMap};
use crate::time::Timestamp;

verus! {

/// A generic API Gateway event: an authorization request or a proxied HTTP request.
pub enum Event {
    /// An authorization request asking for access to a resource.
    Authorize(AuthEvent),
    /// A proxied HTTP request.
    Request(HttpEvent),
}

/// An HTTP request method.
#[derive(Clone, Copy, Debug, PartialEq, Eq, Structural)]
pub enum HttpMethod {
    HEAD,
    GET,
    POST,
    PUT,
    OPTIONS,
    DELETE,
}

/// The method a wire name stands for.
pub open spec fn http_method_named(s: Seq<char>) -> Option<HttpMethod> {
    if s == "HEAD"@ {
        Some(HttpMethod::HEAD)
    } else if s == "GET"@ {
        Some(HttpMethod::GET)
    } else if s == "POST"@ {
        Some(HttpMethod::POST)
    } else if s == "PUT"@ {
        Some(HttpMethod::PUT)
    } else if s == "OPTIONS"@ {
        Some(HttpMethod::OPTIONS)
    } else if s == "DELETE"@ {
        Some(HttpMethod::DELETE)
    } else {
        None
    }
}

pub open spec fn method_field(j: Json, key: Seq<char>) -> Option<HttpMethod> {
    match str_field(j, key) {
        Some(s) => http_method_named(s),
        None => None,
    }
}

impl HttpMethod {
    pub open spec fn spec_name(self) -> Seq<char> {
        match self {
            HttpMethod::HEAD => "HEAD"@,
            HttpMethod::GET => "GET"@,
            HttpMethod::POST => "POST"@,
            HttpMethod::PUT => "PUT"@,
            HttpMethod::OPTIONS => "OPTIONS"@,
            HttpMethod::DELETE => "DELETE"@,
        }
    }

    /// The wire name of this method.
    pub fn name(&self) -> (r: &'static str)
        ensures
            r@ == self.spec_name(),
    {
        match self {
            HttpMethod::HEAD => "HEAD",
            HttpMethod::GET => "GET",
            HttpMethod::POST => "POST",
            HttpMethod::PUT => "PUT",
            HttpMethod::OPTIONS => "OPTIONS",
            HttpMethod::DELETE => "DELETE",
        }
    }

    /// The method a wire name stands for.
    pub fn from_name(s: &str) -> (r: Option<HttpMethod>)
        ensures
            r == http_method_named(s@),
    {
        if text_eq(s, "HEAD") {
            Some(HttpMethod::HEAD)
        } else if text_eq(s, "GET") {
            Some(HttpMethod::GET)
        } else if text_eq(s, "POST") {
            Some(HttpMethod::POST)
        } else if text_eq(s, "PUT") {
            Some(HttpMethod::PUT)
        } else if text_eq(s, "OPTIONS") {
            Some(HttpMethod::OPTIONS)
        } else if text_eq(s, "DELETE") {
            Some(HttpMethod::DELETE)
        } else {
            None
        }
    }
}

fn read_method(j: &Json, key: &str) -> (r: Result<HttpMethod, DecodeError>)
    ensures
        match r {
            Ok(m) => method_field(*j, key@) == Some(m),
            Err(_) => method_field(*j, key@) is None,
        },
{
    let s = read_string(j, key)?;
    match HttpMethod::from_name(s.as_str()) {
        Some(m) => Ok(m),
        None => Err(DecodeError::at(key)),
    }
}

/// A proxied HTTP request.
pub struct HttpEvent {
    /// The body, base64-encoded when `is_base64_encoded` is set.
    pub body: Option<String>,
    pub headers: StringMap,
    pub http_method: HttpMethod,
    pub is_base64_encoded: bool,
    pub path: String,
    pub path_parameters: StringMap,
    pub query_string_parameters: StringMap,
    /// The API Gateway resource that was requested.
    pub resource: String,
    pub request_context: HttpEventRequestContext,
    pub stage_variables: StringMap,
}

/// `x` is what the document `j` holds as an HTTP request. Absent or null mappings read as empty.
pub open spec fn http_event_from(j: Json, x: HttpEvent) -> bool {
    &&& opt_str_field(j, "body"@) == Some(opt_text(x.body))
    &&& map_field(j, "headers"@) == Some(x.headers@) && x.headers.wf()
    &&& method_field(j, "httpMethod"@) == Some(x.http_method)
    &&& bool_field(j, "isBase64Encoded"@) == Some(x.is_base64_encoded)
    &&& str_field(j, "path"@) == Some(x.path@)
    &&& map_field(j, "pathParameters"@) == Some(x.path_parameters@) && x.path_parameters.wf()
    &&& map_field(j, "queryStringParameters"@) == Some(x.query_string_parameters@)
        && x.query_string_parameters.wf()
    &&& str_field(j, "resource"@) == Some(x.resource@)
    &&& member(j, "requestContext"@) matches Some(c) && request_context_from(c, x.request_context)
    &&& map_field(j, "stageVariables"@) == Some(x.stage_variables@) && x.stage_variables.wf()
}

pub open spec fn http_event_ok(j: Json) -> bool {
    exists|x: HttpEvent| #[trigger] http_event_from(j, x)
}

impl HttpEvent {
    /// Reads an HTTP request document.
    pub fn decode(j: &Json) -> (r: Result<HttpEvent, DecodeError>)
        ensures
            match r {
                Ok(x) => http_event_from(*j, x),
                Err(_) => !http_event_ok(*j),
            },
    {
        let body = read_opt_string(j, "body")?;
        let headers = read_map(j, "headers")?;
        let http_method = read_method(j, "httpMethod")?;
        let is_base64_encoded = read_bool(j, "isBase64Encoded")?;
        let path = read_string(j, "path")?;
        let path_parameters = read_map(j, "pathParameters")?;
        let query_string_parameters = read_map(j, "queryStringParameters")?;
        let resource = read_string(j, "resource")?;
        let request_context = nested(HttpEventRequestContext::decode(required(j, "requestContext")?), "requestContext")?;
        let stage_variables = read_map(j, "stageVariables")?;
        let x = HttpEvent {
            body,
            headers,
            http_method,
            is_base64_encoded,
            path,
            path_parameters,
            query_string_parameters,
            resource,
            request_context,
            stage_variables,
        };
        Ok(x)
    }

    /// The value of header `key`, if the request carries it.
    pub fn header(&self, key: &str) -> (r: Option<&str>)
        requires
            self.headers.wf(),
        ensures
            match r {
                Some(v) => self.headers@.contains_key(key@) && self.headers@[key@] == v@,
                None => !self.headers@.contains_key(key@),
            },
    {
        self.headers.get(key)
    }
}

/// The query string that serde_qs writes for a set of parameters.
pub uninterp spec fn query_string_of(params: Map<Seq<char>, Seq<char>>) -> Option<Seq<char>>;

/// Relies on `serde_qs::to_string`, applied to the parameters as a map ordered by key: what it
/// writes depends on the parameters alone; `None` where it reports an error.
#[verifier::external_body]
fn query_string(params: &StringMap) -> (r: Option<String>)
    ensures
        opt_text(r) == query_string_of(params@),
{
    let sorted: std::collections::BTreeMap<&String, &String> = params.entries.iter().map(|(k, v)| (k, v)).collect();
    serde_qs::to_string(&sorted).ok()
}

/// The one-line summary of a request.
pub open spec fn summary(
    protocol: Option<Seq<char>>,
    method: HttpMethod,
    path: Seq<char>,
    query: Seq<char>,
    has_body: bool,
) -> Seq<char> {
    (match protocol {
        Some(p) => p,
        None => "(unknown)"@,
    }) + " "@ + method.spec_name() + " "@ + path + query + " (body? "@ + (if has_body {
        "true"@
    } else {
        "false"@
    }) + ")"@
}

impl HttpEvent {
    /// A one-line summary of the request: protocol, method, path with its query string, and
    /// whether it has a body. An absent protocol reads `(unknown)`; a query string that cannot
    /// be written is left out.
    pub fn describe(&self) -> (r: String)
        ensures
            r@ == summary(
                opt_text(self.request_context.protocol),
                self.http_method,
                self.path@,
                match query_string_of(self.query_string_parameters@) {
                    Some(q) => q,
                    None => Seq::empty(),
                },
                self.body is Some,
            ),
    {
        let mut out = match &self.request_context.protocol {
            Some(p) => p.clone(),
            None => String::from_str("(unknown)"),
        };
        out.append(" ");
        out.append(self.http_method.name());
        out.append(" ");
        out.append(self.path.as_str());
        match query_string(&self.query_string_parameters) {
            Some(q) => out.append(q.as_str()),
            None => {},
        }
        out.append(" (body? ");
        match &self.body {
            Some(_) => out.append("true"),
            None => out.append("false"),
        }
        out.append(")");
        out
    }
}

/// Metadata about a proxied HTTP request.
pub struct HttpEventRequestContext {
    pub account_id: String,
    pub api_id: String,
    pub http_method: HttpMethod,
    /// Identity information about the caller, in document order; some values may be null.
    pub identity: Vec<(String, Option<String>)>,
    pub path: String,
    pub protocol: Option<String>,
    pub request_id: String,
    pub request_time: Option<String>,
    /// The request time in milliseconds since the Unix epoch.
    pub request_time_epoch: Option<u64>,
    pub resource_id: String,
    pub resource_path: String,
    pub stage: String,
}

pub open spec fn request_context_from(j: Json, x: HttpEventRequestContext) -> bool {
    &&& str_field(j, "accountId"@) == Some(x.account_id@)
    &&& str_field(j, "apiId"@) == Some(x.api_id@)
    &&& method_field(j, "httpMethod"@) == Some(x.http_method)
    &&& member(j, "identity"@) matches Some(v) && nullable_members_from(v, x.identity@)
    &&& str_field(j, "path"@) == Some(x.path@)
    &&& opt_str_field(j, "protocol"@) == Some(opt_text(x.protocol))
    &&& str_field(j, "requestId"@) == Some(x.request_id@)
    &&& opt_str_field(j, "requestTime"@) == Some(opt_text(x.request_time))
    &&& opt_u64_field(j, "requestTimeEpoch"@) == Some(x.request_time_epoch)
    &&& str_field(j, "resourceId"@) == Some(x.resource_id@)
    &&& str_field(j, "resourcePath"@) == Some(x.resource_path@)
    &&& str_field(j, "stage"@) == Some(x.stage@)
}

pub open spec fn request_context_ok(j: Json) -> bool {
    exists|x: HttpEventRequestContext| #[trigger] request_context_from(j, x)
}

impl HttpEventRequestContext {
    /// Reads a request context document.
    pub fn decode(j: &Json) -> (r: Result<HttpEventRequestContext, DecodeError>)
        ensures
            match r {
                Ok(x) => request_context_from(*j, x),
                Err(_) => !request_context_ok(*j),
            },
    {
        let account_id = read_string(j, "accountId")?;
        let api_id = read_string(j, "apiId")?;
        let http_method = read_method(j, "httpMethod")?;
        let identity = read_nullable_members(required(j, "identity")?, "identity")?;
        let path = read_string(j, "path")?;
        let protocol = read_opt_string(j, "protocol")?;
        let request_id = read_string(j, "requestId")?;
        let request_time = read_opt_string(j, "requestTime")?;
        let request_time_epoch = read_opt_u64(j, "requestTimeEpoch")?;
        let resource_id = read_string(j, "resourceId")?;
        let resource_path = read_string(j, "resourcePath")?;
        let stage = read_string(j, "stage")?;
        Ok(HttpEventRequestContext {
            account_id,
            api_id,
            http_method,
            identity,
            path,
            protocol,
            request_id,
            request_time,
            request_time_epoch,
            resource_id,
            resource_path,
            stage,
        })
    }

    /// The request time, from `request_time_epoch`: milliseconds since the Unix epoch split into
    /// whole seconds and the nanoseconds past them.
    pub fn time(&self) -> (r: Option<Timestamp>)
        ensures
            match self.request_time_epoch {
                Some(ms) => r == Some(
                    Timestamp { secs: (ms / 1000) as i64, nanos: ((ms % 1000) * 1_000_000) as u32 },
                ),
                None => r is None,
            },
    {
        match self.request_time_epoch {
            Some(ms) => Some(Timestamp::from_epoch_millis(ms)),
            None => None,
        }
    }
}
/// A standard HTTP status code. Each variant stands for one fixed number; statuses are ordered
/// by that number.
#[derive(Clone, Copy, Debug, PartialEq, Eq, Structural)]
pub enum HttpStatus {
    Continue,
    SwitchingProtocols,
    Processing,
    EarlyHints,
    OK,
    Created,
    Accepted,
    NonAuthoritativeInformation,
    NoContent,
    ResetContent,
    PartialContent,
    MultiStatus,
    AlreadyReported,
    IMUsed,
    MultipleChoices,
    MovedPermanently,
    Found,
    SeeOther,
    NotModified,
    UseProxy,
    SwitchProxy,
    TemporaryRedirect,
    PermanentRedirect,
    BadRequest,
    Unauthorized,
    PaymentRequired,
    Forbidden,
    NotFound,
    MethodNotAllowed,
    NotAcceptable,
    ProxyAuthenticationRequired,
    RequestTimeout,
    Conflict,
    Gone,
    LengthRequired,
    PreconditionFailed,
    PayloadTooLarge,
    URITooLong,
    UnsupportedMediaType,
    RangeNotSatisfiable,
    ExpectationFailed,
    ImATeapot,
    MisdirectedRequest,
    UnprocessableEntity,
    Locked,
    FailedDependency,
    UpgradeRequired,
    PreconditionRequired,
    TooManyRequests,
    RequestHeaderFieldsTooLarge,
    UnavailableForLegalReasons,
    InternalServerError,
    NotImplemented,
    BadGateway,
    ServiceUnavailable,
    GatewayTimeout,
    HttpVersionNotSupported,
    VariantAlsoNegotiates,
    InsufficientStorage,
    LoopDetected,
    NotExtended,
    NetworkAuthenticationRequest,
}

/// The status that a number stands for, if any.
pub open spec fn status_of_code(c: u64) -> Option<HttpStatus> {
    match c {
        100 => Some(HttpStatus::Continue),
        101 => Some(HttpStatus::SwitchingProtocols),
        102 => Some(HttpStatus::Processing),
        103 => Some(HttpStatus::EarlyHints),
        200 => Some(HttpStatus::OK),
        201 => Some(HttpStatus::Created),
        202 => Some(HttpStatus::Accepted),
        203 => Some(HttpStatus::NonAuthoritativeInformation),
        204 => Some(HttpStatus::NoContent),
        205 => Some(HttpStatus::ResetContent),
        206 => Some(HttpStatus::PartialContent),
        207 => Some(HttpStatus::MultiStatus),
        208 => Some(HttpStatus::AlreadyReported),
        226 => Some(HttpStatus::IMUsed),
        300 => Some(HttpStatus::MultipleChoices),
        301 => Some(HttpStatus::MovedPermanently),
        302 => Some(HttpStatus::Found),
        303 => Some(HttpStatus::SeeOther),
        304 => Some(HttpStatus::NotModified),
        305 => Some(HttpStatus::UseProxy),
        306 => Some(HttpStatus::SwitchProxy),
        307 => Some(HttpStatus::TemporaryRedirect),
        308 => Some(HttpStatus::PermanentRedirect),
        400 => Some(HttpStatus::BadRequest),
        401 => Some(HttpStatus::Unauthorized),
        402 => Some(HttpStatus::PaymentRequired),
        403 => Some(HttpStatus::Forbidden),
        404 => Some(HttpStatus::NotFound),
        405 => Some(HttpStatus::MethodNotAllowed),
        406 => Some(HttpStatus::NotAcceptable),
        407 => Some(HttpStatus::ProxyAuthenticationRequired),
        408 => Some(HttpStatus::RequestTimeout),
        409 => Some(HttpStatus::Conflict),
        410 => Some(HttpStatus::Gone),
        411 => Some(HttpStatus::LengthRequired),
        412 => Some(HttpStatus::PreconditionFailed),
        413 => Some(HttpStatus::PayloadTooLarge),
        414 => Some(HttpStatus::URITooLong),
        415 => Some(HttpStatus::UnsupportedMediaType),
        416 => Some(HttpStatus::RangeNotSatisfiable),
        417 => Some(HttpStatus::ExpectationFailed),
        418 => Some(HttpStatus::ImATeapot),
        421 => Some(HttpStatus::MisdirectedRequest),
        422 => Some(HttpStatus::UnprocessableEntity),
        423 => Some(HttpStatus::Locked),
        424 => Some(HttpStatus::FailedDependency),
        426 => Some(HttpStatus::UpgradeRequired),
        428 => Some(HttpStatus::PreconditionRequired),
        429 => Some(HttpStatus::TooManyRequests),
        431 => Some(HttpStatus::RequestHeaderFieldsTooLarge),
        451 => Some(HttpStatus::UnavailableForLegalReasons),
        500 => Some(HttpStatus::InternalServerError),
        501 => Some(HttpStatus::NotImplemented),
        502 => Some(HttpStatus::BadGateway),
        503 => Some(HttpStatus::ServiceUnavailable),
        504 => Some(HttpStatus::GatewayTimeout),
        505 => Some(HttpStatus::HttpVersionNotSupported),
        506 => Some(HttpStatus::VariantAlsoNegotiates),
        507 => Some(HttpStatus::InsufficientStorage),
        508 => Some(HttpStatus::LoopDetected),
        510 => Some(HttpStatus::NotExtended),
        511 => Some(HttpStatus::NetworkAuthenticationRequest),
        _ => None,
    }
}

impl HttpStatus {
    /// The number of this status.
    pub open spec fn spec_code(self) -> u16 {
        match self {
            HttpStatus::Continue => 100,
            HttpStatus::SwitchingProtocols => 101,
            HttpStatus::Processing => 102,
            HttpStatus::EarlyHints => 103,
            HttpStatus::OK => 200,
            HttpStatus::Created => 201,
            HttpStatus::Accepted => 202,
            HttpStatus::NonAuthoritativeInformation => 203,
            HttpStatus::NoContent => 204,
            HttpStatus::ResetContent => 205,
            HttpStatus::PartialContent => 206,
            HttpStatus::MultiStatus => 207,
            HttpStatus::AlreadyReported => 208,
            HttpStatus::IMUsed => 226,
            HttpStatus::MultipleChoices => 300,
            HttpStatus::MovedPermanently => 301,
            HttpStatus::Found => 302,
            HttpStatus::SeeOther => 303,
            HttpStatus::NotModified => 304,
            HttpStatus::UseProxy => 305,
            HttpStatus::SwitchProxy => 306,
            HttpStatus::TemporaryRedirect => 307,
            HttpStatus::PermanentRedirect => 308,
            HttpStatus::BadRequest => 400,
            HttpStatus::Unauthorized => 401,
            HttpStatus::PaymentRequired => 402,
            HttpStatus::Forbidden => 403,
            HttpStatus::NotFound => 404,
            HttpStatus::MethodNotAllowed => 405,
            HttpStatus::NotAcceptable => 406,
            HttpStatus::ProxyAuthenticationRequired => 407,
            HttpStatus::RequestTimeout => 408,
            HttpStatus::Conflict => 409,
            HttpStatus::Gone => 410,
            HttpStatus::LengthRequired => 411,
            HttpStatus::PreconditionFailed => 412,
            HttpStatus::PayloadTooLarge => 413,
            HttpStatus::URITooLong => 414,
            HttpStatus::UnsupportedMediaType => 415,
            HttpStatus::RangeNotSatisfiable => 416,
            HttpStatus::ExpectationFailed => 417,
            HttpStatus::ImATeapot => 418,
            HttpStatus::MisdirectedRequest => 421,
            HttpStatus::UnprocessableEntity => 422,
            HttpStatus::Locked => 423,
            HttpStatus::FailedDependency => 424,
            HttpStatus::UpgradeRequired => 426,
            HttpStatus::PreconditionRequired => 428,
            HttpStatus::TooManyRequests => 429,
            HttpStatus::RequestHeaderFieldsTooLarge => 431,
            HttpStatus::UnavailableForLegalReasons => 451,
            HttpStatus::InternalServerError => 500,
            HttpStatus::NotImplemented => 501,
            HttpStatus::BadGateway => 502,
            HttpStatus::ServiceUnavailable => 503,
            HttpStatus::GatewayTimeout => 504,
            HttpStatus::HttpVersionNotSupported => 505,
            HttpStatus::VariantAlsoNegotiates => 506,
            HttpStatus::InsufficientStorage => 507,
            HttpStatus::LoopDetected => 508,
            HttpStatus::NotExtended => 510,
            HttpStatus::NetworkAuthenticationRequest => 511,
        }
    }

    /// The number of this status.
    pub fn code(&self) -> (r: u16)
        ensures
            r == self.spec_code(),
    {
        match self {
            HttpStatus::Continue => 100,
            HttpStatus::SwitchingProtocols => 101,
            HttpStatus::Processing => 102,
            HttpStatus::EarlyHints => 103,
            HttpStatus::OK => 200,
            HttpStatus::Created => 201,
            HttpStatus::Accepted => 202,
            HttpStatus::NonAuthoritativeInformation => 203,
            HttpStatus::NoContent => 204,
            HttpStatus::ResetContent => 205,
            HttpStatus::PartialContent => 206,
            HttpStatus::MultiStatus => 207,
            HttpStatus::AlreadyReported => 208,
            HttpStatus::IMUsed => 226,
            HttpStatus::MultipleChoices => 300,
            HttpStatus::MovedPermanently => 301,
            HttpStatus::Found => 302,
            HttpStatus::SeeOther => 303,
            HttpStatus::NotModified => 304,
            HttpStatus::UseProxy => 305,
            HttpStatus::SwitchProxy => 306,
            HttpStatus::TemporaryRedirect => 307,
            HttpStatus::PermanentRedirect => 308,
            HttpStatus::BadRequest => 400,
            HttpStatus::Unauthorized => 401,
            HttpStatus::PaymentRequired => 402,
            HttpStatus::Forbidden => 403,
            HttpStatus::NotFound => 404,
            HttpStatus::MethodNotAllowed => 405,
            HttpStatus::NotAcceptable => 406,
            HttpStatus::ProxyAuthenticationRequired => 407,
            HttpStatus::RequestTimeout => 408,
            HttpStatus::Conflict => 409,
            HttpStatus::Gone => 410,
            HttpStatus::LengthRequired => 411,
            HttpStatus::PreconditionFailed => 412,
            HttpStatus::PayloadTooLarge => 413,
            HttpStatus::URITooLong => 414,
            HttpStatus::UnsupportedMediaType => 415,
            HttpStatus::RangeNotSatisfiable => 416,
            HttpStatus::ExpectationFailed => 417,
            HttpStatus::ImATeapot => 418,
            HttpStatus::MisdirectedRequest => 421,
            HttpStatus::UnprocessableEntity => 422,
            HttpStatus::Locked => 423,
            HttpStatus::FailedDependency => 424,
            HttpStatus::UpgradeRequired => 426,
            HttpStatus::PreconditionRequired => 428,
            HttpStatus::TooManyRequests => 429,
            HttpStatus::RequestHeaderFieldsTooLarge => 431,
            HttpStatus::UnavailableForLegalReasons => 451,
            HttpStatus::InternalServerError => 500,
            HttpStatus::NotImplemented => 501,
            HttpStatus::BadGateway => 502,
            HttpStatus::ServiceUnavailable => 503,
            HttpStatus::GatewayTimeout => 504,
            HttpStatus::HttpVersionNotSupported => 505,
            HttpStatus::VariantAlsoNegotiates => 506,
            HttpStatus::InsufficientStorage => 507,
            HttpStatus::LoopDetected => 508,
            HttpStatus::NotExtended => 510,
            HttpStatus::NetworkAuthenticationRequest => 511,
        }
    }

    /// The status a number stands for; a number that stands for none is refused.
    pub fn from_code(c: u64) -> (r: Option<HttpStatus>)
        ensures
            r == status_of_code(c),
    {
        match c {
            100 => Some(HttpStatus::Continue),
            101 => Some(HttpStatus::SwitchingProtocols),
            102 => Some(HttpStatus::Processing),
            103 => Some(HttpStatus::EarlyHints),
            200 => Some(HttpStatus::OK),
            201 => Some(HttpStatus::Created),
            202 => Some(HttpStatus::Accepted),
            203 => Some(HttpStatus::NonAuthoritativeInformation),
            204 => Some(HttpStatus::NoContent),
            205 => Some(HttpStatus::ResetContent),
            206 => Some(HttpStatus::PartialContent),
            207 => Some(HttpStatus::MultiStatus),
            208 => Some(HttpStatus::AlreadyReported),
            226 => Some(HttpStatus::IMUsed),
            300 => Some(HttpStatus::MultipleChoices),
            301 => Some(HttpStatus::MovedPermanently),
            302 => Some(HttpStatus::Found),
            303 => Some(HttpStatus::SeeOther),
            304 => Some(HttpStatus::NotModified),
            305 => Some(HttpStatus::UseProxy),
            306 => Some(HttpStatus::SwitchProxy),
            307 => Some(HttpStatus::TemporaryRedirect),
            308 => Some(HttpStatus::PermanentRedirect),
            400 => Some(HttpStatus::BadRequest),
            401 => Some(HttpStatus::Unauthorized),
            402 => Some(HttpStatus::PaymentRequired),
            403 => Some(HttpStatus::Forbidden),
            404 => Some(HttpStatus::NotFound),
            405 => Some(HttpStatus::MethodNotAllowed),
            406 => Some(HttpStatus::NotAcceptable),
            407 => Some(HttpStatus::ProxyAuthenticationRequired),
            408 => Some(HttpStatus::RequestTimeout),
            409 => Some(HttpStatus::Conflict),
            410 => Some(HttpStatus::Gone),
            411 => Some(HttpStatus::LengthRequired),
            412 => Some(HttpStatus::PreconditionFailed),
            413 => Some(HttpStatus::PayloadTooLarge),
            414 => Some(HttpStatus::URITooLong),
            415 => Some(HttpStatus::UnsupportedMediaType),
            416 => Some(HttpStatus::RangeNotSatisfiable),
            417 => Some(HttpStatus::ExpectationFailed),
            418 => Some(HttpStatus::ImATeapot),
            421 => Some(HttpStatus::MisdirectedRequest),
            422 => Some(HttpStatus::UnprocessableEntity),
            423 => Some(HttpStatus::Locked),
            424 => Some(HttpStatus::FailedDependency),
            426 => Some(HttpStatus::UpgradeRequired),
            428 => Some(HttpStatus::PreconditionRequired),
            429 => Some(HttpStatus::TooManyRequests),
            431 => Some(HttpStatus::RequestHeaderFieldsTooLarge),
            451 => Some(HttpStatus::UnavailableForLegalReasons),
            500 => Some(HttpStatus::InternalServerError),
            501 => Some(HttpStatus::NotImplemented),
            502 => Some(HttpStatus::BadGateway),
            503 => Some(HttpStatus::ServiceUnavailable),
            504 => Some(HttpStatus::GatewayTimeout),
            505 => Some(HttpStatus::HttpVersionNotSupported),
            506 => Some(HttpStatus::VariantAlsoNegotiates),
            507 => Some(HttpStatus::InsufficientStorage),
            508 => Some(HttpStatus::LoopDetected),
            510 => Some(HttpStatus::NotExtended),
            511 => Some(HttpStatus::NetworkAuthenticationRequest),
            _ => None,
        }
    }
}

/// The order of two status numbers.
pub open spec fn compare_codes(a: u16, b: u16) -> core::cmp::Ordering {
    if a < b {
        core::cmp::Ordering::Less
    } else if a > b {
        core::cmp::Ordering::Greater
    } else {
        core::cmp::Ordering::Equal
    }
}

impl PartialOrd for HttpStatus {
    /// Statuses compare by their numbers.
    fn partial_cmp(&self, other: &HttpStatus) -> (r: Option<core::cmp::Ordering>)
        ensures
            r == Some(compare_codes(self.spec_code(), other.spec_code())),
    {
        let a = self.code();
        let b = other.code();
        if a < b {
            Some(core::cmp::Ordering::Less)
        } else if a > b {
            Some(core::cmp::Ordering::Greater)
        } else {
            Some(core::cmp::Ordering::Equal)
        }
    }
}

impl vstd::std_specs::cmp::PartialOrdSpecImpl for HttpStatus {
    open spec fn obeys_partial_cmp_spec() -> bool {
        true
    }

    open spec fn partial_cmp_spec(&self, other: &HttpStatus) -> Option<core::cmp::Ordering> {
        Some(compare_codes(self.spec_code(), other.spec_code()))
    }
}

/// Every status is found again from its number, and a number names at most that one status.
pub proof fn lemma_status_code_table(s: HttpStatus, c: u64)
    ensures
        status_of_code(s.spec_code() as u64) == Some(s),
        status_of_code(c) == Some(s) ==> s.spec_code() as u64 == c,
{
}

/// A status is a success when its number lies in the half-open range from 200 to 400.
pub open spec fn is_success_code(c: int) -> bool {
    200 <= c < 400
}

/// An HTTP response to send back to a client.
#[derive(Debug)]
pub struct HttpResponse {
    pub status: HttpStatus,
    pub headers: StringMap,
    pub body: Option<String>,
    pub is_base64_encoded: bool,
}

/// `x` is what the document `j` holds as a response. An absent base64 flag reads as false.
pub open spec fn http_response_from(j: Json, x: HttpResponse) -> bool {
    &&& u64_field(j, "statusCode"@) matches Some(c) && status_of_code(c) == Some(x.status)
    &&& map_field(j, "headers"@) == Some(x.headers@) && x.headers.wf()
    &&& opt_str_field(j, "body"@) == Some(opt_text(x.body))
    &&& flag_field(j, "isBase64Encoded"@) == Some(x.is_base64_encoded)
}

pub open spec fn http_response_ok(j: Json) -> bool {
    exists|x: HttpResponse| #[trigger] http_response_from(j, x)
}

/// A boolean member that reads as false when absent.
pub open spec fn flag_field(j: Json, key: Seq<char>) -> Option<bool> {
    match member(j, key) {
        None => Some(false),
        Some(Json::Bool(b)) => Some(b),
        _ => None,
    }
}

/// The canonical document for response `r`: exactly the status number, the headers as an object
/// of strings, the body as a string or null, and the base64 flag.
pub open spec fn response_document(r: HttpResponse, j: Json) -> bool {
    &&& j matches Json::Object(entries) && entries@.len() == 4
    &&& member(j, "statusCode"@) == Some(Json::Number(Number::PosInt(r.status.spec_code() as u64)))
    &&& member(j, "headers"@) matches Some(h) && as_text_map(h) == Some(r.headers@)
    &&& member(j, "body"@) matches Some(b) && nullable_text(b) == Some(opt_text(r.body))
    &&& member(j, "isBase64Encoded"@) == Some(Json::Bool(r.is_base64_encoded))
}

/// Members that carry, one for one, the keys and values of `pairs` give the same mapping.
proof fn lemma_members_of_pairs(members: Seq<(String, Json)>, pairs: Seq<(String, String)>)
    requires
        members.len() == pairs.len(),
        forall|i: int|
            0 <= i < members.len() ==> (#[trigger] members[i]).0@ == pairs[i].0@ && members[i].1
                is String && members[i].1->String_0@ == pairs[i].1@,
    ensures
        crate::json::all_string_members(members),
        crate::json::text_map(members) == pairs_map(pairs),
    decreases members.len(),
{
    if members.len() > 0 {
        lemma_members_of_pairs(members.drop_last(), pairs.drop_last());
    }
}

impl HttpResponse {
    /// A response with no body and no headers.
    pub fn empty(status: HttpStatus) -> (r: HttpResponse)
        ensures
            r.status == status,
            r.headers.wf(),
            r.headers@ == Map::<Seq<char>, Seq<char>>::empty(),
            r.body is None,
            !r.is_base64_encoded,
    {
        HttpResponse { status, headers: StringMap::new(), body: None, is_base64_encoded: false }
    }

    /// A response with a plain-text body and no headers.
    pub fn with_body(status: HttpStatus, body: &str) -> (r: HttpResponse)
        ensures
            r.status == status,
            r.headers.wf(),
            r.headers@ == Map::<Seq<char>, Seq<char>>::empty(),
            opt_text(r.body) == Some(body@),
            !r.is_base64_encoded,
    {
        HttpResponse {
            status,
            headers: StringMap::new(),
            body: Some(body.to_owned()),
            is_base64_encoded: false,
        }
    }

    /// Sets header `key` to `value`, replacing an earlier value of the same header.
    pub fn set_header(&mut self, key: &str, value: &str)
        requires
            old(self).headers.wf(),
        ensures
            final(self).headers.wf(),
            final(self).headers@ == old(self).headers@.insert(key@, value@),
            final(self).status == old(self).status,
            final(self).body == old(self).body,
            final(self).is_base64_encoded == old(self).is_base64_encoded,
    {
        self.headers.insert(key.to_owned(), value.to_owned());
    }

    /// Whether the status is a success: its number is at least 200 and below 400.
    pub fn success(&self) -> (r: bool)
        ensures
            r == is_success_code(self.status.spec_code() as int),
    {
        self.status >= HttpStatus::OK && self.status < HttpStatus::BadRequest
    }

    /// Writes the canonical response document.
    pub fn encode(&self) -> (r: Json)
        requires
            self.headers.wf(),
        ensures
            response_document(*self, r),
    {
        let pairs = &self.headers.entries;
        let mut members: Vec<(String, Json)> = Vec::new();
        let mut i: usize = 0;
        while i < pairs.len()
            invariant
                i <= pairs@.len(),
                members@.len() == i,
                forall|k: int|
                    0 <= k < i ==> (#[trigger] members@[k]).0@ == pairs@[k].0@ && members@[k].1
                        is String && members@[k].1->String_0@ == pairs@[k].1@,
            decreases pairs@.len() - i,
        {
            members.push((pairs[i].0.clone(), Json::String(pairs[i].1.clone())));
            i = i + 1;
        }
        proof {
            lemma_members_of_pairs(members@, pairs@);
        }
        let headers = Json::Object(members);
        let body = match &self.body {
            Some(b) => Json::String(b.clone()),
            None => Json::Null,
        };
        let status = Json::Number(Number::PosInt(self.status.code() as u64));
        let mut entries: Vec<(String, Json)> = Vec::new();
        entries.push((String::from_str("statusCode"), status));
        entries.push((String::from_str("headers"), headers));
        entries.push((String::from_str("body"), body));
        entries.push((String::from_str("isBase64Encoded"), Json::Bool(self.is_base64_encoded)));
        proof {
            reveal_strlit("statusCode");
            reveal_strlit("headers");
            reveal_strlit("body");
            reveal_strlit("isBase64Encoded");
            let e = entries@;
            assert(e[0].0@.len() == 10 && e[1].0@.len() == 7 && e[2].0@.len() == 4 && e[3].0@.len()
                == 15);
            let e1 = e.drop_first();
            let e2 = e1.drop_first();
            let e3 = e2.drop_first();
            assert(e1[0] == e[1] && e2[0] == e[2] && e3[0] == e[3]);
            assert(lookup(e, "statusCode"@) == Some(e[0].1));
            assert(lookup(e, "headers"@) == lookup(e1, "headers"@));
            assert(lookup(e, "headers"@) == Some(e[1].1));
            assert(lookup(e, "body"@) == lookup(e1, "body"@));
            assert(lookup(e1, "body"@) == lookup(e2, "body"@));
            assert(lookup(e, "body"@) == Some(e[2].1));
            assert(lookup(e, "isBase64Encoded"@) == lookup(e1, "isBase64Encoded"@));
            assert(lookup(e1, "isBase64Encoded"@) == lookup(e2, "isBase64Encoded"@));
            assert(lookup(e2, "isBase64Encoded"@) == lookup(e3, "isBase64Encoded"@));
            assert(lookup(e, "isBase64Encoded"@) == Some(e[3].1));
        }
        Json::Object(entries)
    }

    /// Reads a response document.
    pub fn decode(j: &Json) -> (r: Result<HttpResponse, DecodeError>)
        ensures
            match r {
                Ok(x) => http_response_from(*j, x),
                Err(_) => !http_response_ok(*j),
            },
    {
        let code = read_u64(j, "statusCode")?;
        let status = match HttpStatus::from_code(code) {
            Some(s) => s,
            None => return Err(DecodeError::at("statusCode")),
        };
        let headers = read_map(j, "headers")?;
        let body = read_opt_string(j, "body")?;
        let is_base64_encoded = match j.get("isBase64Encoded") {
            None => false,
            Some(Json::Bool(b)) => *b,
            _ => return Err(DecodeError::at("isBase64Encoded")),
        };
        Ok(HttpResponse { status, headers, body, is_base64_encoded })
    }
}

/// Reading back the document that `encode` writes for a response gives that response's status,
/// headers, body and base64 flag; and the document can always be read back.
pub proof fn lemma_encode_then_decode(r: HttpResponse, j: Json, x: HttpResponse)
    requires
        r.headers.wf(),
        response_document(r, j),
    ensures
        http_response_ok(j),
        http_response_from(j, x) ==> x.status == r.status && x.headers@ == r.headers@ && opt_text(
            x.body,
        ) == opt_text(r.body) && x.is_base64_encoded == r.is_base64_encoded,
{
    lemma_status_code_table(r.status, r.status.spec_code() as u64);
    assert(http_response_from(j, r));
    if http_response_from(j, x) {
        let c = u64_field(j, "statusCode"@)->0;
        lemma_status_code_table(x.status, c);
    }
}

} // verus!
