use crowbar::data::apigateway::{AuthEffect, HttpMethod, HttpResponse, HttpStatus};
use crowbar::data::autoscaling::{EventStatus, EventType};
use crowbar::data::ses::{Response, ResponseAction};
use crowbar::json::{Json, Number};
use crowbar::map::StringMap;
use crowbar::time::{elapsed, parse_timestamp, Timestamp};
use crowbar::ContextError;

fn member<'a>(j: &'a Json, key: &str) -> Option<&'a Json> {
    j.get(key)
}

#[test]
fn success_is_a_half_open_range() {
    assert!(HttpResponse::empty(HttpStatus::OK).success());
    assert!(HttpResponse::empty(HttpStatus::PermanentRedirect).success());
    assert!(!HttpResponse::empty(HttpStatus::BadRequest).success());
    assert!(!HttpResponse::empty(HttpStatus::EarlyHints).success());
    assert!(!HttpResponse::empty(HttpStatus::InternalServerError).success());
}

#[test]
fn statuses_order_by_number() {
    assert!(HttpStatus::OK < HttpStatus::BadRequest);
    assert!(HttpStatus::NotFound > HttpStatus::Found);
    assert!(HttpStatus::Gone >= HttpStatus::Gone);
    assert!(!(HttpStatus::Continue > HttpStatus::SwitchingProtocols));
}

#[test]
fn status_codes_round_trip() {
    assert_eq!(HttpStatus::OK.code(), 200);
    assert_eq!(HttpStatus::NotFound.code(), 404);
    assert_eq!(HttpStatus::NetworkAuthenticationRequest.code(), 511);
    assert_eq!(HttpStatus::from_code(418), Some(HttpStatus::ImATeapot));
    assert_eq!(HttpStatus::from_code(399), None);
    assert_eq!(HttpStatus::from_code(600), None);
}

#[test]
fn set_header_replaces_an_earlier_value() {
    let mut r = HttpResponse::with_body(HttpStatus::Created, "made");
    r.set_header("Content-Type", "text/plain");
    r.set_header("X-Trace", "1");
    r.set_header("Content-Type", "application/json");
    assert_eq!(r.headers.len(), 2);
    assert_eq!(r.headers.get("Content-Type"), Some("application/json"));
    assert_eq!(r.headers.get("X-Trace"), Some("1"));
    assert_eq!(r.body.as_deref(), Some("made"));
    assert!(!r.is_base64_encoded);
}

#[test]
fn encoded_response_has_the_canonical_members() {
    let mut r = HttpResponse::with_body(HttpStatus::NotFound, "missing");
    r.set_header("Cache-Control", "no-cache");
    let j = r.encode();
    assert!(matches!(member(&j, "statusCode"), Some(Json::Number(Number::PosInt(404)))));
    assert!(matches!(member(&j, "body"), Some(Json::String(s)) if s == "missing"));
    assert!(matches!(member(&j, "isBase64Encoded"), Some(Json::Bool(false))));
    match member(&j, "headers") {
        Some(Json::Object(m)) => {
            assert_eq!(m.len(), 1);
            assert_eq!(m[0].0, "Cache-Control");
            assert!(matches!(&m[0].1, Json::String(v) if v == "no-cache"));
        }
        _ => panic!("no headers"),
    }
    let empty = HttpResponse::empty(HttpStatus::NoContent).encode();
    assert!(matches!(member(&empty, "body"), Some(Json::Null)));
}

#[test]
fn response_survives_encode_then_decode() {
    let mut r = HttpResponse::with_body(HttpStatus::OK, "{\"ok\":true}");
    r.set_header("Content-Type", "application/json");
    r.set_header("X-Request", "abc");
    let back = HttpResponse::decode(&r.encode()).unwrap();
    assert_eq!(back.status, HttpStatus::OK);
    assert_eq!(back.body.as_deref(), Some("{\"ok\":true}"));
    assert_eq!(back.headers.len(), 2);
    assert_eq!(back.headers.get("Content-Type"), Some("application/json"));
    assert_eq!(back.headers.get("X-Request"), Some("abc"));
    assert!(!back.is_base64_encoded);
}

#[test]
fn unknown_status_code_fails_decoding() {
    let j = Json::Object(vec![
        ("statusCode".to_string(), Json::Number(Number::PosInt(299))),
        ("headers".to_string(), Json::Object(vec![])),
        ("body".to_string(), Json::Null),
    ]);
    let err = HttpResponse::decode(&j).unwrap_err();
    assert_eq!(err.path, vec!["statusCode".to_string()]);
}

#[test]
fn epoch_millis_split_into_seconds_and_nanos() {
    let t = Timestamp::from_epoch_millis(1519424976415);
    assert_eq!(t.secs, 1519424976);
    assert_eq!(t.nanos, 415_000_000);
}

#[test]
fn timestamps_are_read_from_rfc3339() {
    let t = parse_timestamp("2015-11-11T21:31:46.829Z").unwrap();
    assert_eq!(t.secs, 1447277506);
    assert_eq!(t.nanos, 829_000_000);
    let shifted = parse_timestamp("2015-11-11T22:31:46.829+01:00").unwrap();
    assert_eq!(shifted, t);
    assert_eq!(parse_timestamp("yesterday"), None);
}

#[test]
fn elapsed_is_the_distance_either_way() {
    let a = Timestamp { secs: 10, nanos: 500 };
    let b = Timestamp { secs: 12, nanos: 100 };
    assert_eq!(elapsed(a, b), 1_999_999_600);
    assert_eq!(elapsed(b, a), 1_999_999_600);
    assert_eq!(elapsed(a, a), 0);
}

#[test]
fn event_type_names_map_to_status() {
    assert_eq!(EventType::from_name("EC2 Instance Launch Unsuccessful").status(), EventStatus::Failure);
    assert_eq!(EventType::from_name("EC2 Instance Terminate Successful").status(), EventStatus::Success);
    assert_eq!(EventType::from_name("something new").status(), EventStatus::Unknown);
}

#[test]
fn summary_names_protocol_method_path_and_query() {
    let text = r#"{"httpMethod": "POST", "isBase64Encoded": false, "path": "/items", "resource": "/items",
        "body": "x", "queryStringParameters": {"b": "2", "a": "1"},
        "requestContext": {"accountId": "1", "apiId": "a", "httpMethod": "POST", "identity": {},
        "path": "/items", "requestId": "r", "resourceId": "i", "resourcePath": "/items", "stage": "s"}}"#;
    let v: serde_json::Value = serde_json::from_str(text).unwrap();
    let j = to_json(&v);
    let e = crowbar::data::apigateway::HttpEvent::decode(&j).unwrap();
    assert_eq!(e.describe(), "(unknown) POST /itemsa=1&b=2 (body? true)");
}

fn to_json(v: &serde_json::Value) -> Json {
    match v {
        serde_json::Value::Null => Json::Null,
        serde_json::Value::Bool(b) => Json::Bool(*b),
        serde_json::Value::Number(n) => Json::Number(Number::PosInt(n.as_u64().unwrap())),
        serde_json::Value::String(s) => Json::String(s.clone()),
        serde_json::Value::Array(a) => Json::Array(a.iter().map(to_json).collect()),
        serde_json::Value::Object(m) => Json::Object(m.iter().map(|(k, v)| (k.clone(), to_json(v))).collect()),
    }
}

#[test]
fn names_of_closed_vocabularies() {
    assert_eq!(HttpMethod::DELETE.name(), "DELETE");
    assert_eq!(HttpMethod::from_name("OPTIONS"), Some(HttpMethod::OPTIONS));
    assert_eq!(HttpMethod::from_name("get"), None);
    assert_eq!(AuthEffect::Allow.name(), "Allow");
    assert_eq!(AuthEffect::Deny.name(), "Deny");
}

#[test]
fn mail_dispositions() {
    assert_eq!(Response::proceed().action, ResponseAction::Continue);
    assert_eq!(Response::stop_rule().action, ResponseAction::StopRule);
    assert_eq!(Response::stop_rule_set().action, ResponseAction::StopRuleSet);
    assert_eq!(Response::from(ResponseAction::StopRule).action, ResponseAction::StopRule);
    match Response::stop_rule_set().encode() {
        Json::Object(m) => {
            assert_eq!(m[0].0, "disposition");
            assert!(matches!(&m[0].1, Json::String(s) if s == "STOP_RULE_SET"));
        }
        _ => panic!("not an object"),
    }
}

#[test]
fn string_map_keeps_one_value_per_key() {
    let mut m = StringMap::new();
    m.insert("a".to_string(), "1".to_string());
    m.insert("b".to_string(), "2".to_string());
    m.insert("a".to_string(), "3".to_string());
    assert_eq!(m.len(), 2);
    assert_eq!(m.get("a"), Some("3"));
    assert_eq!(m.get("c"), None);
}

#[test]
fn context_error_describes_itself() {
    assert_eq!(ContextError::GetRemainingTimeFailed.description(), "failed to call get_remaining_time_in_millis");
}
