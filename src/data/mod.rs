//! Typed events, decoded from the documents that reach a function.
use vstd::prelude::*;

pub mod apicall;
pub mod apigateway;
pub mod autoscaling;
pub mod batch;
pub mod cloudwatch;
pub mod s3;
pub mod ses;
pub mod sns;

use self::apigateway::auth::{auth_event_from, auth_event_ok};
use self::apigateway::{http_event_from, http_event_ok, AuthEvent, HttpEvent};
use crate::json::{member, str_field, text_eq, DecodeError, Json};

verus! {

/// One entry of a record batch, chosen by the service that produced it.
pub enum Record {
    S3(s3::Record),
    Ses(ses::Record),
    Sns(sns::Record),
    /// An entry from a service this library does not know, kept as it was.
    Unrecognized(Json),
}

/// The name of the service that produced a record: the `eventSource` member, or, where a
/// producer spells the key `EventSource`, that member.
pub open spec fn source_tag(j: Json) -> Option<Seq<char>> {
    match member(j, "eventSource"@) {
        Some(Json::String(s)) => Some(s@),
        Some(_) => None,
        None => str_field(j, "EventSource"@),
    }
}

/// The source tag names a service this library decodes.
pub open spec fn known_source(t: Option<Seq<char>>) -> bool {
    t == Some("aws:s3"@) || t == Some("aws:ses"@) || t == Some("aws:sns"@)
}

/// `x` is the record `j` holds: the decoder is chosen by the source tag, and an entry from an
/// unknown source, or with no tag, is kept whole.
pub open spec fn record_from(j: Json, x: Record) -> bool {
    match x {
        Record::S3(r) => source_tag(j) == Some("aws:s3"@) && s3::record_from(j, r),
        Record::Ses(r) => source_tag(j) == Some("aws:ses"@) && ses::record_from(j, r),
        Record::Sns(r) => source_tag(j) == Some("aws:sns"@) && sns::record_from(j, r),
        Record::Unrecognized(raw) => !known_source(source_tag(j)) && raw == j,
    }
}

/// The entry can be decoded: its service's decoder accepts it, or its source is unknown.
pub open spec fn record_ok(j: Json) -> bool {
    if source_tag(j) == Some("aws:s3"@) {
        s3::record_ok(j)
    } else if source_tag(j) == Some("aws:ses"@) {
        ses::record_ok(j)
    } else if source_tag(j) == Some("aws:sns"@) {
        sns::record_ok(j)
    } else {
        true
    }
}

/// The source tag of a record, read under either casing of its key before any decoder runs.
pub fn event_source(j: &Json) -> (r: Option<&str>)
    ensures
        match r {
            Some(s) => source_tag(*j) == Some(s@),
            None => source_tag(*j) is None,
        },
{
    match j.get("eventSource") {
        Some(Json::String(s)) => Some(s.as_str()),
        Some(_) => None,
        None => match j.get("EventSource") {
            Some(Json::String(s)) => Some(s.as_str()),
            _ => None,
        },
    }
}

impl Record {
    /// Decodes one entry of a record batch, taking it.
    pub fn decode(j: Json) -> (r: Result<Record, DecodeError>)
        ensures
            match r {
                Ok(x) => record_from(j, x),
                Err(_) => !record_ok(j),
            },
    {
        let is_s3;
        let is_ses;
        let is_sns;
        match event_source(&j) {
            Some(t) => {
                is_s3 = text_eq(t, "aws:s3");
                is_ses = text_eq(t, "aws:ses");
                is_sns = text_eq(t, "aws:sns");
            },
            None => {
                is_s3 = false;
                is_ses = false;
                is_sns = false;
            },
        }
        if is_s3 {
            Ok(Record::S3(s3::Record::decode(&j)?))
        } else if is_ses {
            Ok(Record::Ses(ses::Record::decode(&j)?))
        } else if is_sns {
            Ok(Record::Sns(sns::Record::decode(&j)?))
        } else {
            Ok(Record::Unrecognized(j))
        }
    }

    /// Whether an entry of a record batch can be decoded.
    pub fn check(j: &Json) -> (r: bool)
        ensures
            r == record_ok(*j),
    {
        match event_source(j) {
            Some(t) => if text_eq(t, "aws:s3") {
                s3::Record::decode(j).is_ok()
            } else if text_eq(t, "aws:ses") {
                ses::Record::decode(j).is_ok()
            } else if text_eq(t, "aws:sns") {
                sns::Record::decode(j).is_ok()
            } else {
                true
            },
            None => true,
        }
    }
}

/// A record names its service under the alternate casing `EventSource` only: it is dispatched
/// on that name, to the decoder of that service, as if the key had its canonical casing.
pub proof fn lemma_alternate_casing(j: Json, x: Record)
    requires
        member(j, "eventSource"@) is None,
        record_from(j, x),
    ensures
        source_tag(j) == str_field(j, "EventSource"@),
        str_field(j, "EventSource"@) == Some("aws:s3"@) ==> (x matches Record::S3(r) && s3::record_from(j, r)),
        str_field(j, "EventSource"@) == Some("aws:ses"@) ==> (x matches Record::Ses(r) && ses::record_from(j, r)),
        str_field(j, "EventSource"@) == Some("aws:sns"@) ==> (x matches Record::Sns(r) && sns::record_from(j, r)),
{
    reveal_strlit("aws:s3");
    reveal_strlit("aws:ses");
    reveal_strlit("aws:sns");
    assert("aws:s3"@.len() == 6 && "aws:ses"@.len() == 7 && "aws:sns"@.len() == 7);
    assert("aws:ses"@[5] != "aws:sns"@[5]);
}

/// The entries of a record batch, one record for each.
pub open spec fn records_from(j: Json, rs: Seq<Record>) -> bool {
    member(j, "Records"@) matches Some(Json::Array(items)) && items@.len() == rs.len() && forall|i: int|
        0 <= i < rs.len() ==> record_from(items@[i], #[trigger] rs[i])
}

/// The document is a record batch whose every entry can be decoded.
pub open spec fn records_ok(j: Json) -> bool {
    member(j, "Records"@) matches Some(Json::Array(items)) && forall|i: int|
        0 <= i < items@.len() ==> record_ok(#[trigger] items@[i])
}

/// Decodes a record batch, taking the document; when it is not one it is given back unchanged.
pub fn decode_records(j: Json) -> (r: Result<Vec<Record>, Json>)
    ensures
        match r {
            Ok(rs) => records_from(j, rs@),
            Err(back) => back == j && !records_ok(j),
        },
{
    let all_ok = match j.get("Records") {
        Some(Json::Array(items)) => {
            let mut ok = true;
            let mut i: usize = 0;
            while i < items.len()
                invariant
                    member(j, "Records"@) == Some(Json::Array(*items)),
                    i <= items@.len(),
                    ok == forall|k: int| 0 <= k < i ==> record_ok(#[trigger] items@[k]),
                decreases items@.len() - i,
            {
                let c = Record::check(&items[i]);
                proof {
                    if ok && c {
                        assert forall|k: int| 0 <= k < i + 1 implies record_ok(#[trigger] items@[k]) by {
                            if k == i {
                            }
                        }
                    }
                }
                ok = ok && c;
                i = i + 1;
            }
            ok
        },
        _ => false,
    };
    if !all_ok {
        return Err(j);
    }
    let ghost whole = j;
    let mut items = match j.into_member("Records") {
        Some(Json::Array(items)) => items,
        _ => {
            proof {
                assert(false);
            }
            return Err(Json::Null);
        },
    };
    let ghost orig = items@;
    let mut out: Vec<Record> = Vec::new();
    while items.len() > 0
        invariant
            member(whole, "Records"@) matches Some(Json::Array(v)) && v@ == orig,
            out@.len() <= orig.len(),
            items@ == orig.subrange(out@.len() as int, orig.len() as int),
            forall|k: int| 0 <= k < orig.len() ==> record_ok(#[trigger] orig[k]),
            forall|k: int| 0 <= k < out@.len() ==> record_from(orig[k], #[trigger] out@[k]),
        decreases items@.len(),
    {
        let item = items.remove(0);
        assert(item == orig[out@.len() as int]);
        match Record::decode(item) {
            Ok(rec) => out.push(rec),
            Err(_) => {
                proof {
                    assert(false);
                }
                return Err(Json::Null);
            },
        }
    }
    Ok(out)
}

/// A decoded document: exactly one of the shapes that can reach a function.
pub enum Event {
    ScheduledNotification(cloudwatch::Event),
    AuthorizationRequest(AuthEvent),
    HttpRequest(HttpEvent),
    RecordBatch(Vec<Record>),
    /// A document of no known shape, kept as it was.
    Unrecognized(Json),
}

/// `e` is the event `j` holds. The shapes are tried in a fixed order: a scheduled notification,
/// an authorization request, an HTTP request, a record batch; the first that reads wins, and a
/// document that none reads is kept whole.
pub open spec fn event_from(j: Json, e: Event) -> bool {
    match e {
        Event::ScheduledNotification(x) => cloudwatch::event_from(j, x),
        Event::AuthorizationRequest(x) => !cloudwatch::event_ok(j) && auth_event_from(j, x),
        Event::HttpRequest(x) => !cloudwatch::event_ok(j) && !auth_event_ok(j) && http_event_from(j, x),
        Event::RecordBatch(rs) => !cloudwatch::event_ok(j) && !auth_event_ok(j) && !http_event_ok(j)
            && records_from(j, rs@),
        Event::Unrecognized(raw) => !cloudwatch::event_ok(j) && !auth_event_ok(j) && !http_event_ok(j)
            && !records_ok(j) && raw == j,
    }
}

impl Event {
    /// Decodes a document; this never fails, a document of no known shape is `Unrecognized`.
    pub fn decode(doc: Json) -> (r: Event)
        ensures
            event_from(doc, r),
    {
        let doc = match cloudwatch::Event::decode(doc) {
            Ok(x) => return Event::ScheduledNotification(x),
            Err(back) => back,
        };
        if let Ok(x) = AuthEvent::decode(&doc) {
            return Event::AuthorizationRequest(x);
        }
        if let Ok(x) = HttpEvent::decode(&doc) {
            return Event::HttpRequest(x);
        }
        match decode_records(doc) {
            Ok(rs) => Event::RecordBatch(rs),
            Err(back) => Event::Unrecognized(back),
        }
    }
}

} // verus!
