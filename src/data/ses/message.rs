//! The mail and receipt carried by a mail-receipt notification.
use vstd::prelude::*;

use crate::json::{nested, 
    bool_field, list_from, member, opt_str_field, opt_text, read_bool, read_list, read_opt_string,
    read_string, read_string_list, read_u64, required, str_field, str_list_field, text_eq, texts,
    u64_field, DecodeError, Json,
};
use crate::time::{read_time, time_field, Timestamp};

verus! {

/// A mail-receipt notification with the message content.
pub struct Message {
    pub content: String,
    pub details: Details,
    pub notification_type: NotificationType,
    pub receipt: Receipt,
}

pub open spec fn message_from(j: Json, x: Message) -> bool {
    &&& str_field(j, "content"@) == Some(x.content@)
    &&& member(j, "mail"@) matches Some(m) && details_from(m, x.details)
    &&& str_field(j, "notificationType"@) == Some("Received"@)
    &&& member(j, "receipt"@) matches Some(r) && receipt_from(r, x.receipt)
}

pub open spec fn message_ok(j: Json) -> bool {
    exists|x: Message| #[trigger] message_from(j, x)
}

impl Message {
    pub fn decode(j: &Json) -> (r: Result<Message, DecodeError>)
        ensures
            match r {
                Ok(x) => message_from(*j, x),
                Err(_) => !message_ok(*j),
            },
    {
        let content = read_string(j, "content")?;
        let details = nested(Details::decode(required(j, "mail")?), "mail")?;
        let n = read_string(j, "notificationType")?;
        if !text_eq(n.as_str(), "Received") {
            return Err(DecodeError::at("notificationType"));
        }
        let receipt = nested(Receipt::decode(required(j, "receipt")?), "receipt")?;
        Ok(Message { content, details, notification_type: NotificationType::Received, receipt })
    }
}

/// The kind of a notification.
#[derive(Clone, Copy, Debug, PartialEq, Eq, Structural)]
pub enum NotificationType {
    Received,
}

/// The envelope and headers of a received mail.
pub struct Details {
    pub destination: Vec<String>,
    pub headers_truncated: bool,
    pub message_id: String,
    pub source: String,
    pub timestamp: Timestamp,
    pub headers: Vec<Header>,
    pub common_headers: CommonHeaders,
}

pub open spec fn details_from(j: Json, x: Details) -> bool {
    &&& str_list_field(j, "destination"@) == Some(texts(x.destination@))
    &&& bool_field(j, "headersTruncated"@) == Some(x.headers_truncated)
    &&& str_field(j, "messageId"@) == Some(x.message_id@)
    &&& str_field(j, "source"@) == Some(x.source@)
    &&& time_field(j, "timestamp"@) == Some(x.timestamp)
    &&& member(j, "headers"@) matches Some(h) && list_from(h, x.headers@, header_rel())
    &&& member(j, "commonHeaders"@) matches Some(c) && common_headers_from(c, x.common_headers)
}

pub open spec fn details_ok(j: Json) -> bool {
    exists|x: Details| #[trigger] details_from(j, x)
}

impl Details {
    pub fn decode(j: &Json) -> (r: Result<Details, DecodeError>)
        ensures
            match r {
                Ok(x) => details_from(*j, x),
                Err(_) => !details_ok(*j),
            },
    {
        let destination = read_string_list(j, "destination")?;
        let headers_truncated = read_bool(j, "headersTruncated")?;
        let message_id = read_string(j, "messageId")?;
        let source = read_string(j, "source")?;
        let timestamp = read_time(j, "timestamp")?;
        let headers = read_list(required(j, "headers")?, "headers", Header::decode, Ghost(header_rel()))?;
        let common_headers = nested(CommonHeaders::decode(required(j, "commonHeaders")?), "commonHeaders")?;
        Ok(Details { destination, headers_truncated, message_id, source, timestamp, headers, common_headers })
    }
}

/// One mail header.
pub struct Header {
    pub name: String,
    pub value: String,
}

pub open spec fn header_from(j: Json, x: Header) -> bool {
    &&& str_field(j, "name"@) == Some(x.name@)
    &&& str_field(j, "value"@) == Some(x.value@)
}

pub open spec fn header_ok(j: Json) -> bool {
    exists|x: Header| #[trigger] header_from(j, x)
}

pub open spec fn header_rel() -> spec_fn(Json, Header) -> bool {
    |j: Json, x: Header| header_from(j, x)
}

impl Header {
    pub fn decode(j: &Json) -> (r: Result<Header, DecodeError>)
        ensures
            match r {
                Ok(x) => header_from(*j, x),
                Err(_) => !header_ok(*j),
            },
    {
        let name = read_string(j, "name")?;
        let value = read_string(j, "value")?;
        Ok(Header { name, value })
    }
}

/// The headers every mail has.
pub struct CommonHeaders {
    pub date: String,
    pub from: Vec<String>,
    pub message_id: String,
    pub return_path: String,
    pub subject: String,
    pub to: Vec<String>,
}

pub open spec fn common_headers_from(j: Json, x: CommonHeaders) -> bool {
    &&& str_field(j, "date"@) == Some(x.date@)
    &&& str_list_field(j, "from"@) == Some(texts(x.from@))
    &&& str_field(j, "messageId"@) == Some(x.message_id@)
    &&& str_field(j, "returnPath"@) == Some(x.return_path@)
    &&& str_field(j, "subject"@) == Some(x.subject@)
    &&& str_list_field(j, "to"@) == Some(texts(x.to@))
}

pub open spec fn common_headers_ok(j: Json) -> bool {
    exists|x: CommonHeaders| #[trigger] common_headers_from(j, x)
}

impl CommonHeaders {
    pub fn decode(j: &Json) -> (r: Result<CommonHeaders, DecodeError>)
        ensures
            match r {
                Ok(x) => common_headers_from(*j, x),
                Err(_) => !common_headers_ok(*j),
            },
    {
        let date = read_string(j, "date")?;
        let from = read_string_list(j, "from")?;
        let message_id = read_string(j, "messageId")?;
        let return_path = read_string(j, "returnPath")?;
        let subject = read_string(j, "subject")?;
        let to = read_string_list(j, "to")?;
        Ok(CommonHeaders { date, from, message_id, return_path, subject, to })
    }
}

/// The kind of a receipt rule action.
#[derive(Clone, Copy, Debug, PartialEq, Eq, Structural)]
pub enum ActionType {
    Bounce,
    Lambda,
    S3,
    Sns,
    Stop,
    WorkMail,
}

pub open spec fn action_type_named(s: Seq<char>) -> Option<ActionType> {
    if s == "Bounce"@ {
        Some(ActionType::Bounce)
    } else if s == "Lambda"@ {
        Some(ActionType::Lambda)
    } else if s == "S3"@ {
        Some(ActionType::S3)
    } else if s == "SNS"@ {
        Some(ActionType::Sns)
    } else if s == "Stop"@ {
        Some(ActionType::Stop)
    } else if s == "WorkMail"@ {
        Some(ActionType::WorkMail)
    } else {
        None
    }
}

impl ActionType {
    pub fn from_name(s: &str) -> (r: Option<ActionType>)
        ensures
            r == action_type_named(s@),
    {
        if text_eq(s, "Bounce") {
            Some(ActionType::Bounce)
        } else if text_eq(s, "Lambda") {
            Some(ActionType::Lambda)
        } else if text_eq(s, "S3") {
            Some(ActionType::S3)
        } else if text_eq(s, "SNS") {
            Some(ActionType::Sns)
        } else if text_eq(s, "Stop") {
            Some(ActionType::Stop)
        } else if text_eq(s, "WorkMail") {
            Some(ActionType::WorkMail)
        } else {
            None
        }
    }
}

/// The outcome of the receipt rules and of the checks made on the mail.
pub struct Receipt {
    pub action: Action,
    pub dkim_verdict: DkimVerdict,
    pub dmarc_policy: Option<DmarcPolicy>,
    pub dmarc_verdict: DmarcVerdict,
    pub processing_time_millis: u64,
    pub recipients: Vec<String>,
    pub spam_verdict: SpamVerdict,
    pub spf_verdict: SpfVerdict,
    pub timestamp: Timestamp,
    pub virus_verdict: VirusVerdict,
}

pub open spec fn receipt_from(j: Json, x: Receipt) -> bool {
    &&& member(j, "action"@) matches Some(a) && action_from(a, x.action)
    &&& verdict_field(j, "dkimVerdict"@) == Some(x.dkim_verdict)
    &&& match opt_str_field(j, "dmarcPolicy"@) {
        Some(None) => x.dmarc_policy is None,
        Some(Some(p)) => dmarc_policy_named(p) matches Some(d) && x.dmarc_policy == Some(d),
        None => false,
    }
    &&& verdict_field(j, "dmarcVerdict"@) == Some(x.dmarc_verdict)
    &&& u64_field(j, "processingTimeMillis"@) == Some(x.processing_time_millis)
    &&& str_list_field(j, "recipients"@) == Some(texts(x.recipients@))
    &&& verdict_field(j, "spamVerdict"@) == Some(x.spam_verdict)
    &&& verdict_field(j, "spfVerdict"@) == Some(x.spf_verdict)
    &&& time_field(j, "timestamp"@) == Some(x.timestamp)
    &&& verdict_field(j, "virusVerdict"@) == Some(x.virus_verdict)
}

pub open spec fn receipt_ok(j: Json) -> bool {
    exists|x: Receipt| #[trigger] receipt_from(j, x)
}

impl Receipt {
    pub fn decode(j: &Json) -> (r: Result<Receipt, DecodeError>)
        ensures
            match r {
                Ok(x) => receipt_from(*j, x),
                Err(_) => !receipt_ok(*j),
            },
    {
        let action = nested(Action::decode(required(j, "action")?), "action")?;
        let dkim_verdict = read_verdict(j, "dkimVerdict")?;
        let dmarc_policy = match read_opt_string(j, "dmarcPolicy")? {
            None => None,
            Some(p) => match DmarcPolicy::from_name(p.as_str()) {
                Some(d) => Some(d),
                None => return Err(DecodeError::at("dmarcPolicy")),
            },
        };
        let dmarc_verdict = read_verdict(j, "dmarcVerdict")?;
        let processing_time_millis = read_u64(j, "processingTimeMillis")?;
        let recipients = read_string_list(j, "recipients")?;
        let spam_verdict = read_verdict(j, "spamVerdict")?;
        let spf_verdict = read_verdict(j, "spfVerdict")?;
        let timestamp = read_time(j, "timestamp")?;
        let virus_verdict = read_verdict(j, "virusVerdict")?;
        Ok(Receipt {
            action,
            dkim_verdict,
            dmarc_policy,
            dmarc_verdict,
            processing_time_millis,
            recipients,
            spam_verdict,
            spf_verdict,
            timestamp,
            virus_verdict,
        })
    }
}

/// The outcome of one check on a mail; the same vocabulary serves every check.
#[derive(Clone, Copy, Debug, PartialEq, Eq, Structural)]
pub enum Verdict {
    Fail,
    Gray,
    Pass,
    ProcessingFailed,
}

pub type DkimVerdict = Verdict;

pub type DmarcVerdict = Verdict;

pub type SpamVerdict = Verdict;

pub type SpfVerdict = Verdict;

pub type VirusVerdict = Verdict;

pub open spec fn verdict_named(s: Seq<char>) -> Option<Verdict> {
    if s == "FAIL"@ {
        Some(Verdict::Fail)
    } else if s == "GRAY"@ {
        Some(Verdict::Gray)
    } else if s == "PASS"@ {
        Some(Verdict::Pass)
    } else if s == "PROCESSING_FAILED"@ {
        Some(Verdict::ProcessingFailed)
    } else {
        None
    }
}

/// A verdict member: an object whose `status` names the verdict.
pub open spec fn verdict_field(j: Json, key: Seq<char>) -> Option<Verdict> {
    match member(j, key) {
        Some(v) => match str_field(v, "status"@) {
            Some(s) => verdict_named(s),
            None => None,
        },
        None => None,
    }
}

impl Verdict {
    pub fn from_name(s: &str) -> (r: Option<Verdict>)
        ensures
            r == verdict_named(s@),
    {
        if text_eq(s, "FAIL") {
            Some(Verdict::Fail)
        } else if text_eq(s, "GRAY") {
            Some(Verdict::Gray)
        } else if text_eq(s, "PASS") {
            Some(Verdict::Pass)
        } else if text_eq(s, "PROCESSING_FAILED") {
            Some(Verdict::ProcessingFailed)
        } else {
            None
        }
    }
}

fn read_verdict(j: &Json, key: &str) -> (r: Result<Verdict, DecodeError>)
    ensures
        match r {
            Ok(v) => verdict_field(*j, key@) == Some(v),
            Err(_) => verdict_field(*j, key@) is None,
        },
{
    let s = nested(read_string(required(j, key)?, "status"), key)?;
    match Verdict::from_name(s.as_str()) {
        Some(v) => Ok(v),
        None => Err(DecodeError::at(key)),
    }
}

/// The DMARC policy of the sending domain.
#[derive(Clone, Copy, Debug, PartialEq, Eq, Structural)]
pub enum DmarcPolicy {
    Absent,
    Quarantine,
    Reject,
}

pub open spec fn dmarc_policy_named(s: Seq<char>) -> Option<DmarcPolicy> {
    if s == "NONE"@ {
        Some(DmarcPolicy::Absent)
    } else if s == "QUARANTINE"@ {
        Some(DmarcPolicy::Quarantine)
    } else if s == "REJECT"@ {
        Some(DmarcPolicy::Reject)
    } else {
        None
    }
}

impl DmarcPolicy {
    pub fn from_name(s: &str) -> (r: Option<DmarcPolicy>)
        ensures
            r == dmarc_policy_named(s@),
    {
        if text_eq(s, "NONE") {
            Some(DmarcPolicy::Absent)
        } else if text_eq(s, "QUARANTINE") {
            Some(DmarcPolicy::Quarantine)
        } else if text_eq(s, "REJECT") {
            Some(DmarcPolicy::Reject)
        } else {
            None
        }
    }
}

/// The receipt rule action that was taken, chosen by the object's `type` member.
pub enum Action {
    Lambda(LambdaAction),
    Sns(SnsAction),
    S3(S3Action),
    Bounce(BounceAction),
    Stop(StopAction),
    WorkMail(WorkMailAction),
}

pub open spec fn action_from(j: Json, x: Action) -> bool {
    str_field(j, "type"@) matches Some(t) && match x {
        Action::Lambda(a) => {
            &&& t == "Lambda"@
            &&& str_field(j, "invocationType"@) matches Some(i) && invocation_type_named(i) == Some(
                a.invocation_type,
            )
            &&& opt_str_field(j, "functionArn"@) == Some(opt_text(a.function_arn))
        },
        Action::Sns(a) => t == "SNS"@ && str_field(j, "topicArn"@) == Some(a.topic_arn@),
        Action::S3(a) => t == "S3"@ && str_field(j, "bucketName"@) == Some(a.bucket_name@) && str_field(
            j,
            "objectKey"@,
        ) == Some(a.object_key@),
        Action::Bounce(a) => t == "Bounce"@ && str_field(j, "smtpReplyCode"@) == Some(a.smtp_reply_code@)
            && str_field(j, "statusCode"@) == Some(a.status_code@) && str_field(j, "message"@) == Some(
            a.message@,
        ) && str_field(j, "sender"@) == Some(a.sender@),
        Action::Stop(_) => t == "Stop"@,
        Action::WorkMail(a) => t == "WorkMail"@ && str_field(j, "organizationArn"@) == Some(
            a.organization_arn@,
        ),
    }
}

pub open spec fn action_ok(j: Json) -> bool {
    exists|x: Action| #[trigger] action_from(j, x)
}

impl Action {
    pub fn decode(j: &Json) -> (r: Result<Action, DecodeError>)
        ensures
            match r {
                Ok(x) => action_from(*j, x),
                Err(_) => !action_ok(*j),
            },
    {
        let t = read_string(j, "type")?;
        proof {
            reveal_strlit("Lambda");
            reveal_strlit("SNS");
            reveal_strlit("S3");
            reveal_strlit("Bounce");
            reveal_strlit("Stop");
            reveal_strlit("WorkMail");
            assert("Lambda"@[0] != "Bounce"@[0]);
            assert("Lambda"@.len() == 6 && "SNS"@.len() == 3 && "S3"@.len() == 2 && "Bounce"@.len() == 6
                && "Stop"@.len() == 4 && "WorkMail"@.len() == 8);
        }
        if text_eq(t.as_str(), "Lambda") {
            let function_arn = read_opt_string(j, "functionArn")?;
            let i = read_string(j, "invocationType")?;
            let invocation_type = match LambdaInvocationType::from_name(i.as_str()) {
                Some(v) => v,
                None => return Err(DecodeError::at("invocationType")),
            };
            Ok(Action::Lambda(LambdaAction { function_arn, invocation_type }))
        } else if text_eq(t.as_str(), "SNS") {
            let topic_arn = read_string(j, "topicArn")?;
            Ok(Action::Sns(SnsAction { topic_arn }))
        } else if text_eq(t.as_str(), "S3") {
            let bucket_name = read_string(j, "bucketName")?;
            let object_key = read_string(j, "objectKey")?;
            Ok(Action::S3(S3Action { bucket_name, object_key }))
        } else if text_eq(t.as_str(), "Bounce") {
            let smtp_reply_code = read_string(j, "smtpReplyCode")?;
            let status_code = read_string(j, "statusCode")?;
            let message = read_string(j, "message")?;
            let sender = read_string(j, "sender")?;
            Ok(Action::Bounce(BounceAction { smtp_reply_code, status_code, message, sender }))
        } else if text_eq(t.as_str(), "Stop") {
            Ok(Action::Stop(StopAction {  }))
        } else if text_eq(t.as_str(), "WorkMail") {
            let organization_arn = read_string(j, "organizationArn")?;
            Ok(Action::WorkMail(WorkMailAction { organization_arn }))
        } else {
            Err(DecodeError::at("type"))
        }
    }
}

/// The mail was handed to a function.
pub struct LambdaAction {
    pub function_arn: Option<String>,
    pub invocation_type: LambdaInvocationType,
}

/// How the function was invoked.
#[derive(Clone, Copy, Debug, PartialEq, Eq, Structural)]
pub enum LambdaInvocationType {
    Event,
    RequestResponse,
}

pub open spec fn invocation_type_named(s: Seq<char>) -> Option<LambdaInvocationType> {
    if s == "Event"@ {
        Some(LambdaInvocationType::Event)
    } else if s == "RequestResponse"@ {
        Some(LambdaInvocationType::RequestResponse)
    } else {
        None
    }
}

impl LambdaInvocationType {
    pub fn from_name(s: &str) -> (r: Option<LambdaInvocationType>)
        ensures
            r == invocation_type_named(s@),
    {
        if text_eq(s, "Event") {
            Some(LambdaInvocationType::Event)
        } else if text_eq(s, "RequestResponse") {
            Some(LambdaInvocationType::RequestResponse)
        } else {
            None
        }
    }
}

/// The mail was published to a topic.
pub struct SnsAction {
    pub topic_arn: String,
}

/// The mail was stored in a bucket.
pub struct S3Action {
    pub bucket_name: String,
    pub object_key: String,
}

/// The mail was bounced.
pub struct BounceAction {
    pub smtp_reply_code: String,
    pub status_code: String,
    pub message: String,
    pub sender: String,
}

/// Rule processing stopped.
pub struct StopAction {}

/// The mail was handed to a mail organization.
pub struct WorkMailAction {
    pub organization_arn: String,
}

} // verus!
