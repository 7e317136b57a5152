//! Storage-bucket notifications.
use vstd::prelude::*;

use crate::json::{nested, 
    member, opt_map_field, opt_map_view, opt_str_field, opt_text, read_opt_map, read_opt_string,
    read_string, required, str_field, text_eq, DecodeError, Json,
};
use crate::map::StringMap;

verus! {

/// One notification about an object in a bucket.
pub struct Record {
    pub aws_region: String,
    pub event_name: ObjectEvent,
    pub event_time: String,
    pub event_version: String,
    pub request_parameters: Option<StringMap>,
    pub response_elements: Option<StringMap>,
    pub event: Event,
    pub user_identity: Option<StringMap>,
}

pub open spec fn record_from(j: Json, x: Record) -> bool {
    &&& str_field(j, "awsRegion"@) == Some(x.aws_region@)
    &&& str_field(j, "eventName"@) matches Some(n) && object_event_named(n) == Some(x.event_name)
    &&& str_field(j, "eventTime"@) == Some(x.event_time@)
    &&& str_field(j, "eventVersion"@) == Some(x.event_version@)
    &&& opt_map_field(j, "requestParameters"@) == Some(opt_map_view(x.request_parameters))
    &&& opt_map_field(j, "responseElements"@) == Some(opt_map_view(x.response_elements))
    &&& member(j, "s3"@) matches Some(e) && event_from(e, x.event)
    &&& opt_map_field(j, "userIdentity"@) == Some(opt_map_view(x.user_identity))
}

pub open spec fn record_ok(j: Json) -> bool {
    exists|x: Record| #[trigger] record_from(j, x)
}

impl Record {
    pub fn decode(j: &Json) -> (r: Result<Record, DecodeError>)
        ensures
            match r {
                Ok(x) => record_from(*j, x),
                Err(_) => !record_ok(*j),
            },
    {
        let aws_region = read_string(j, "awsRegion")?;
        let n = read_string(j, "eventName")?;
        let event_name = match ObjectEvent::from_name(n.as_str()) {
            Some(e) => e,
            None => return Err(DecodeError::at("eventName")),
        };
        let event_time = read_string(j, "eventTime")?;
        let event_version = read_string(j, "eventVersion")?;
        let request_parameters = read_opt_map(j, "requestParameters")?;
        let response_elements = read_opt_map(j, "responseElements")?;
        let event = nested(Event::decode(required(j, "s3")?), "s3")?;
        let user_identity = read_opt_map(j, "userIdentity")?;
        Ok(Record {
            aws_region,
            event_name,
            event_time,
            event_version,
            request_parameters,
            response_elements,
            event,
            user_identity,
        })
    }
}

/// The bucket and object a notification is about.
pub struct Event {
    pub configuration_id: Option<String>,
    pub object: Object,
    pub bucket: Bucket,
    pub schema_version: String,
}

pub open spec fn event_from(j: Json, x: Event) -> bool {
    &&& opt_str_field(j, "configurationId"@) == Some(opt_text(x.configuration_id))
    &&& member(j, "object"@) matches Some(o) && object_from(o, x.object)
    &&& member(j, "bucket"@) matches Some(b) && bucket_from(b, x.bucket)
    &&& str_field(j, "s3SchemaVersion"@) == Some(x.schema_version@)
}

pub open spec fn event_ok(j: Json) -> bool {
    exists|x: Event| #[trigger] event_from(j, x)
}

impl Event {
    pub fn decode(j: &Json) -> (r: Result<Event, DecodeError>)
        ensures
            match r {
                Ok(x) => event_from(*j, x),
                Err(_) => !event_ok(*j),
            },
    {
        let configuration_id = read_opt_string(j, "configurationId")?;
        let object = nested(Object::decode(required(j, "object")?), "object")?;
        let bucket = nested(Bucket::decode(required(j, "bucket")?), "bucket")?;
        let schema_version = read_string(j, "s3SchemaVersion")?;
        Ok(Event { configuration_id, object, bucket, schema_version })
    }
}

/// A storage bucket.
pub struct Bucket {
    pub arn: String,
    pub name: String,
    pub owner_identity: BucketOwnerIdentity,
}

pub open spec fn bucket_from(j: Json, x: Bucket) -> bool {
    &&& str_field(j, "arn"@) == Some(x.arn@)
    &&& str_field(j, "name"@) == Some(x.name@)
    &&& member(j, "ownerIdentity"@) matches Some(o) && str_field(o, "principalId"@) == Some(
        x.owner_identity.principal_id@,
    )
}

pub open spec fn bucket_ok(j: Json) -> bool {
    exists|x: Bucket| #[trigger] bucket_from(j, x)
}

impl Bucket {
    pub fn decode(j: &Json) -> (r: Result<Bucket, DecodeError>)
        ensures
            match r {
                Ok(x) => bucket_from(*j, x),
                Err(_) => !bucket_ok(*j),
            },
    {
        let arn = read_string(j, "arn")?;
        let name = read_string(j, "name")?;
        let principal_id = nested(read_string(required(j, "ownerIdentity")?, "principalId"), "ownerIdentity")?;
        Ok(Bucket { arn, name, owner_identity: BucketOwnerIdentity { principal_id } })
    }
}

/// The owner of a bucket.
pub struct BucketOwnerIdentity {
    pub principal_id: String,
}

/// An object in a bucket.
pub struct Object {
    pub key: String,
    pub sequencer: Option<String>,
}

pub open spec fn object_from(j: Json, x: Object) -> bool {
    &&& str_field(j, "key"@) == Some(x.key@)
    &&& opt_str_field(j, "sequencer"@) == Some(opt_text(x.sequencer))
}

pub open spec fn object_ok(j: Json) -> bool {
    exists|x: Object| #[trigger] object_from(j, x)
}

impl Object {
    pub fn decode(j: &Json) -> (r: Result<Object, DecodeError>)
        ensures
            match r {
                Ok(x) => object_from(*j, x),
                Err(_) => !object_ok(*j),
            },
    {
        let key = read_string(j, "key")?;
        let sequencer = read_opt_string(j, "sequencer")?;
        Ok(Object { key, sequencer })
    }
}

/// What happened to an object.
#[derive(Clone, Copy, Debug, PartialEq, Eq, Structural)]
pub enum ObjectEvent {
    Put,
    Post,
    Copied,
    CompleteMultipartUpload,
    Delete,
    DeleteMarkerCreated,
    LostObject,
}

pub open spec fn object_event_named(s: Seq<char>) -> Option<ObjectEvent> {
    if s == "ObjectCreated:Put"@ {
        Some(ObjectEvent::Put)
    } else if s == "ObjectCreated:Post"@ {
        Some(ObjectEvent::Post)
    } else if s == "ObjectCreated:Copy"@ {
        Some(ObjectEvent::Copied)
    } else if s == "ObjectCreated:CompleteMultipartUpload"@ {
        Some(ObjectEvent::CompleteMultipartUpload)
    } else if s == "ObjectRemoved:Delete"@ {
        Some(ObjectEvent::Delete)
    } else if s == "ObjectRemoved:DeleteMarkerCreated"@ {
        Some(ObjectEvent::DeleteMarkerCreated)
    } else if s == "ReducedRedundancyLostObject"@ {
        Some(ObjectEvent::LostObject)
    } else {
        None
    }
}

impl ObjectEvent {
    /// The event a wire name stands for.
    pub fn from_name(s: &str) -> (r: Option<ObjectEvent>)
        ensures
            r == object_event_named(s@),
    {
        if text_eq(s, "ObjectCreated:Put") {
            Some(ObjectEvent::Put)
        } else if text_eq(s, "ObjectCreated:Post") {
            Some(ObjectEvent::Post)
        } else if text_eq(s, "ObjectCreated:Copy") {
            Some(ObjectEvent::Copied)
        } else if text_eq(s, "ObjectCreated:CompleteMultipartUpload") {
            Some(ObjectEvent::CompleteMultipartUpload)
        } else if text_eq(s, "ObjectRemoved:Delete") {
            Some(ObjectEvent::Delete)
        } else if text_eq(s, "ObjectRemoved:DeleteMarkerCreated") {
            Some(ObjectEvent::DeleteMarkerCreated)
        } else if text_eq(s, "ReducedRedundancyLostObject") {
            Some(ObjectEvent::LostObject)
        } else {
            None
        }
    }

    pub open spec fn spec_name(self) -> Seq<char> {
        match self {
            ObjectEvent::Put => "s3:ObjectCreated:Put"@,
            ObjectEvent::Post => "s3:ObjectCreated:Post"@,
            ObjectEvent::Copied => "s3:ObjectCreated:Copy"@,
            ObjectEvent::CompleteMultipartUpload => "s3:ObjectCreated:CompleteMultipartUpload"@,
            ObjectEvent::Delete => "s3:ObjectRemoved:Delete"@,
            ObjectEvent::DeleteMarkerCreated => "s3:ObjectRemoved:DeleteMarkerCreated"@,
            ObjectEvent::LostObject => "s3:ObjectRemoved:LostObject"@,
        }
    }

    /// The full name of this event, as bucket notification configurations spell it.
    pub fn name(&self) -> (r: &'static str)
        ensures
            r@ == self.spec_name(),
    {
        match self {
            ObjectEvent::Put => "s3:ObjectCreated:Put",
            ObjectEvent::Post => "s3:ObjectCreated:Post",
            ObjectEvent::Copied => "s3:ObjectCreated:Copy",
            ObjectEvent::CompleteMultipartUpload => "s3:ObjectCreated:CompleteMultipartUpload",
            ObjectEvent::Delete => "s3:ObjectRemoved:Delete",
            ObjectEvent::DeleteMarkerCreated => "s3:ObjectRemoved:DeleteMarkerCreated",
            ObjectEvent::LostObject => "s3:ObjectRemoved:LostObject",
        }
    }
}

} // verus!
