//! Auto Scaling lifecycle actions and instance lifecycle events.
use vstd::prelude::*;

use crate::json::{nested, member, read_string, read_string_list, required, str_field, str_list_field, text_eq, texts, DecodeError, Json};
use crate::time::{abs, elapsed, read_time, time_field, Timestamp};

verus! {

/// Either kind of Auto Scaling document.
pub enum AutoScalingEvent {
    Action(LifecycleAction),
    Event(LifecycleEvent),
}

/// `x` is what `j` holds: a lifecycle action when it reads as one, else a lifecycle event.
pub open spec fn auto_scaling_event_from(j: Json, x: AutoScalingEvent) -> bool {
    match x {
        AutoScalingEvent::Action(a) => lifecycle_action_from(j, a),
        AutoScalingEvent::Event(e) => !lifecycle_action_ok(j) && lifecycle_event_from(j, e),
    }
}

impl AutoScalingEvent {
    /// Reads a lifecycle action, or failing that a lifecycle event.
    pub fn decode(j: &Json) -> (r: Result<AutoScalingEvent, DecodeError>)
        ensures
            match r {
                Ok(x) => auto_scaling_event_from(*j, x),
                Err(_) => !lifecycle_action_ok(*j) && !lifecycle_event_ok(*j),
            },
    {
        match LifecycleAction::decode(j) {
            Ok(a) => Ok(AutoScalingEvent::Action(a)),
            Err(_) => match LifecycleEvent::decode(j) {
                Ok(e) => Ok(AutoScalingEvent::Event(e)),
                Err(e) => Err(e),
            },
        }
    }
}

/// A lifecycle hook notification.
pub struct LifecycleAction {
    pub account: String,
    pub id: String,
    pub detail: ActionDetail,
    pub detail_type: String,
    pub region: String,
    pub resources: Vec<String>,
    pub time: Timestamp,
    pub version: String,
}

pub open spec fn lifecycle_action_from(j: Json, x: LifecycleAction) -> bool {
    &&& str_field(j, "account"@) == Some(x.account@)
    &&& str_field(j, "id"@) == Some(x.id@)
    &&& member(j, "detail"@) matches Some(d) && action_detail_from(d, x.detail)
    &&& str_field(j, "detail-type"@) == Some(x.detail_type@)
    &&& str_field(j, "region"@) == Some(x.region@)
    &&& str_list_field(j, "resources"@) == Some(texts(x.resources@))
    &&& time_field(j, "time"@) == Some(x.time)
    &&& str_field(j, "version"@) == Some(x.version@)
}

pub open spec fn lifecycle_action_ok(j: Json) -> bool {
    exists|x: LifecycleAction| #[trigger] lifecycle_action_from(j, x)
}

impl LifecycleAction {
    pub fn decode(j: &Json) -> (r: Result<LifecycleAction, DecodeError>)
        ensures
            match r {
                Ok(x) => lifecycle_action_from(*j, x),
                Err(_) => !lifecycle_action_ok(*j),
            },
    {
        let account = read_string(j, "account")?;
        let id = read_string(j, "id")?;
        let detail = nested(ActionDetail::decode(required(j, "detail")?), "detail")?;
        let detail_type = read_string(j, "detail-type")?;
        let region = read_string(j, "region")?;
        let resources = read_string_list(j, "resources")?;
        let time = read_time(j, "time")?;
        let version = read_string(j, "version")?;
        Ok(LifecycleAction { account, id, detail, detail_type, region, resources, time, version })
    }
}

/// The detail of a lifecycle hook notification.
pub struct ActionDetail {
    pub autoscaling_group_name: String,
    pub ec2_instance_id: String,
    pub lifecycle_action_token: String,
    pub lifecycle_hook_name: String,
    pub lifecycle_transition: LifecycleTransition,
}

pub open spec fn action_detail_from(j: Json, x: ActionDetail) -> bool {
    &&& str_field(j, "AutoScalingGroupName"@) == Some(x.autoscaling_group_name@)
    &&& str_field(j, "EC2InstanceId"@) == Some(x.ec2_instance_id@)
    &&& str_field(j, "LifecycleActionToken"@) == Some(x.lifecycle_action_token@)
    &&& str_field(j, "LifecycleHookName"@) == Some(x.lifecycle_hook_name@)
    &&& str_field(j, "LifecycleTransition"@) matches Some(t) && transition_named(t) == Some(
        x.lifecycle_transition,
    )
}

pub open spec fn action_detail_ok(j: Json) -> bool {
    exists|x: ActionDetail| #[trigger] action_detail_from(j, x)
}

impl ActionDetail {
    pub fn decode(j: &Json) -> (r: Result<ActionDetail, DecodeError>)
        ensures
            match r {
                Ok(x) => action_detail_from(*j, x),
                Err(_) => !action_detail_ok(*j),
            },
    {
        let autoscaling_group_name = read_string(j, "AutoScalingGroupName")?;
        let ec2_instance_id = read_string(j, "EC2InstanceId")?;
        let lifecycle_action_token = read_string(j, "LifecycleActionToken")?;
        let lifecycle_hook_name = read_string(j, "LifecycleHookName")?;
        let t = read_string(j, "LifecycleTransition")?;
        let lifecycle_transition = match LifecycleTransition::from_name(t.as_str()) {
            Some(v) => v,
            None => return Err(DecodeError::at("LifecycleTransition")),
        };
        Ok(ActionDetail {
            autoscaling_group_name,
            ec2_instance_id,
            lifecycle_action_token,
            lifecycle_hook_name,
            lifecycle_transition,
        })
    }
}

/// The lifecycle phase an instance is entering.
#[derive(Clone, Copy, Debug, PartialEq, Eq, Structural)]
pub enum LifecycleTransition {
    InstanceLaunching,
    InstanceTerminating,
}

pub open spec fn transition_named(s: Seq<char>) -> Option<LifecycleTransition> {
    if s == "autoscaling:EC2_INSTANCE_LAUNCHING"@ {
        Some(LifecycleTransition::InstanceLaunching)
    } else if s == "autoscaling:EC2_INSTANCE_TERMINATING"@ {
        Some(LifecycleTransition::InstanceTerminating)
    } else {
        None
    }
}

impl LifecycleTransition {
    pub fn from_name(s: &str) -> (r: Option<LifecycleTransition>)
        ensures
            r == transition_named(s@),
    {
        if text_eq(s, "autoscaling:EC2_INSTANCE_LAUNCHING") {
            Some(LifecycleTransition::InstanceLaunching)
        } else if text_eq(s, "autoscaling:EC2_INSTANCE_TERMINATING") {
            Some(LifecycleTransition::InstanceTerminating)
        } else {
            None
        }
    }
}

/// An instance launch or termination, successful or not.
pub struct LifecycleEvent {
    pub id: String,
    pub event_type: EventType,
    pub account: String,
    pub time: Timestamp,
    pub region: String,
    pub resources: Vec<String>,
    pub detail: EventDetail,
}

pub open spec fn lifecycle_event_from(j: Json, x: LifecycleEvent) -> bool {
    &&& str_field(j, "id"@) == Some(x.id@)
    &&& str_field(j, "detail-type"@) matches Some(t) && event_type_from(t, x.event_type)
    &&& str_field(j, "account"@) == Some(x.account@)
    &&& time_field(j, "time"@) == Some(x.time)
    &&& str_field(j, "region"@) == Some(x.region@)
    &&& str_list_field(j, "resources"@) == Some(texts(x.resources@))
    &&& member(j, "detail"@) matches Some(d) && event_detail_from(d, x.detail)
}

pub open spec fn lifecycle_event_ok(j: Json) -> bool {
    exists|x: LifecycleEvent| #[trigger] lifecycle_event_from(j, x)
}

impl LifecycleEvent {
    pub fn decode(j: &Json) -> (r: Result<LifecycleEvent, DecodeError>)
        ensures
            match r {
                Ok(x) => lifecycle_event_from(*j, x),
                Err(_) => !lifecycle_event_ok(*j),
            },
    {
        let id = read_string(j, "id")?;
        let t = read_string(j, "detail-type")?;
        let event_type = EventType::from_name(t.as_str());
        let account = read_string(j, "account")?;
        let time = read_time(j, "time")?;
        let region = read_string(j, "region")?;
        let resources = read_string_list(j, "resources")?;
        let detail = nested(EventDetail::decode(required(j, "detail")?), "detail")?;
        Ok(LifecycleEvent { id, event_type, account, time, region, resources, detail })
    }

    /// Whether the event is about a launch or a termination.
    pub fn kind(&self) -> (r: EventKind)
        ensures
            r == self.event_type.spec_kind(),
    {
        self.event_type.kind()
    }

    /// Whether the event reports a success or a failure.
    pub fn status(&self) -> (r: EventStatus)
        ensures
            r == self.event_type.spec_status(),
    {
        self.event_type.status()
    }

    /// The time from the activity's start to its end, in nanoseconds.
    pub fn duration(&self) -> (r: u128)
        ensures
            r == abs(self.detail.end_time.epoch_nanos() - self.detail.start_time.epoch_nanos()),
    {
        self.detail.duration()
    }
}

/// The outcome of a lifecycle event.
#[derive(Clone, Copy, Debug, PartialEq, Eq, Structural)]
pub enum EventStatus {
    Success,
    Failure,
    Unknown,
}

/// What a lifecycle event is about.
#[derive(Clone, Copy, Debug, PartialEq, Eq, Structural)]
pub enum EventKind {
    Launch,
    Terminate,
    Unknown,
}

/// The detail type of a lifecycle event; any other text is kept as it was.
pub enum EventType {
    TerminateFailed,
    TerminateSuccess,
    LaunchSuccess,
    LaunchFailed,
    Unknown(String),
}

/// `t` is the event type that the text `s` names.
pub open spec fn event_type_from(s: Seq<char>, t: EventType) -> bool {
    if s == "EC2 Instance Terminate Unsuccessful"@ {
        t is TerminateFailed
    } else if s == "EC2 Instance Terminate Successful"@ {
        t is TerminateSuccess
    } else if s == "EC2 Instance Launch Successful"@ {
        t is LaunchSuccess
    } else if s == "EC2 Instance Launch Unsuccessful"@ {
        t is LaunchFailed
    } else {
        t matches EventType::Unknown(u) && u@ == s
    }
}

impl EventType {
    /// The event type a detail-type text names.
    pub fn from_name(s: &str) -> (r: EventType)
        ensures
            event_type_from(s@, r),
    {
        if text_eq(s, "EC2 Instance Terminate Unsuccessful") {
            EventType::TerminateFailed
        } else if text_eq(s, "EC2 Instance Terminate Successful") {
            EventType::TerminateSuccess
        } else if text_eq(s, "EC2 Instance Launch Successful") {
            EventType::LaunchSuccess
        } else if text_eq(s, "EC2 Instance Launch Unsuccessful") {
            EventType::LaunchFailed
        } else {
            EventType::Unknown(s.to_owned())
        }
    }

    pub open spec fn spec_status(&self) -> EventStatus {
        match self {
            EventType::LaunchFailed => EventStatus::Failure,
            EventType::LaunchSuccess => EventStatus::Success,
            EventType::TerminateFailed => EventStatus::Failure,
            EventType::TerminateSuccess => EventStatus::Success,
            EventType::Unknown(_) => EventStatus::Unknown,
        }
    }

    pub open spec fn spec_kind(&self) -> EventKind {
        match self {
            EventType::LaunchFailed => EventKind::Launch,
            EventType::LaunchSuccess => EventKind::Launch,
            EventType::TerminateFailed => EventKind::Terminate,
            EventType::TerminateSuccess => EventKind::Terminate,
            EventType::Unknown(_) => EventKind::Unknown,
        }
    }

    /// Whether this type reports a success or a failure.
    pub fn status(&self) -> (r: EventStatus)
        ensures
            r == self.spec_status(),
    {
        match self {
            EventType::LaunchFailed => EventStatus::Failure,
            EventType::LaunchSuccess => EventStatus::Success,
            EventType::TerminateFailed => EventStatus::Failure,
            EventType::TerminateSuccess => EventStatus::Success,
            EventType::Unknown(_) => EventStatus::Unknown,
        }
    }

    /// Whether this type is about a launch or a termination.
    pub fn kind(&self) -> (r: EventKind)
        ensures
            r == self.spec_kind(),
    {
        match self {
            EventType::LaunchFailed => EventKind::Launch,
            EventType::LaunchSuccess => EventKind::Launch,
            EventType::TerminateFailed => EventKind::Terminate,
            EventType::TerminateSuccess => EventKind::Terminate,
            EventType::Unknown(_) => EventKind::Unknown,
        }
    }
}

/// The detail of a lifecycle event.
pub struct EventDetail {
    pub status_code: StatusCode,
    pub autoscaling_group_name: String,
    pub activity_id: String,
    pub request_id: String,
    pub end_time: Timestamp,
    pub start_time: Timestamp,
    pub ec2_instance_id: String,
    pub cause: String,
    pub details: SubnetDetails,
}

pub open spec fn event_detail_from(j: Json, x: EventDetail) -> bool {
    &&& str_field(j, "StatusCode"@) matches Some(s) && status_code_named(s) == Some(x.status_code)
    &&& str_field(j, "AutoScalingGroupName"@) == Some(x.autoscaling_group_name@)
    &&& str_field(j, "ActivityId"@) == Some(x.activity_id@)
    &&& str_field(j, "RequestId"@) == Some(x.request_id@)
    &&& time_field(j, "EndTime"@) == Some(x.end_time)
    &&& time_field(j, "StartTime"@) == Some(x.start_time)
    &&& str_field(j, "EC2InstanceId"@) == Some(x.ec2_instance_id@)
    &&& str_field(j, "Cause"@) == Some(x.cause@)
    &&& member(j, "Details"@) matches Some(d) && subnet_details_from(d, x.details)
}

pub open spec fn event_detail_ok(j: Json) -> bool {
    exists|x: EventDetail| #[trigger] event_detail_from(j, x)
}

impl EventDetail {
    pub fn decode(j: &Json) -> (r: Result<EventDetail, DecodeError>)
        ensures
            match r {
                Ok(x) => event_detail_from(*j, x),
                Err(_) => !event_detail_ok(*j),
            },
    {
        let s = read_string(j, "StatusCode")?;
        let status_code = match StatusCode::from_name(s.as_str()) {
            Some(c) => c,
            None => return Err(DecodeError::at("StatusCode")),
        };
        let autoscaling_group_name = read_string(j, "AutoScalingGroupName")?;
        let activity_id = read_string(j, "ActivityId")?;
        let request_id = read_string(j, "RequestId")?;
        let end_time = read_time(j, "EndTime")?;
        let start_time = read_time(j, "StartTime")?;
        let ec2_instance_id = read_string(j, "EC2InstanceId")?;
        let cause = read_string(j, "Cause")?;
        let details = nested(SubnetDetails::decode(required(j, "Details")?), "Details")?;
        Ok(EventDetail {
            status_code,
            autoscaling_group_name,
            activity_id,
            request_id,
            end_time,
            start_time,
            ec2_instance_id,
            cause,
            details,
        })
    }

    /// The time from start to end in nanoseconds; an end reported before the start still gives
    /// the distance between the two.
    pub fn duration(&self) -> (r: u128)
        ensures
            r == abs(self.end_time.epoch_nanos() - self.start_time.epoch_nanos()),
    {
        elapsed(self.start_time, self.end_time)
    }
}

/// The state of the scaling activity.
#[derive(Clone, Copy, Debug, PartialEq, Eq, Structural)]
pub enum StatusCode {
    InProgress,
    Failed,
}

pub open spec fn status_code_named(s: Seq<char>) -> Option<StatusCode> {
    if s == "InProgress"@ {
        Some(StatusCode::InProgress)
    } else if s == "Failed"@ {
        Some(StatusCode::Failed)
    } else {
        None
    }
}

impl StatusCode {
    pub fn from_name(s: &str) -> (r: Option<StatusCode>)
        ensures
            r == status_code_named(s@),
    {
        if text_eq(s, "InProgress") {
            Some(StatusCode::InProgress)
        } else if text_eq(s, "Failed") {
            Some(StatusCode::Failed)
        } else {
            None
        }
    }
}

/// Where the instance was placed.
pub struct SubnetDetails {
    pub availability_zone: String,
    pub subnet_id: String,
}

pub open spec fn subnet_details_from(j: Json, x: SubnetDetails) -> bool {
    &&& str_field(j, "Availability Zone"@) == Some(x.availability_zone@)
    &&& str_field(j, "Subnet ID"@) == Some(x.subnet_id@)
}

pub open spec fn subnet_details_ok(j: Json) -> bool {
    exists|x: SubnetDetails| #[trigger] subnet_details_from(j, x)
}

impl SubnetDetails {
    pub fn decode(j: &Json) -> (r: Result<SubnetDetails, DecodeError>)
        ensures
            match r {
                Ok(x) => subnet_details_from(*j, x),
                Err(_) => !subnet_details_ok(*j),
            },
    {
        let availability_zone = read_string(j, "Availability Zone")?;
        let subnet_id = read_string(j, "Subnet ID")?;
        Ok(SubnetDetails { availability_zone, subnet_id })
    }
}

} // verus!
