//! Batch job state-change events.
use vstd::prelude::*;

use crate::json::{nested, 
    bool_field, list_from, map_field, member, opt_str_field, opt_text, opt_u16_field, opt_u64_field,
    read_bool, read_list, read_map, read_opt_string, read_opt_u16, read_opt_u64, read_string,
    read_string_list, read_u16, read_u64, required, str_field, str_list_field, text_eq, texts,
    decode_text_map, text_map_rel, u16_field, u64_field, DecodeError, Json,
};
use crate::map::StringMap;
use crate::time::{read_time, time_field, Timestamp};

verus! {

/// A job moved from one state to another.
pub struct JobStateChangeEvent {
    pub id: String,
    pub detail_type: String,
    pub source: String,
    pub account: String,
    pub time: Timestamp,
    pub region: String,
    pub resources: Vec<String>,
    pub detail: JobDetail,
}

pub open spec fn job_state_change_from(j: Json, x: JobStateChangeEvent) -> bool {
    &&& str_field(j, "id"@) == Some(x.id@)
    &&& str_field(j, "detail-type"@) == Some(x.detail_type@)
    &&& str_field(j, "source"@) == Some(x.source@)
    &&& str_field(j, "account"@) == Some(x.account@)
    &&& time_field(j, "time"@) == Some(x.time)
    &&& str_field(j, "region"@) == Some(x.region@)
    &&& str_list_field(j, "resources"@) == Some(texts(x.resources@))
    &&& member(j, "detail"@) matches Some(d) && job_detail_from(d, x.detail)
}

pub open spec fn job_state_change_ok(j: Json) -> bool {
    exists|x: JobStateChangeEvent| #[trigger] job_state_change_from(j, x)
}

impl JobStateChangeEvent {
    pub fn decode(j: &Json) -> (r: Result<JobStateChangeEvent, DecodeError>)
        ensures
            match r {
                Ok(x) => job_state_change_from(*j, x),
                Err(_) => !job_state_change_ok(*j),
            },
    {
        let id = read_string(j, "id")?;
        let detail_type = read_string(j, "detail-type")?;
        let source = read_string(j, "source")?;
        let account = read_string(j, "account")?;
        let time = read_time(j, "time")?;
        let region = read_string(j, "region")?;
        let resources = read_string_list(j, "resources")?;
        let detail = nested(JobDetail::decode(required(j, "detail")?), "detail")?;
        Ok(JobStateChangeEvent { id, detail_type, source, account, time, region, resources, detail })
    }
}

/// The state of a job.
pub struct JobDetail {
    pub job_name: String,
    pub job_id: String,
    pub job_queue: String,
    pub status: JobStatus,
    pub attempts: Vec<JobAttempt>,
    pub created_at: Option<u64>,
    pub started_at: Option<u64>,
    pub stopped_at: Option<u64>,
    pub retry_strategy: RetryStrategy,
    pub depends_on: Vec<JobDependency>,
    pub job_definition: String,
    pub parameters: StringMap,
    pub container: ContainerInfo,
}

pub open spec fn job_detail_from(j: Json, x: JobDetail) -> bool {
    &&& str_field(j, "jobName"@) == Some(x.job_name@)
    &&& str_field(j, "jobId"@) == Some(x.job_id@)
    &&& str_field(j, "jobQueue"@) == Some(x.job_queue@)
    &&& str_field(j, "status"@) matches Some(s) && job_status_named(s) == Some(x.status)
    &&& member(j, "attempts"@) matches Some(a) && list_from(a, x.attempts@, job_attempt_rel())
    &&& opt_u64_field(j, "createdAt"@) == Some(x.created_at)
    &&& opt_u64_field(j, "startedAt"@) == Some(x.started_at)
    &&& opt_u64_field(j, "stoppedAt"@) == Some(x.stopped_at)
    &&& member(j, "retryStrategy"@) matches Some(s) && retry_strategy_from(s, x.retry_strategy)
    &&& member(j, "dependsOn"@) matches Some(d) && list_from(d, x.depends_on@, job_dependency_rel())
    &&& str_field(j, "jobDefinition"@) == Some(x.job_definition@)
    &&& map_field(j, "parameters"@) == Some(x.parameters@) && x.parameters.wf()
    &&& member(j, "container"@) matches Some(c) && container_info_from(c, x.container)
}

pub open spec fn job_detail_ok(j: Json) -> bool {
    exists|x: JobDetail| #[trigger] job_detail_from(j, x)
}

impl JobDetail {
    pub fn decode(j: &Json) -> (r: Result<JobDetail, DecodeError>)
        ensures
            match r {
                Ok(x) => job_detail_from(*j, x),
                Err(_) => !job_detail_ok(*j),
            },
    {
        let job_name = read_string(j, "jobName")?;
        let job_id = read_string(j, "jobId")?;
        let job_queue = read_string(j, "jobQueue")?;
        let s = read_string(j, "status")?;
        let status = match JobStatus::from_name(s.as_str()) {
            Some(v) => v,
            None => return Err(DecodeError::at("status")),
        };
        let attempts = read_list(
            required(j, "attempts")?,
            "attempts",
            JobAttempt::decode,
            Ghost(job_attempt_rel()),
        )?;
        let created_at = read_opt_u64(j, "createdAt")?;
        let started_at = read_opt_u64(j, "startedAt")?;
        let stopped_at = read_opt_u64(j, "stoppedAt")?;
        let retry_strategy = nested(RetryStrategy::decode(required(j, "retryStrategy")?), "retryStrategy")?;
        let depends_on = read_list(
            required(j, "dependsOn")?,
            "dependsOn",
            JobDependency::decode,
            Ghost(job_dependency_rel()),
        )?;
        let job_definition = read_string(j, "jobDefinition")?;
        let parameters = read_map(j, "parameters")?;
        let container = nested(ContainerInfo::decode(required(j, "container")?), "container")?;
        Ok(JobDetail {
            job_name,
            job_id,
            job_queue,
            status,
            attempts,
            created_at,
            started_at,
            stopped_at,
            retry_strategy,
            depends_on,
            job_definition,
            parameters,
            container,
        })
    }
}

/// One attempt to run a job.
pub struct JobAttempt {
    pub container: JobAttemptContainer,
    pub started_at: u64,
    pub stopped_at: u64,
    pub status_reason: String,
}

pub open spec fn job_attempt_from(j: Json, x: JobAttempt) -> bool {
    &&& member(j, "container"@) matches Some(c) && attempt_container_from(c, x.container)
    &&& u64_field(j, "startedAt"@) == Some(x.started_at)
    &&& u64_field(j, "stoppedAt"@) == Some(x.stopped_at)
    &&& str_field(j, "statusReason"@) == Some(x.status_reason@)
}

pub open spec fn job_attempt_ok(j: Json) -> bool {
    exists|x: JobAttempt| #[trigger] job_attempt_from(j, x)
}

pub open spec fn job_attempt_rel() -> spec_fn(Json, JobAttempt) -> bool {
    |j: Json, x: JobAttempt| job_attempt_from(j, x)
}

impl JobAttempt {
    pub fn decode(j: &Json) -> (r: Result<JobAttempt, DecodeError>)
        ensures
            match r {
                Ok(x) => job_attempt_from(*j, x),
                Err(_) => !job_attempt_ok(*j),
            },
    {
        let container = nested(JobAttemptContainer::decode(required(j, "container")?), "container")?;
        let started_at = read_u64(j, "startedAt")?;
        let stopped_at = read_u64(j, "stoppedAt")?;
        let status_reason = read_string(j, "statusReason")?;
        Ok(JobAttempt { container, started_at, stopped_at, status_reason })
    }
}

/// The container that ran an attempt.
pub struct JobAttemptContainer {
    pub container_instance_arn: String,
    pub exit_code: u16,
    pub log_stream_name: String,
    pub reason: String,
    pub task_arn: String,
}

pub open spec fn attempt_container_from(j: Json, x: JobAttemptContainer) -> bool {
    &&& str_field(j, "containerInstanceArn"@) == Some(x.container_instance_arn@)
    &&& u16_field(j, "exitCode"@) == Some(x.exit_code)
    &&& str_field(j, "logStreamName"@) == Some(x.log_stream_name@)
    &&& str_field(j, "reason"@) == Some(x.reason@)
    &&& str_field(j, "taskArn"@) == Some(x.task_arn@)
}

pub open spec fn attempt_container_ok(j: Json) -> bool {
    exists|x: JobAttemptContainer| #[trigger] attempt_container_from(j, x)
}

impl JobAttemptContainer {
    pub fn decode(j: &Json) -> (r: Result<JobAttemptContainer, DecodeError>)
        ensures
            match r {
                Ok(x) => attempt_container_from(*j, x),
                Err(_) => !attempt_container_ok(*j),
            },
    {
        let container_instance_arn = read_string(j, "containerInstanceArn")?;
        let exit_code = read_u16(j, "exitCode")?;
        let log_stream_name = read_string(j, "logStreamName")?;
        let reason = read_string(j, "reason")?;
        let task_arn = read_string(j, "taskArn")?;
        Ok(JobAttemptContainer { container_instance_arn, exit_code, log_stream_name, reason, task_arn })
    }
}

/// A job that this job waits for.
pub struct JobDependency {
    pub job_id: String,
    pub job_type: String,
}

pub open spec fn job_dependency_from(j: Json, x: JobDependency) -> bool {
    &&& str_field(j, "jobId"@) == Some(x.job_id@)
    &&& str_field(j, "type"@) == Some(x.job_type@)
}

pub open spec fn job_dependency_ok(j: Json) -> bool {
    exists|x: JobDependency| #[trigger] job_dependency_from(j, x)
}

pub open spec fn job_dependency_rel() -> spec_fn(Json, JobDependency) -> bool {
    |j: Json, x: JobDependency| job_dependency_from(j, x)
}

impl JobDependency {
    pub fn decode(j: &Json) -> (r: Result<JobDependency, DecodeError>)
        ensures
            match r {
                Ok(x) => job_dependency_from(*j, x),
                Err(_) => !job_dependency_ok(*j),
            },
    {
        let job_id = read_string(j, "jobId")?;
        let job_type = read_string(j, "type")?;
        Ok(JobDependency { job_id, job_type })
    }
}

/// How often a failed job is tried again.
pub struct RetryStrategy {
    pub attempts: u64,
}

pub open spec fn retry_strategy_from(j: Json, x: RetryStrategy) -> bool {
    u64_field(j, "attempts"@) == Some(x.attempts)
}

pub open spec fn retry_strategy_ok(j: Json) -> bool {
    exists|x: RetryStrategy| #[trigger] retry_strategy_from(j, x)
}

impl RetryStrategy {
    pub fn decode(j: &Json) -> (r: Result<RetryStrategy, DecodeError>)
        ensures
            match r {
                Ok(x) => retry_strategy_from(*j, x),
                Err(_) => !retry_strategy_ok(*j),
            },
    {
        let attempts = read_u64(j, "attempts")?;
        Ok(RetryStrategy { attempts })
    }
}

/// The container a job runs in.
pub struct ContainerInfo {
    pub command: Vec<String>,
    pub container_instance_arn: Option<String>,
    pub environment: Vec<StringMap>,
    pub exit_code: Option<u16>,
    pub image: String,
    pub job_role_arn: Option<String>,
    pub log_stream_name: Option<String>,
    pub memory: u64,
    pub mount_points: Vec<ContainerMountPoint>,
    pub privileged: bool,
    pub read_only_root_filesystem: bool,
    pub reason: String,
    pub task_arn: String,
    pub ulimits: Vec<Ulimit>,
    pub user: String,
    pub vcpus: u64,
    pub volumes: Vec<ContainerVolume>,
}

pub open spec fn container_info_from(j: Json, x: ContainerInfo) -> bool {
    &&& str_list_field(j, "command"@) == Some(texts(x.command@))
    &&& opt_str_field(j, "containerInstanceArn"@) == Some(opt_text(x.container_instance_arn))
    &&& member(j, "environment"@) matches Some(e) && list_from(e, x.environment@, text_map_rel())
    &&& opt_u16_field(j, "exitCode"@) == Some(x.exit_code)
    &&& str_field(j, "image"@) == Some(x.image@)
    &&& opt_str_field(j, "jobRoleArn"@) == Some(opt_text(x.job_role_arn))
    &&& opt_str_field(j, "logStreamName"@) == Some(opt_text(x.log_stream_name))
    &&& u64_field(j, "memory"@) == Some(x.memory)
    &&& member(j, "mountPoints"@) matches Some(m) && list_from(m, x.mount_points@, mount_point_rel())
    &&& bool_field(j, "privileged"@) == Some(x.privileged)
    &&& bool_field(j, "readonlyRootFilesystem"@) == Some(x.read_only_root_filesystem)
    &&& str_field(j, "reason"@) == Some(x.reason@)
    &&& str_field(j, "taskArn"@) == Some(x.task_arn@)
    &&& member(j, "ulimits"@) matches Some(u) && list_from(u, x.ulimits@, ulimit_rel())
    &&& str_field(j, "user"@) == Some(x.user@)
    &&& u64_field(j, "vcpus"@) == Some(x.vcpus)
    &&& member(j, "volumes"@) matches Some(v) && list_from(v, x.volumes@, volume_rel())
}

pub open spec fn container_info_ok(j: Json) -> bool {
    exists|x: ContainerInfo| #[trigger] container_info_from(j, x)
}

impl ContainerInfo {
    pub fn decode(j: &Json) -> (r: Result<ContainerInfo, DecodeError>)
        ensures
            match r {
                Ok(x) => container_info_from(*j, x),
                Err(_) => !container_info_ok(*j),
            },
    {
        let command = read_string_list(j, "command")?;
        let container_instance_arn = read_opt_string(j, "containerInstanceArn")?;
        let environment = read_list(
            required(j, "environment")?,
            "environment",
            decode_text_map,
            Ghost(text_map_rel()),
        )?;
        let exit_code = read_opt_u16(j, "exitCode")?;
        let image = read_string(j, "image")?;
        let job_role_arn = read_opt_string(j, "jobRoleArn")?;
        let log_stream_name = read_opt_string(j, "logStreamName")?;
        let memory = read_u64(j, "memory")?;
        let mount_points = read_list(
            required(j, "mountPoints")?,
            "mountPoints",
            ContainerMountPoint::decode,
            Ghost(mount_point_rel()),
        )?;
        let privileged = read_bool(j, "privileged")?;
        let read_only_root_filesystem = read_bool(j, "readonlyRootFilesystem")?;
        let reason = read_string(j, "reason")?;
        let task_arn = read_string(j, "taskArn")?;
        let ulimits = read_list(required(j, "ulimits")?, "ulimits", Ulimit::decode, Ghost(ulimit_rel()))?;
        let user = read_string(j, "user")?;
        let vcpus = read_u64(j, "vcpus")?;
        let volumes = read_list(
            required(j, "volumes")?,
            "volumes",
            ContainerVolume::decode,
            Ghost(volume_rel()),
        )?;
        Ok(ContainerInfo {
            command,
            container_instance_arn,
            environment,
            exit_code,
            image,
            job_role_arn,
            log_stream_name,
            memory,
            mount_points,
            privileged,
            read_only_root_filesystem,
            reason,
            task_arn,
            ulimits,
            user,
            vcpus,
            volumes,
        })
    }
}

/// A resource limit of a container.
pub struct Ulimit {
    pub hard_limit: u64,
    pub soft_limit: u64,
    pub name: String,
}

pub open spec fn ulimit_from(j: Json, x: Ulimit) -> bool {
    &&& u64_field(j, "hardLimit"@) == Some(x.hard_limit)
    &&& u64_field(j, "softLimit"@) == Some(x.soft_limit)
    &&& str_field(j, "name"@) == Some(x.name@)
}

pub open spec fn ulimit_ok(j: Json) -> bool {
    exists|x: Ulimit| #[trigger] ulimit_from(j, x)
}

pub open spec fn ulimit_rel() -> spec_fn(Json, Ulimit) -> bool {
    |j: Json, x: Ulimit| ulimit_from(j, x)
}

impl Ulimit {
    pub fn decode(j: &Json) -> (r: Result<Ulimit, DecodeError>)
        ensures
            match r {
                Ok(x) => ulimit_from(*j, x),
                Err(_) => !ulimit_ok(*j),
            },
    {
        let hard_limit = read_u64(j, "hardLimit")?;
        let soft_limit = read_u64(j, "softLimit")?;
        let name = read_string(j, "name")?;
        Ok(Ulimit { hard_limit, soft_limit, name })
    }
}

/// A volume offered to a container.
pub struct ContainerVolume {
    pub host: ContainerVolumeHost,
    pub name: String,
}

pub open spec fn volume_from(j: Json, x: ContainerVolume) -> bool {
    &&& member(j, "host"@) matches Some(h) && str_field(h, "sourcePath"@) == Some(x.host.source_path@)
    &&& str_field(j, "name"@) == Some(x.name@)
}

pub open spec fn volume_ok(j: Json) -> bool {
    exists|x: ContainerVolume| #[trigger] volume_from(j, x)
}

pub open spec fn volume_rel() -> spec_fn(Json, ContainerVolume) -> bool {
    |j: Json, x: ContainerVolume| volume_from(j, x)
}

impl ContainerVolume {
    pub fn decode(j: &Json) -> (r: Result<ContainerVolume, DecodeError>)
        ensures
            match r {
                Ok(x) => volume_from(*j, x),
                Err(_) => !volume_ok(*j),
            },
    {
        let source_path = nested(read_string(required(j, "host")?, "sourcePath"), "host")?;
        let name = read_string(j, "name")?;
        Ok(ContainerVolume { host: ContainerVolumeHost { source_path }, name })
    }
}

/// The host path behind a volume.
pub struct ContainerVolumeHost {
    pub source_path: String,
}

/// Where a volume is mounted in a container.
pub struct ContainerMountPoint {
    pub container_path: String,
    pub read_only: bool,
    pub source_volume: String,
}

pub open spec fn mount_point_from(j: Json, x: ContainerMountPoint) -> bool {
    &&& str_field(j, "containerPath"@) == Some(x.container_path@)
    &&& bool_field(j, "readOnly"@) == Some(x.read_only)
    &&& str_field(j, "sourceVolume"@) == Some(x.source_volume@)
}

pub open spec fn mount_point_ok(j: Json) -> bool {
    exists|x: ContainerMountPoint| #[trigger] mount_point_from(j, x)
}

pub open spec fn mount_point_rel() -> spec_fn(Json, ContainerMountPoint) -> bool {
    |j: Json, x: ContainerMountPoint| mount_point_from(j, x)
}

impl ContainerMountPoint {
    pub fn decode(j: &Json) -> (r: Result<ContainerMountPoint, DecodeError>)
        ensures
            match r {
                Ok(x) => mount_point_from(*j, x),
                Err(_) => !mount_point_ok(*j),
            },
    {
        let container_path = read_string(j, "containerPath")?;
        let read_only = read_bool(j, "readOnly")?;
        let source_volume = read_string(j, "sourceVolume")?;
        Ok(ContainerMountPoint { container_path, read_only, source_volume })
    }
}

/// The state a job is in.
#[derive(Clone, Copy, Debug, PartialEq, Eq, Structural)]
pub enum JobStatus {
    Failed,
    Pending,
    Runnable,
    Running,
    Starting,
    Submitted,
    Succeeded,
}

pub open spec fn job_status_named(s: Seq<char>) -> Option<JobStatus> {
    if s == "FAILED"@ {
        Some(JobStatus::Failed)
    } else if s == "PENDING"@ {
        Some(JobStatus::Pending)
    } else if s == "RUNNABLE"@ {
        Some(JobStatus::Runnable)
    } else if s == "RUNNING"@ {
        Some(JobStatus::Running)
    } else if s == "STARTING"@ {
        Some(JobStatus::Starting)
    } else if s == "SUBMITTED"@ {
        Some(JobStatus::Submitted)
    } else if s == "SUCCEEDED"@ {
        Some(JobStatus::Succeeded)
    } else {
        None
    }
}

impl JobStatus {
    pub fn from_name(s: &str) -> (r: Option<JobStatus>)
        ensures
            r == job_status_named(s@),
    {
        if text_eq(s, "FAILED") {
            Some(JobStatus::Failed)
        } else if text_eq(s, "PENDING") {
            Some(JobStatus::Pending)
        } else if text_eq(s, "RUNNABLE") {
            Some(JobStatus::Runnable)
        } else if text_eq(s, "RUNNING") {
            Some(JobStatus::Running)
        } else if text_eq(s, "STARTING") {
            Some(JobStatus::Starting)
        } else if text_eq(s, "SUBMITTED") {
            Some(JobStatus::Submitted)
        } else if text_eq(s, "SUCCEEDED") {
            Some(JobStatus::Succeeded)
        } else {
            None
        }
    }
}

} // verus!
