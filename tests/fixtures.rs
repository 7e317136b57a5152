use crowbar::data::apigateway::{AuthEvent, AuthEventType, HttpEvent, HttpMethod};
use crowbar::data::autoscaling::{
    AutoScalingEvent, EventKind, EventStatus, LifecycleAction, LifecycleEvent, LifecycleTransition,
};
use crowbar::data::batch::{JobStateChangeEvent, JobStatus};
use crowbar::data::s3::ObjectEvent;
use crowbar::data::ses::message::{Action, Verdict};
use crowbar::data::{Event, Record};
use crowbar::json::{Json, Number};
use serde_json::Value;

fn to_json(v: &Value) -> Json {
    match v {
        Value::Null => Json::Null,
        Value::Bool(b) => Json::Bool(*b),
        Value::Number(n) => match (n.as_u64(), n.as_i64()) {
            (Some(u), _) => Json::Number(Number::PosInt(u)),
            (None, Some(i)) => Json::Number(Number::NegInt(i)),
            _ => Json::Number(Number::Float(n.to_string())),
        },
        Value::String(s) => Json::String(s.clone()),
        Value::Array(a) => Json::Array(a.iter().map(to_json).collect()),
        Value::Object(m) => Json::Object(m.iter().map(|(k, v)| (k.clone(), to_json(v))).collect()),
    }
}

fn doc(text: &str) -> Json {
    to_json(&serde_json::from_str::<Value>(text).expect("unable to parse json"))
}

const AUTHORIZE: &str = r#"{
  "type": "REQUEST",
  "methodArn": "arn:aws:execute-api:us-east-1:961179389914:smddwihyy9/null/GET/",
  "resource": "/",
  "path": "/",
  "httpMethod": "GET",
  "headers": {"Accept": "*/*", "Host": "smddwihyy9.execute-api.us-east-1.amazonaws.com"},
  "queryStringParameters": {},
  "pathParameters": {},
  "stageVariables": {},
  "requestContext": {
    "path": "/",
    "accountId": "961179389914",
    "resourceId": "lig9h2",
    "stage": "null",
    "requestId": "8b3b1d2a-18e9-11e8-9c4a-b1e4f2c1a3d0",
    "identity": {"sourceIp": "203.0.113.7", "userAgent": "curl/7.54.0", "user": null},
    "resourcePath": "/",
    "httpMethod": "GET",
    "apiId": "smddwihyy9"
  }
}"#;

const REQUEST: &str = r#"{
  "body": null,
  "headers": {"Accept": "*/*", "Host": "smddwihyy9.execute-api.us-east-1.amazonaws.com", "User-Agent": "curl/7.54.0"},
  "httpMethod": "GET",
  "isBase64Encoded": false,
  "path": "/echo.json",
  "pathParameters": null,
  "queryStringParameters": null,
  "resource": "/echo.json",
  "requestContext": {
    "accountId": "961179389914",
    "apiId": "smddwihyy9",
    "httpMethod": "GET",
    "identity": {"accessKey": null, "sourceIp": "203.0.113.7", "userAgent": "curl/7.54.0"},
    "path": "/echo.json",
    "protocol": "HTTP/1.1",
    "requestId": "07535b6a-18e9-11e8-bcc6-397efc46efd2",
    "requestTime": "23/Feb/2018:22:29:36 +0000",
    "requestTimeEpoch": 1519424976415,
    "resourceId": "lig9h2",
    "resourcePath": "/echo.json",
    "stage": "production"
  },
  "stageVariables": null
}"#;

fn lifecycle_action(transition: &str) -> String {
    format!(
        r#"{{
  "version": "0",
  "id": "468fed5e-e5a6-4a94-b1a6-0f6d3bcdd3c0",
  "detail-type": "EC2 Instance-launch Lifecycle Action",
  "source": "aws.autoscaling",
  "account": "123456789012",
  "time": "2015-12-22T18:43:48Z",
  "region": "us-east-1",
  "resources": ["arn:aws:autoscaling:us-east-1:123456789012:autoScalingGroup:59fcbb81:autoScalingGroupName/sampleASG"],
  "detail": {{
    "LifecycleActionToken": "63b79969-a7a0-4bc9-b5b3-e1b5e2a8e5f3",
    "AutoScalingGroupName": "sampleASG",
    "LifecycleHookName": "SampleLifecycleHook-6789",
    "EC2InstanceId": "i-12345678",
    "LifecycleTransition": "{}"
  }}
}}"#,
        transition
    )
}

fn lifecycle_event(detail_type: &str, status: &str, start: &str, end: &str) -> String {
    format!(
        r#"{{
  "version": "0",
  "id": "3e3c153a-8339-4e30-8c35-687ebef853fe",
  "detail-type": "{}",
  "source": "aws.autoscaling",
  "account": "123456789012",
  "time": "2015-11-11T21:31:47Z",
  "region": "us-east-1",
  "resources": ["arn:aws:autoscaling:us-east-1:123456789012:autoScalingGroup:eb56d16b:autoScalingGroupName/sampleLuanchSucASG", "arn:aws:ec2:us-east-1:123456789012:instance/i-b188560f"],
  "detail": {{
    "StatusCode": "{}",
    "AutoScalingGroupName": "sampleLuanchSucASG",
    "ActivityId": "9cabb81f-42de-417d-8aa7-ce16bf026590",
    "Details": {{"Availability Zone": "us-east-1b", "Subnet ID": "subnet-95bfcebe"}},
    "RequestId": "9cabb81f-42de-417d-8aa7-ce16bf026590",
    "EndTime": "{}",
    "EC2InstanceId": "i-b188560f",
    "StartTime": "{}",
    "Cause": "At 2015-11-11T21:31:10Z a user request created an AutoScalingGroup."
  }}
}}"#,
        detail_type, status, end, start
    )
}

fn state_change(status: &str) -> String {
    format!(
        r#"{{
  "version": "0",
  "id": "c8f9c4b5-76e5-d76a-f980-7011e206042b",
  "detail-type": "Batch Job State Change",
  "source": "aws.batch",
  "account": "123456789012",
  "time": "2017-10-23T17:56:03Z",
  "region": "us-east-1",
  "resources": ["arn:aws:batch:us-east-1:123456789012:job/4c7599ae-0a82-49aa-ba5a-4727fcce14a8"],
  "detail": {{
    "jobName": "event-test",
    "jobId": "4c7599ae-0a82-49aa-ba5a-4727fcce14a8",
    "jobQueue": "arn:aws:batch:us-east-1:123456789012:job-queue/HighPriority",
    "status": "{}",
    "attempts": [
      {{
        "container": {{
          "containerInstanceArn": "arn:aws:ecs:us-east-1:123456789012:container-instance/8e1b2c3d",
          "exitCode": 1,
          "logStreamName": "event-test/default/4c7599ae",
          "reason": "Essential container in task exited",
          "taskArn": "arn:aws:ecs:us-east-1:123456789012:task/1a2b3c4d"
        }},
        "startedAt": 1508781340401,
        "stoppedAt": 1508781345401,
        "statusReason": "Essential container in task exited"
      }}
    ],
    "createdAt": 1508781340401,
    "startedAt": 1508781340401,
    "retryStrategy": {{"attempts": 1}},
    "dependsOn": [],
    "jobDefinition": "arn:aws:batch:us-east-1:123456789012:job-definition/first-run-job-definition:1",
    "parameters": {{}},
    "container": {{
      "image": "busybox",
      "vcpus": 2,
      "memory": 2000,
      "command": ["echo", "hello world"],
      "volumes": [{{"host": {{"sourcePath": "/data"}}, "name": "data"}}],
      "environment": [{{"name": "STAGE", "value": "test"}}],
      "mountPoints": [{{"containerPath": "/data", "readOnly": false, "sourceVolume": "data"}}],
      "readonlyRootFilesystem": false,
      "privileged": false,
      "reason": "",
      "taskArn": "arn:aws:ecs:us-east-1:123456789012:task/1a2b3c4d",
      "ulimits": [{{"hardLimit": 1024, "softLimit": 512, "name": "nofile"}}],
      "user": "root"
    }}
  }}
}}"#,
        status
    )
}

#[test]
fn test_auth_payload() {
    let event = AuthEvent::decode(&doc(AUTHORIZE)).expect("unable to parse json");

    assert_eq!("GET", event.http_method);
    assert_eq!("/", event.path);
    assert_eq!("/", event.resource);
    assert_eq!("arn:aws:execute-api:us-east-1:961179389914:smddwihyy9/null/GET/", event.method_arn);
    assert_eq!(AuthEventType::Request, event.event_type);
}

#[test]
fn test_https_payload() {
    let event = HttpEvent::decode(&doc(REQUEST)).expect("unable to parse json");

    // fields themselves
    assert_eq!(None, event.body);
    assert_eq!(HttpMethod::GET, event.http_method);
    assert_eq!(false, event.is_base64_encoded);
    assert_eq!("/echo.json", event.path);
    assert_eq!("/echo.json", event.resource);

    // subfields
    assert_eq!("961179389914", event.request_context.account_id);
    assert_eq!("smddwihyy9", event.request_context.api_id);
    assert_eq!(HttpMethod::GET, event.request_context.http_method);
    assert_eq!("/echo.json", event.request_context.path);
    assert_eq!("HTTP/1.1", event.request_context.protocol.unwrap());
    assert_eq!("07535b6a-18e9-11e8-bcc6-397efc46efd2", event.request_context.request_id);
    assert_eq!("23/Feb/2018:22:29:36 +0000", event.request_context.request_time.unwrap());
    assert_eq!(1519424976415, event.request_context.request_time_epoch.unwrap());
    assert_eq!("lig9h2", event.request_context.resource_id);
    assert_eq!("/echo.json", event.request_context.resource_path);
    assert_eq!("production", event.request_context.stage);
}

#[test]
fn test_lifecycle_action_launch() {
    let action =
        LifecycleAction::decode(&doc(&lifecycle_action("autoscaling:EC2_INSTANCE_LAUNCHING"))).unwrap();

    assert_eq!(action.detail.lifecycle_transition, LifecycleTransition::InstanceLaunching);
}

#[test]
fn test_lifecycle_action_terminate() {
    let action =
        LifecycleAction::decode(&doc(&lifecycle_action("autoscaling:EC2_INSTANCE_TERMINATING"))).unwrap();

    assert_eq!(action.detail.lifecycle_transition, LifecycleTransition::InstanceTerminating);
}

#[test]
fn test_lifecycle_event_launch_failure() {
    let event = LifecycleEvent::decode(&doc(&lifecycle_event(
        "EC2 Instance Launch Unsuccessful",
        "Failed",
        "2015-11-11T21:31:46.829Z",
        "2015-11-11T21:31:47.527Z",
    )))
    .unwrap();

    assert_eq!(event.status(), EventStatus::Failure);
    assert_eq!(event.kind(), EventKind::Launch);

    assert_eq!(698_000_000, event.duration());
}

#[test]
fn test_lifecycle_event_launch_success() {
    let event = LifecycleEvent::decode(&doc(&lifecycle_event(
        "EC2 Instance Launch Successful",
        "InProgress",
        "2015-11-11T21:31:47.208Z",
        "2015-11-11T21:32:20.745Z",
    )))
    .unwrap();

    assert_eq!(event.status(), EventStatus::Success);
    assert_eq!(event.kind(), EventKind::Launch);

    assert_eq!(33_537_000_000, event.duration());
}

#[test]
fn test_lifecycle_event_terminate_failure() {
    let event = LifecycleEvent::decode(&doc(&lifecycle_event(
        "EC2 Instance Terminate Unsuccessful",
        "Failed",
        "2015-11-11T21:38:31.154Z",
        "2015-11-11T21:39:40.386Z",
    )))
    .unwrap();

    assert_eq!(event.status(), EventStatus::Failure);
    assert_eq!(event.kind(), EventKind::Terminate);

    assert_eq!(69_232_000_000, event.duration());
}

#[test]
fn test_lifecycle_event_terminate_success() {
    let event = LifecycleEvent::decode(&doc(&lifecycle_event(
        "EC2 Instance Terminate Successful",
        "InProgress",
        "2015-11-11T21:39:09.521Z",
        "2015-11-11T21:39:54.370Z",
    )))
    .unwrap();

    assert_eq!(event.status(), EventStatus::Success);
    assert_eq!(event.kind(), EventKind::Terminate);

    assert_eq!(44_849_000_000, event.duration());
}

#[test]
fn test_state_change_failed() {
    let event = JobStateChangeEvent::decode(&doc(&state_change("FAILED"))).unwrap();

    assert_eq!(JobStatus::Failed, event.detail.status);
}

#[test]
fn test_state_change_pending() {
    let event = JobStateChangeEvent::decode(&doc(&state_change("PENDING"))).unwrap();

    assert_eq!(JobStatus::Pending, event.detail.status);
}

#[test]
fn test_state_change_runnable() {
    let event = JobStateChangeEvent::decode(&doc(&state_change("RUNNABLE"))).unwrap();

    assert_eq!(JobStatus::Runnable, event.detail.status);
}

#[test]
fn test_state_change_running() {
    let event = JobStateChangeEvent::decode(&doc(&state_change("RUNNING"))).unwrap();

    assert_eq!(JobStatus::Running, event.detail.status);
}

#[test]
fn test_state_change_starting() {
    let event = JobStateChangeEvent::decode(&doc(&state_change("STARTING"))).unwrap();

    assert_eq!(JobStatus::Starting, event.detail.status);
}

#[test]
fn test_state_change_submitted() {
    let event = JobStateChangeEvent::decode(&doc(&state_change("SUBMITTED"))).unwrap();

    assert_eq!(JobStatus::Submitted, event.detail.status);
}

#[test]
fn test_state_change_succeeded() {
    let event = JobStateChangeEvent::decode(&doc(&state_change("SUCCEEDED"))).unwrap();

    assert_eq!(JobStatus::Succeeded, event.detail.status);
}

#[test]
fn state_change_details_are_read() {
    let event = JobStateChangeEvent::decode(&doc(&state_change("FAILED"))).unwrap();
    let detail = &event.detail;
    assert_eq!(detail.attempts.len(), 1);
    assert_eq!(detail.attempts[0].container.exit_code, 1);
    assert_eq!(detail.created_at, Some(1508781340401));
    assert_eq!(detail.stopped_at, None);
    assert_eq!(detail.container.memory, 2000);
    assert_eq!(detail.container.command, vec!["echo".to_string(), "hello world".to_string()]);
    assert_eq!(detail.container.environment[0].get("value"), Some("test"));
    assert_eq!(detail.container.ulimits[0].soft_limit, 512);
    assert_eq!(detail.container.volumes[0].host.source_path, "/data");
    assert_eq!(event.time.secs, 1508781363);
}

#[test]
fn unknown_job_status_is_refused() {
    let err = JobStateChangeEvent::decode(&doc(&state_change("PAUSED")));
    assert!(err.is_err());
}

#[test]
fn autoscaling_event_prefers_the_action_shape() {
    match AutoScalingEvent::decode(&doc(&lifecycle_action("autoscaling:EC2_INSTANCE_LAUNCHING"))).unwrap() {
        AutoScalingEvent::Action(_) => {}
        AutoScalingEvent::Event(_) => panic!("read as an event"),
    }
    let text = lifecycle_event(
        "EC2 Instance Launch Successful",
        "InProgress",
        "2015-11-11T21:31:47.208Z",
        "2015-11-11T21:32:20.745Z",
    );
    match AutoScalingEvent::decode(&doc(&text)).unwrap() {
        AutoScalingEvent::Event(e) => assert_eq!(e.kind(), EventKind::Launch),
        AutoScalingEvent::Action(_) => panic!("read as an action"),
    }
}

#[test]
fn unknown_detail_type_is_kept() {
    let text = lifecycle_event(
        "EC2 Instance Hibernated",
        "InProgress",
        "2015-11-11T21:31:47.208Z",
        "2015-11-11T21:32:20.745Z",
    );
    let event = LifecycleEvent::decode(&doc(&text)).unwrap();
    assert_eq!(event.kind(), EventKind::Unknown);
    assert_eq!(event.status(), EventStatus::Unknown);
    match &event.event_type {
        crowbar::data::autoscaling::EventType::Unknown(s) => assert_eq!(s, "EC2 Instance Hibernated"),
        _ => panic!("not kept"),
    }
}

#[test]
fn duration_is_positive_when_end_precedes_start() {
    let event = LifecycleEvent::decode(&doc(&lifecycle_event(
        "EC2 Instance Launch Unsuccessful",
        "Failed",
        "2015-11-11T21:31:47.527Z",
        "2015-11-11T21:31:46.829Z",
    )))
    .unwrap();
    assert_eq!(698_000_000, event.duration());
}

const SCHEDULED: &str = r#"{
  "version": "0",
  "account": "123456789012",
  "region": "us-east-1",
  "detail": {"state": "running", "count": 3},
  "detail-type": "Scheduled Event",
  "source": "aws.events",
  "time": "2019-03-01T01:23:45Z",
  "id": "cdc73f9d-aea9-11e3-9d5a-835b769c0d9c",
  "resources": ["arn:aws:events:us-east-1:123456789012:rule/my-schedule"]
}"#;

const S3_RECORDS: &str = r#"{
  "Records": [
    {
      "eventVersion": "2.0",
      "eventSource": "aws:s3",
      "awsRegion": "us-east-1",
      "eventTime": "1970-01-01T00:00:00.000Z",
      "eventName": "ObjectCreated:Put",
      "userIdentity": {"principalId": "EXAMPLE"},
      "requestParameters": {"sourceIPAddress": "127.0.0.1"},
      "responseElements": {"x-amz-request-id": "EXAMPLE123456789"},
      "s3": {
        "s3SchemaVersion": "1.0",
        "configurationId": "testConfigRule",
        "bucket": {"name": "example-bucket", "ownerIdentity": {"principalId": "EXAMPLE"}, "arn": "arn:aws:s3:::example-bucket"},
        "object": {"key": "test/key", "size": 1024, "eTag": "0123456789abcdef", "sequencer": "0A1B2C3D4E5F678901"}
      }
    }
  ]
}"#;

const SNS_RECORDS: &str = r#"{
  "Records": [
    {
      "EventVersion": "1.0",
      "EventSubscriptionArn": "arn:aws:sns:us-east-1:123456789012:sns-lambda:21be56ed",
      "EventSource": "aws:sns",
      "Sns": {
        "SignatureVersion": "1",
        "Timestamp": "2019-01-02T12:45:07.000Z",
        "Signature": "tcc6faL2yUC6dgZdmrwh1Y4cGa/ebXEkAi6RibDsvpi+tE/1+82j",
        "SigningCertUrl": "https://sns.us-east-1.amazonaws.com/SimpleNotificationService.pem",
        "MessageId": "95df01b4-ee98-5cb9-9903-4c221d41eb5e",
        "Message": "Hello from SNS!",
        "MessageAttributes": {"Test": {"Type": "String", "Value": "TestString"}},
        "Type": "Notification",
        "UnsubscribeUrl": "https://sns.us-east-1.amazonaws.com/?Action=Unsubscribe",
        "TopicArn": "arn:aws:sns:us-east-1:123456789012:sns-lambda",
        "Subject": "TestInvoke"
      }
    }
  ]
}"#;

const SES_RECORDS: &str = r#"{
  "Records": [
    {
      "eventVersion": "1.0",
      "eventSource": "aws:ses",
      "ses": {
        "mail": {
          "destination": ["johndoe@example.com"],
          "headersTruncated": false,
          "messageId": "o3vrnil0e2ic28trm7dfhrc2v0clambda4nbp0g1",
          "source": "janedoe@example.com",
          "timestamp": "1970-01-01T00:00:00.000Z",
          "headers": [{"name": "From", "value": "Jane Doe <janedoe@example.com>"}],
          "commonHeaders": {
            "date": "Wed, 7 Oct 2015 12:34:56 -0700",
            "from": ["Jane Doe <janedoe@example.com>"],
            "messageId": "<0123456789example.com>",
            "returnPath": "janedoe@example.com",
            "subject": "Test Subject",
            "to": ["johndoe@example.com"]
          }
        },
        "receipt": {
          "action": {"type": "Lambda", "functionArn": "arn:aws:lambda:us-east-1:123456789012:function:Example", "invocationType": "Event"},
          "dkimVerdict": {"status": "PASS"},
          "dmarcVerdict": {"status": "GRAY"},
          "processingTimeMillis": 574,
          "recipients": ["johndoe@example.com"],
          "spamVerdict": {"status": "PASS"},
          "spfVerdict": {"status": "FAIL"},
          "timestamp": "1970-01-01T00:00:00.000Z",
          "virusVerdict": {"status": "PROCESSING_FAILED"}
        }
      }
    }
  ]
}"#;

#[test]
fn envelope_scheduled_notification() {
    match Event::decode(doc(SCHEDULED)) {
        Event::ScheduledNotification(e) => {
            assert_eq!(e.detail_type, "Scheduled Event");
            assert_eq!(e.detail.len(), 2);
            assert_eq!(e.resources.len(), 1);
        }
        _ => panic!("wrong shape"),
    }
}

#[test]
fn envelope_authorization_request() {
    match Event::decode(doc(AUTHORIZE)) {
        Event::AuthorizationRequest(e) => assert!(e.method_arn.ends_with("/GET/")),
        _ => panic!("wrong shape"),
    }
}

#[test]
fn envelope_http_request() {
    match Event::decode(doc(REQUEST)) {
        Event::HttpRequest(e) => {
            assert_eq!(e.path, "/echo.json");
            assert_eq!(e.header("User-Agent"), Some("curl/7.54.0"));
            assert_eq!(e.header("Cookie"), None);
            let t = e.request_context.time().unwrap();
            assert_eq!((t.secs, t.nanos), (1519424976, 415_000_000));
        }
        _ => panic!("wrong shape"),
    }
}

#[test]
fn envelope_storage_records() {
    match Event::decode(doc(S3_RECORDS)) {
        Event::RecordBatch(rs) => match &rs[..] {
            [Record::S3(r)] => {
                assert_eq!(r.event_name, ObjectEvent::Put);
                assert_eq!(r.event.bucket.name, "example-bucket");
                assert_eq!(r.event.object.key, "test/key");
                assert_eq!(r.event_name.name(), "s3:ObjectCreated:Put");
            }
            _ => panic!("wrong records"),
        },
        _ => panic!("wrong shape"),
    }
}

#[test]
fn envelope_mail_records() {
    match Event::decode(doc(SES_RECORDS)) {
        Event::RecordBatch(rs) => match &rs[..] {
            [Record::Ses(r)] => {
                let receipt = &r.event.receipt;
                assert_eq!(receipt.dkim_verdict, Verdict::Pass);
                assert_eq!(receipt.dmarc_verdict, Verdict::Gray);
                assert_eq!(receipt.spf_verdict, Verdict::Fail);
                assert_eq!(receipt.virus_verdict, Verdict::ProcessingFailed);
                assert_eq!(receipt.processing_time_millis, 574);
                assert!(matches!(receipt.action, Action::Lambda(_)));
                assert_eq!(r.event.details.common_headers.subject, "Test Subject");
            }
            _ => panic!("wrong records"),
        },
        _ => panic!("wrong shape"),
    }
}

#[test]
fn alternate_casing_of_source_still_dispatches() {
    match Event::decode(doc(SNS_RECORDS)) {
        Event::RecordBatch(rs) => match &rs[..] {
            [Record::Sns(r)] => {
                assert_eq!(r.event.message, "Hello from SNS!");
                assert_eq!(r.event.subject.as_deref(), Some("TestInvoke"));
                let attrs = r.event.message_attributes.as_ref().unwrap();
                assert_eq!(attrs[0].0, "Test");
                assert_eq!(attrs[0].1.value, "TestString");
            }
            _ => panic!("wrong records"),
        },
        _ => panic!("wrong shape"),
    }
}

#[test]
fn record_from_unknown_source_is_kept() {
    let text = r#"{"Records": [{"eventSource": "aws:kinesis", "kinesis": {"data": "aGVsbG8="}}, {"other": 1}]}"#;
    match Event::decode(doc(text)) {
        Event::RecordBatch(rs) => {
            assert_eq!(rs.len(), 2);
            assert!(matches!(rs[0], Record::Unrecognized(Json::Object(_))));
            assert!(matches!(rs[1], Record::Unrecognized(Json::Object(_))));
        }
        _ => panic!("wrong shape"),
    }
}

#[test]
fn malformed_known_record_makes_the_document_unrecognized() {
    let text = r#"{"Records": [{"eventSource": "aws:s3", "awsRegion": "us-east-1"}]}"#;
    assert!(matches!(Event::decode(doc(text)), Event::Unrecognized(Json::Object(_))));
}

#[test]
fn unknown_document_is_kept() {
    match Event::decode(doc(r#"{"hello": "world"}"#)) {
        Event::Unrecognized(Json::Object(m)) => {
            assert_eq!(m.len(), 1);
            assert_eq!(m[0].0, "hello");
        }
        _ => panic!("wrong shape"),
    }
    assert!(matches!(Event::decode(doc("[1, 2]")), Event::Unrecognized(Json::Array(_))));
}

#[test]
fn empty_record_batch() {
    match Event::decode(doc(r#"{"Records": []}"#)) {
        Event::RecordBatch(rs) => assert!(rs.is_empty()),
        _ => panic!("wrong shape"),
    }
}

#[test]
fn exit_code_beyond_sixteen_bits_is_refused() {
    let text = state_change("FAILED").replace("\"exitCode\": 1,", "\"exitCode\": 65536,");
    let err = JobStateChangeEvent::decode(&doc(&text)).err().unwrap();
    assert_eq!(err.path, vec!["detail", "attempts", "container", "exitCode"]);
    let text = state_change("FAILED").replace("\"exitCode\": 1,", "\"exitCode\": 65535,");
    let event = JobStateChangeEvent::decode(&doc(&text)).unwrap();
    assert_eq!(event.detail.attempts[0].container.exit_code, 65535);
}

#[test]
fn missing_member_is_named_in_the_error() {
    let text = REQUEST.replace("\"path\": \"/echo.json\",\n  \"pathParameters\"", "\"pathParameters\"");
    let err = HttpEvent::decode(&doc(&text)).err().unwrap();
    assert_eq!(err.path, vec!["path"]);
}

#[test]
fn error_path_leads_to_the_bad_verdict() {
    let text = SES_RECORDS.replace(r#""spfVerdict": {"status": "FAIL"}"#, r#""spfVerdict": {"status": "MAYBE"}"#);
    let records = doc(&text);
    let entry = match &records {
        Json::Object(m) => match &m[0].1 {
            Json::Array(items) => &items[0],
            _ => panic!("no records"),
        },
        _ => panic!("not an object"),
    };
    let err = crowbar::data::ses::Record::decode(entry).err().unwrap();
    assert_eq!(err.path, vec!["ses", "receipt", "spfVerdict"]);
    assert!(matches!(Event::decode(records), Event::Unrecognized(_)));
}
