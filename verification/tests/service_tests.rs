use async_nats::jetstream::context::{PublishError, PublishErrorKind};
use nodal::header::{
    MESSAGE_ID, REQUEST_ID, SERVICE_UID, VERSION,
};
use nodal::service::{
    endpoint_subject, find_header, handler_request_id, plan_reply, service_metadata,
    ServiceState,
};
use nodal::stream::{
    plan_publish, plan_publish_with_message_id, publish_subject, stream_config_name, stream_config_subject,
    stream_subject_prefix, stream_subscription,
};
use nodal::supervisor::{connect_failure_message, Scope, Supervisor, SupervisorAction, TaskEnd};

#[test]
fn endpoint_subject_joins_service_and_subject() {
    assert_eq!(endpoint_subject("test_service", "response_only"), "test_service.response_only");
}

#[test]
fn metadata_entries() {
    assert_eq!(
        service_metadata(),
        vec![(VERSION.to_string(), nodal::service::LIBRARY_VERSION.to_string())]
    );
}

#[test]
fn handler_request_id_defaults_to_empty() {
    assert_eq!(handler_request_id(Some("abc")), "abc");
    assert_eq!(handler_request_id(None), "");
}

#[test]
fn reply_success_echoes_request_id() {
    let reply = plan_reply("uid-1", Some("req-9"), Ok(b"[1]".to_vec()));
    assert_eq!(
        reply.headers,
        vec![
            (SERVICE_UID.to_string(), "uid-1".to_string()),
            (REQUEST_ID.to_string(), "req-9".to_string()),
        ]
    );
    assert_eq!(reply.body.ok().unwrap(), b"[1]".to_vec());
}

#[test]
fn reply_failure_carries_message_and_code_zero() {
    let reply = plan_reply("uid-1", None, Err("bad input".to_string()));
    assert_eq!(reply.headers, vec![(SERVICE_UID.to_string(), "uid-1".to_string())]);
    match reply.body {
        Err(f) => {
            assert_eq!(f.status, "bad input");
            assert_eq!(f.code, 0);
        }
        Ok(_) => panic!("expected a failure"),
    }
}

#[test]
fn service_state_holds_context_and_uid() {
    let state = ServiceState::new(42u32, "uid-7".to_string());
    assert_eq!(*state.context(), 42);
    assert_eq!(state.uid, "uid-7");
}

#[test]
fn stream_names_and_subjects() {
    assert_eq!(stream_config_name("weather", "TEMPERATURE"), "WEATHER_TEMPERATURE");
    assert_eq!(stream_config_name("wetter_ß", "T"), "WETTER_SS_T");
    let prefix = stream_subject_prefix("weather", "virginia.abc", true);
    assert_eq!(prefix, "weather.virginia.abc");
    assert_eq!(
        stream_config_subject("weather", "virginia.abc", true, "temperature"),
        "weather.virginia.abc.temperature"
    );
    // without parameters the prefix is the service name alone
    assert_eq!(stream_subject_prefix("svc", "", false), "svc");
    assert_eq!(stream_config_subject("svc", "", false, "s"), "svc.s");
    // a service with one parameter whose value is empty keeps the dot
    assert_eq!(stream_subject_prefix("svc", "", true), "svc.");
    assert_eq!(stream_config_subject("svc", "", true, "s"), "svc..s");
}

#[test]
fn published_message_lands_on_stream_subject() {
    let prefix = stream_subject_prefix("weather", "virginia.abc", true);
    assert_eq!(
        publish_subject(&prefix, "temperature"),
        stream_config_subject("weather", "virginia.abc", true, "temperature")
    );
}

#[test]
fn plan_publish_sets_fresh_message_id() {
    let headers = vec![
        ("Test-Header".to_string(), "example".to_string()),
        (MESSAGE_ID.to_string(), "caller".to_string()),
    ];
    let plan = plan_publish("svc", "s", b"25".to_vec(), headers);
    assert_eq!(plan.subject, "svc.s");
    assert_eq!(plan.payload, b"25".to_vec());
    assert_eq!(plan.headers.len(), 2);
    assert_eq!(plan.headers[0], ("Test-Header".to_string(), "example".to_string()));
    assert_eq!(plan.headers[1].0, MESSAGE_ID);
    assert_eq!(plan.headers[1].1.len(), 26);
    assert_ne!(plan.headers[1].1, "caller");
}

#[test]
fn supervisor_idles_without_tasks() {
    let (_s, action) = Supervisor::start(Scope::Cluster, 0);
    assert!(matches!(action, SupervisorAction::Idle));
    let (_s, action) = Supervisor::start(Scope::Service, 0);
    assert!(matches!(action, SupervisorAction::Idle));
}

#[test]
fn supervisor_finishes_after_last_completion() {
    let (mut s, action) = Supervisor::start(Scope::Service, 3);
    assert!(matches!(action, SupervisorAction::Wait));
    assert_eq!(s.running(), 3);
    assert!(matches!(s.on_task_end(TaskEnd::Completed), SupervisorAction::Wait));
    assert!(matches!(s.on_task_end(TaskEnd::Completed), SupervisorAction::Wait));
    assert!(matches!(s.on_task_end(TaskEnd::Completed), SupervisorAction::Finish));
    assert_eq!(s.running(), 0);
}

#[test]
fn supervisor_failure_messages() {
    let (mut c, _) = Supervisor::start(Scope::Cluster, 2);
    match c.on_task_end(TaskEnd::JoinFailed("panicked".to_string())) {
        SupervisorAction::Fail(m) => assert_eq!(m, "join error: panicked"),
        _ => panic!("expected a failure"),
    }
    match c.on_task_end(TaskEnd::Failed("boom".to_string())) {
        SupervisorAction::Fail(m) => assert_eq!(m, "service task stopped: boom"),
        _ => panic!("expected a failure"),
    }
    let (mut s, _) = Supervisor::start(Scope::Service, 1);
    match s.on_task_end(TaskEnd::JoinFailed("cancelled".to_string())) {
        SupervisorAction::Fail(m) => assert_eq!(m, "service task stopped: cancelled"),
        _ => panic!("expected a failure"),
    }
    match s.on_task_end(TaskEnd::Failed("no stream".to_string())) {
        SupervisorAction::Fail(m) => assert_eq!(m, "no stream"),
        _ => panic!("expected a failure"),
    }
}

#[test]
fn connect_failure_text() {
    assert_eq!(connect_failure_message("refused"), "NATS connect failed: refused");
}

#[test]
fn reply_echoes_client_request_id() {
    let request = nodal::client::request_headers("01HQ");
    let id = find_header(&request, REQUEST_ID);
    assert_eq!(id.as_deref(), Some("01HQ"));
    let reply = plan_reply("uid-1", id.as_deref(), Ok(Vec::new()));
    assert_eq!(reply.headers[1], (REQUEST_ID.to_string(), "01HQ".to_string()));
}

#[test]
fn find_header_takes_first_match() {
    let headers = vec![
        ("A".to_string(), "1".to_string()),
        ("B".to_string(), "2".to_string()),
        ("A".to_string(), "3".to_string()),
    ];
    assert_eq!(find_header(&headers, "A").as_deref(), Some("1"));
    assert_eq!(find_header(&headers, "C"), None);
}

#[test]
fn plan_publish_with_given_message_id() {
    let headers = vec![(MESSAGE_ID.to_string(), "old".to_string())];
    let plan = plan_publish_with_message_id("svc", "s", vec![1, 2], headers, "01J0".to_string());
    assert_eq!(plan.headers, vec![(MESSAGE_ID.to_string(), "01J0".to_string())]);
    assert_eq!(plan.payload, vec![1, 2]);
}

#[test]
fn stream_of_unparameterised_service_has_no_empty_token() {
    // the stream of the service `test_service_with_stream`, which has no
    // template parameters
    let prefix = stream_subject_prefix("test_service_with_stream", "", false);
    assert_eq!(prefix, "test_service_with_stream");
    let captured = stream_config_subject("test_service_with_stream", "", false, "test_stream_subject");
    assert_eq!(captured, "test_service_with_stream.test_stream_subject");
    assert_eq!(publish_subject(&prefix, "test_stream_subject"), captured);
    assert_eq!(
        stream_config_name("test_service_with_stream", "TEST_STREAM"),
        "TEST_SERVICE_WITH_STREAM_TEST_STREAM"
    );
    assert!(!captured.contains(".."));
}

#[test]
fn publish_error_becomes_error_with_its_text() {
    let publish = PublishError::new(PublishErrorKind::StreamNotFound);
    let text = publish.to_string();
    let e: nodal::error::Error = publish.into();
    assert_eq!(e.to_string(), text);
}

#[test]
fn client_subscribes_where_stream_publishes() {
    // the stream of `test_service_with_stream`, which has no parameters
    let sub = stream_subscription(
        "test_service_with_stream",
        "",
        false,
        "TEST_STREAM",
        "test_stream_subject",
    );
    assert_eq!(sub.stream, "TEST_SERVICE_WITH_STREAM_TEST_STREAM");
    assert_eq!(sub.filter_subject, "test_service_with_stream.test_stream_subject");
    let prefix = stream_subject_prefix("test_service_with_stream", "", false);
    assert_eq!(publish_subject(&prefix, "test_stream_subject"), sub.filter_subject);

    // a parameterised service
    let sub = stream_subscription("weather", "virginia.abc", true, "TEMPERATURE", "temperature");
    assert_eq!(sub.stream, "WEATHER_TEMPERATURE");
    assert_eq!(sub.filter_subject, "weather.virginia.abc.temperature");
}
