//! The command-line client.
use event_broker_sdk::api::{
    AssignedPartition, BarrierMode, Position, SubscriptionAssignment, SubscriptionInterest,
    TenantTraversalDepth,
};
use event_broker_sdk::client::StreamTransport;
use event_broker_sdk::error::EventBrokerError;
use event_broker_sdk::evctl::{
    context_of, data_outcome, data_source, read_data, security_context, security_context_with,
    start_consume, start_produce,
    starting_positions, step, ConsumeArgs, DataSource, Failure, Framing, Happened, ProduceArgs,
    Task,
};
use event_broker_sdk::ids::{ConsumerGroupId, SubscriptionId};
use event_broker_sdk::models::Timestamp;

const NOW: Timestamp = Timestamp { seconds: 3, nanos: 4 };

fn broker_error(text: &str) -> EventBrokerError {
    EventBrokerError::Transport(text.to_string())
}

fn produce_args(data: &str) -> ProduceArgs {
    ProduceArgs {
        type_id: "t~".to_string(),
        subject: "s".to_string(),
        subject_type: "st".to_string(),
        source: "cf-evctl".to_string(),
        data: data.to_string(),
    }
}

fn consume_args(group: String) -> ConsumeArgs {
    ConsumeArgs {
        group,
        topic: "topic".to_string(),
        type_id: "t~".to_string(),
        framing: Framing::Sse,
    }
}

fn build(
    topic: String,
    tenant_id: u128,
    types: Vec<String>,
) -> Result<SubscriptionInterest, EventBrokerError> {
    if topic.is_empty() {
        return Err(broker_error("no topic"));
    }
    Ok(SubscriptionInterest {
        topic,
        tenant_id,
        tenant_depth: TenantTraversalDepth::CurrentTenant,
        barrier_mode: BarrierMode::Respect,
        types,
        filter: None,
    })
}

fn assignment(partitions: &[(&str, u32)]) -> SubscriptionAssignment {
    SubscriptionAssignment {
        subscription_id: SubscriptionId(5),
        topology_version: 1,
        expires_at: NOW,
        assigned: partitions
            .iter()
            .map(|(topic, partition)| AssignedPartition {
                topic: topic.to_string(),
                partition: *partition,
            })
            .collect(),
    }
}

fn is_random(id: u128) -> bool {
    (id >> 76) & 0xf == 4 && (id >> 62) & 0x3 == 2
}

#[test]
fn framings_select_their_transport() {
    assert_eq!(StreamTransport::from(Framing::Multipart), StreamTransport::Multipart);
    assert_eq!(StreamTransport::from(Framing::Sse), StreamTransport::Sse);
}

#[test]
fn data_comes_from_stdin_a_file_or_the_argument() {
    assert!(matches!(data_source("-"), DataSource::Stdin));
    assert!(matches!(data_source("@a/b.json"), DataSource::File(p) if p == "a/b.json"));
    assert!(matches!(data_source("@"), DataSource::File(p) if p.is_empty()));
    assert!(matches!(data_source("{}"), DataSource::Literal(t) if t == "{}"));
    assert!(matches!(data_source("--"), DataSource::Literal(t) if t == "--"));
    assert!(matches!(data_source(""), DataSource::Literal(t) if t.is_empty()));
}

#[test]
fn data_is_read_as_json() {
    let unread = || Err("not asked for".to_string());
    assert_eq!(read_data("true", unread()), Ok(serde_json::Value::Bool(true)));
    assert_eq!(
        read_data("-", Ok("[null]".to_string())),
        Ok(serde_json::Value::Array(vec![serde_json::Value::Null]))
    );
    assert_eq!(
        read_data("@f", Ok("\"x\"".to_string())),
        Ok(serde_json::Value::String("x".to_string()))
    );
}

#[test]
fn data_that_cannot_be_had_is_reported() {
    let failed = || Err("denied".to_string());
    assert_eq!(read_data("-", failed()), Err("reading stdin: denied".to_string()));
    assert_eq!(read_data("@a b", failed()), Err("reading a b: denied".to_string()));
    let why = match serde_json::from_str::<serde_json::Value>("{") {
        Err(e) => e.to_string(),
        Ok(_) => panic!("read"),
    };
    assert_eq!(read_data("{", failed()), Err(format!("data is not valid JSON: {why}")));
    assert_eq!(
        data_outcome(Err("why".to_string())),
        Err("data is not valid JSON: why".to_string())
    );
}

fn judge(_: u128, _: u128, _: bool) -> Result<(), String> {
    Ok(())
}

#[test]
fn principal_is_the_given_one_or_a_fresh_one() {
    let built = |principal, token| match security_context(1, principal, token, &judge) {
        Ok(c) => c,
        Err(why) => panic!("{why}"),
    };
    let c = built(Some(2), Some("SECRET-REDACTED"));
    assert_eq!((c.subject_tenant_id, c.subject_id), (1, 2));
    assert_eq!(c.bearer_token, Some("SECRET-REDACTED"));
    let a = built(None, None);
    let b = built(None, None);
    assert!(is_random(a.subject_id) && is_random(b.subject_id));
    assert_ne!(a.subject_id, b.subject_id);
    assert_eq!(a.subject_tenant_id, b.subject_tenant_id);
    assert!(a.bearer_token.is_none());
}

#[test]
fn drawn_principals_are_kept() {
    for drawn in [7u128, 8] {
        match security_context_with::<u8, _>(1, None, drawn, None, &judge) {
            Ok(c) => assert_eq!((c.subject_tenant_id, c.subject_id), (1, drawn)),
            Err(why) => panic!("{why}"),
        }
    }
    match security_context_with::<u8, _>(1, Some(2), 7, Some(9), &judge) {
        Ok(c) => assert_eq!((c.subject_id, c.bearer_token), (2, Some(9))),
        Err(why) => panic!("{why}"),
    }
}

#[test]
fn contexts_that_cannot_be_built_are_reported() {
    let refuse = |tenant: u128, subject: u128, with_token: bool| -> Result<(), String> {
        Err(format!("{tenant}/{subject}/{with_token}"))
    };
    let r = security_context::<u8, _>(1, Some(2), None, &refuse);
    assert_eq!(r.err(), Some("building security context: 1/2/false".to_string()));
    let r = security_context(1, Some(2), Some(3u8), &refuse);
    assert_eq!(r.err(), Some("building security context: 1/2/true".to_string()));
    let r = context_of::<u8>(1, 2, None, Err("why".to_string()));
    assert_eq!(r.err(), Some("building security context: why".to_string()));
}

#[test]
fn produced_event_leaves_the_brokers_fields_open() {
    let unread = Err("not asked for".to_string());
    let started =
        start_produce(Ok(9u8), "http://h".to_string(), 1, produce_args("{}"), NOW, unread);
    let (client, e) = match started {
        Ok(started) => started,
        Err(e) => panic!("{e:?}"),
    };
    assert_eq!((*client.http(), client.url("/x").as_str()), (9, "http://h/x"));
    assert_eq!(client.framing(), StreamTransport::Multipart);
    assert!(is_random(e.id));
    assert_eq!((e.type_id.as_str(), e.tenant_id, e.source.as_str()), ("t~", 1, "cf-evctl"));
    assert_eq!((e.subject.as_str(), e.subject_type.as_str()), ("s", "st"));
    assert_eq!(e.occurred_at, NOW);
    assert_eq!(e.data, Some(serde_json::Value::Object(serde_json::Map::new())));
    assert!(e.trace_parent.is_none() && e.meta.is_none());
    assert!(e.partition.is_none() && e.sequence.is_none() && e.sequence_time.is_none());
}

#[test]
fn produce_reports_the_client_before_the_data() {
    let bad = || produce_args("{");
    let r = start_produce::<u8>(
        Err("no tls".to_string()),
        "u".to_string(),
        1,
        bad(),
        NOW,
        Ok(String::new()),
    );
    assert!(matches!(r, Err(Failure::Broker(EventBrokerError::Transport(t))) if t == "no tls"));
    let r = start_produce(Ok(0u8), "u".to_string(), 1, bad(), NOW, Ok(String::new()));
    assert!(
        matches!(r, Err(Failure::Message(t)) if t.starts_with("data is not valid JSON: "))
    );
    let stdin = produce_args("-");
    let r = start_produce(Ok(0u8), "u".to_string(), 1, stdin, NOW, Err("closed".to_string()));
    assert!(matches!(r, Err(Failure::Message(t)) if t == "reading stdin: closed"));
}

#[test]
fn consume_joins_for_one_type_under_its_own_name() {
    let args = consume_args(ConsumerGroupId(6).to_gts());
    let (client, req) = match start_consume(Ok(1u8), "http://h".to_string(), 2, args, &build) {
        Ok(started) => started,
        Err(e) => panic!("{e:?}"),
    };
    assert_eq!(client.framing(), StreamTransport::Sse);
    assert_eq!(req.group, ConsumerGroupId(6));
    assert_eq!(req.client_agent, "cf-evctl");
    assert!(req.session_timeout.is_none());
    assert_eq!(req.interests.len(), 1);
    let i = &req.interests[0];
    assert_eq!((i.topic.as_str(), i.tenant_id), ("topic", 2));
    assert_eq!(i.types, vec!["t~".to_string()]);
}

#[test]
fn consume_reports_the_client_then_the_group_then_the_interest() {
    let bad = || {
        let mut args = consume_args("workers".to_string());
        args.topic = String::new();
        args
    };
    let r = start_consume::<u8, _>(Err("x".to_string()), "u".to_string(), 2, bad(), &build);
    assert!(matches!(r, Err(Failure::Broker(EventBrokerError::Transport(t))) if t == "x"));
    match start_consume(Ok(1u8), "u".to_string(), 2, bad(), &build) {
        Err(Failure::Message(text)) => assert_eq!(
            text,
            "group must be an anonymous consumer-group GTS id \
             (gts.cf.core.events.consumer_group.v1~<uuid>)"
        ),
        _ => panic!("not refused"),
    }
    let mut args = bad();
    args.group = ConsumerGroupId(6).to_gts();
    let r = start_consume(Ok(1u8), "u".to_string(), 2, args, &build);
    assert!(matches!(r, Err(Failure::Broker(EventBrokerError::Transport(t))) if t == "no topic"));
}

#[test]
fn every_partition_is_sought_before_the_stream_opens() {
    let joined = assignment(&[("a", 0), ("a", 1), ("b", 0)]);
    let task: Task<u8> = step(Task::Join, Happened::Joined(Ok(joined)));
    match &task {
        Task::Seek { subscription_id, positions } => {
            assert_eq!(*subscription_id, SubscriptionId(5));
            let got: Vec<(&str, u32, Position)> = positions
                .iter()
                .map(|p| (p.topic.as_str(), p.partition, p.value))
                .collect();
            assert_eq!(
                got,
                vec![
                    ("a", 0, Position::Earliest),
                    ("a", 1, Position::Earliest),
                    ("b", 0, Position::Earliest),
                ]
            );
        }
        _ => panic!("no seek"),
    }
    let task = step(task, Happened::Sought(Ok(())));
    assert!(matches!(task, Task::Open(SubscriptionId(5))));
}

#[test]
fn stream_opens_at_once_where_nothing_is_assigned() {
    let task: Task<u8> = step(Task::Join, Happened::Joined(Ok(assignment(&[]))));
    assert!(matches!(task, Task::Open(SubscriptionId(5))));
    assert!(starting_positions(&vec![]).is_empty());
}

#[test]
fn failed_calls_end_the_command() {
    let ends = |task: Task<u8>| {
        matches!(
            task,
            Task::Finish(Err(Failure::Broker(EventBrokerError::Transport(t)))) if t == "x"
        )
    };
    assert!(ends(step(Task::Join, Happened::Joined(Err(broker_error("x"))))));
    let seek = Task::Seek { subscription_id: SubscriptionId(1), positions: vec![] };
    assert!(ends(step(seek, Happened::Sought(Err(broker_error("x"))))));
    assert!(ends(step(Task::Open(SubscriptionId(1)), Happened::Opened(Err(broker_error("x"))))));
}

#[test]
fn frames_are_shown_as_they_arrive() {
    let mut frames = vec!['a', 'b', 'c'].into_iter();
    let mut shown = Vec::new();
    let mut task = step(Task::Open(SubscriptionId(1)), Happened::Opened(Ok(())));
    loop {
        task = match task {
            Task::Await => step(Task::Await, Happened::Arrived(frames.next().map(Ok))),
            Task::Show(frame) => {
                shown.push(frame);
                step(Task::Show(frame), Happened::Shown)
            }
            Task::Finish(end) => {
                assert!(end.is_ok());
                break;
            }
            _ => panic!("unexpected task"),
        };
    }
    assert_eq!(shown, vec!['a', 'b', 'c']);
}

#[test]
fn broken_streams_are_reported_and_end_well() {
    let task: Task<u8> = step(Task::Await, Happened::Arrived(Some(Err(broker_error("cut")))));
    match &task {
        Task::Report(EventBrokerError::Transport(text)) => assert_eq!(text, "cut"),
        _ => panic!("not reported"),
    }
    assert!(matches!(step(task, Happened::Reported), Task::Finish(Ok(()))));
}
