//! What callers get from replies.
use event_broker_sdk::api::{
    BarrierMode, Filter, IngestOutcome, SubscriptionInterest, TenantTraversalDepth,
};
use event_broker_sdk::client::RestBroker;
use event_broker_sdk::convert::{
    assignment_from_wire, assignment_of, consumer_group_from_wire, consumer_group_id_from_wire,
    event_type_from_wire, event_type_of, interest_from_wire, interest_to_wire,
    partition_from_wire, subscription_from_wire, topic_from_wire, NOT_ANONYMOUS,
};
use event_broker_sdk::error::EventBrokerError;
use event_broker_sdk::exchange::{
    error_from_response, is_success, send_json, send_status, ProblemReading, Reply, ReplyBody,
    SecurityContext, Sent,
};
use event_broker_sdk::ids::{ConsumerGroupId, GtsInstanceId, GtsTypeId, ProducerId, SubscriptionId};
use event_broker_sdk::listing::{list_all, list_step, ListStep, Listing};
use event_broker_sdk::models::{ConsumerGroupKind, Sequence, Subscription, Timestamp};
use event_broker_sdk::replies::{
    consumer_group_reply, done_reply, event_types_from_wire, find_event_type,
    get_producer_cursors_reply, get_subscription_reply, join_reply, list_consumer_groups_reply,
    list_topic_segments_reply, publish_reply, register_producer_reply, seek_reply,
    subscriptions_from_wire, topics_from_wire,
};
use event_broker_sdk::wire::{
    AssignedPartitionWire, BarrierModeWire, ConsumerGroupKindWire, ConsumerGroupWire,
    EventTypeWire, FilterSpecWire, InterestResponseWire, MaxDepthWire, PageInfoWire, PageWire,
    RegisterProducerResponseWire, SubscriptionWire, TopicSegmentsResponseWire, TopicWire,
};

const TOPIC: &str = "gts.cf.core.events.topic.v1~cf.core._.orders.v1";
const TYPE: &str = "gts.cf.core.events.event.v1~cf.core.orders.created.v1~";
const NOW: Timestamp = Timestamp { seconds: 1_700_000_000, nanos: 5 };

fn success<T>(status: u16, payload: T) -> Sent<T> {
    Ok(Reply { status, status_text: "200 OK".to_string(), body: ReplyBody::Payload(Ok(payload)) })
}

fn refusal<T>(problem: ProblemReading) -> Sent<T> {
    Ok(Reply {
        status: 404,
        status_text: "404 Not Found".to_string(),
        body: ReplyBody::Problem(problem),
    })
}

fn transport_text<T>(r: Result<T, EventBrokerError>) -> String {
    match r {
        Err(EventBrokerError::Transport(text)) => text,
        Err(e) => panic!("another error: {e:?}"),
        Ok(_) => panic!("no error"),
    }
}

fn done<T>(r: Result<T, EventBrokerError>) -> T {
    match r {
        Ok(t) => t,
        Err(e) => panic!("failed: {e:?}"),
    }
}

fn any_filter(engine: String, expression: String) -> Result<Filter, EventBrokerError> {
    Ok(Filter { engine, expression })
}

fn any_interest(i: SubscriptionInterest) -> Result<SubscriptionInterest, EventBrokerError> {
    Ok(i)
}

fn echo(max_depth: Option<i32>, barrier_mode: &str) -> InterestResponseWire {
    InterestResponseWire {
        topic: TOPIC.to_string(),
        tenant_id: 4,
        max_depth,
        barrier_mode: barrier_mode.to_string(),
        types: vec![TYPE.to_string()],
        filter: None,
    }
}

fn group_wire(id: &str) -> ConsumerGroupWire {
    ConsumerGroupWire {
        id: id.to_string(),
        tenant_id: 1,
        owner_principal_id: 2,
        kind: ConsumerGroupKindWire::Named,
        description: Some("d".to_string()),
        created_at: NOW,
    }
}

fn subscription_wire() -> SubscriptionWire {
    SubscriptionWire {
        id: 11,
        consumer_group: ConsumerGroupId(12).to_gts(),
        client_agent: "agent".to_string(),
        interests: vec![echo(Some(2), "ignore")],
        assigned: vec![
            AssignedPartitionWire { topic: TOPIC.to_string(), partition: 3 },
            AssignedPartitionWire { topic: TOPIC.to_string(), partition: -3 },
        ],
        topology_version: -7,
        expires_at: NOW,
    }
}

fn event_type_wire(id: &str) -> EventTypeWire {
    EventTypeWire {
        id: id.to_string(),
        topic: TOPIC.to_string(),
        description: None,
        allowed_subject_types: vec!["s".to_string()],
        partition_key: Some("k".to_string()),
        data_schema: Some(serde_json::Value::Bool(true)),
    }
}

fn topic_wire(id: &str) -> TopicWire {
    TopicWire { id: id.to_string(), description: None, retention: Some("P7D".to_string()) }
}

fn page<T>(items: Vec<T>, next: Option<&str>) -> PageWire<T> {
    PageWire {
        items,
        page_info: PageInfoWire {
            next_cursor: next.map(str::to_string),
            prev_cursor: None,
            limit: 50,
        },
    }
}

#[test]
fn success_is_a_status_from_200_to_299() {
    assert!(is_success(200) && is_success(299));
    assert!(!is_success(199) && !is_success(300));
}

#[test]
fn bodies_and_statuses_come_after_success() {
    assert_eq!(done(send_json(success(200, 5))), 5);
    assert_eq!(done(send_status(success(204, ()))), 204);
}

#[test]
fn transport_failures_keep_their_text() {
    assert_eq!(transport_text(send_json::<u8>(Err("reset".to_string()))), "reset");
    assert_eq!(transport_text(send_status::<u8>(Err("reset".to_string()))), "reset");
    let unreadable: Sent<u8> = Ok(Reply {
        status: 200,
        status_text: "200 OK".to_string(),
        body: ReplyBody::Payload(Err("expected value".to_string())),
    });
    assert_eq!(transport_text(send_json(unreadable)), "expected value");
}

#[test]
fn statuses_do_not_depend_on_the_body() {
    let unreadable: Sent<u8> = Ok(Reply {
        status: 202,
        status_text: "202 Accepted".to_string(),
        body: ReplyBody::Payload(Err("no body".to_string())),
    });
    assert_eq!(done(send_status(unreadable)), 202);
}

#[test]
fn refusals_are_told_by_their_problem() {
    assert_eq!(
        transport_text(send_json::<u8>(refusal(ProblemReading::Unrecognized))),
        "broker returned 404 Not Found with an unrecognized body"
    );
    assert_eq!(
        transport_text(send_status::<u8>(refusal(ProblemReading::NotCanonical))),
        "broker returned 404 Not Found with a problem body"
    );
    let e = EventBrokerError::Refused {
        code: "not_found".to_string(),
        detail: "d".to_string(),
        instance: "i".to_string(),
    };
    match error_from_response("404 Not Found", ProblemReading::Canonical(e)) {
        EventBrokerError::Refused { code, detail, instance } => {
            assert_eq!((code.as_str(), detail.as_str(), instance.as_str()), ("not_found", "d", "i"));
        }
        other => panic!("another error: {other:?}"),
    }
}

#[test]
fn published_events_are_persisted_after_201_alone() {
    assert_eq!(done(publish_reply(success(201, ()))), IngestOutcome::Persisted);
    for status in [200, 202, 204] {
        assert_eq!(done(publish_reply(success(status, ()))), IngestOutcome::Accepted);
    }
    assert_eq!(transport_text(publish_reply::<()>(Err("x".to_string()))), "x");
}

#[test]
fn registration_gives_the_producer() {
    let sent = success(201, RegisterProducerResponseWire { id: 77 });
    assert_eq!(done(register_producer_reply(sent)), ProducerId(77));
    assert_eq!(transport_text(register_producer_reply(Err("x".to_string()))), "x");
}

#[test]
fn calls_without_a_result_are_done_after_success() {
    done(done_reply(success(204, ())));
    assert_eq!(
        transport_text(done_reply::<()>(refusal(ProblemReading::Unrecognized))),
        "broker returned 404 Not Found with an unrecognized body"
    );
}

#[test]
fn groups_are_read_from_their_bodies() {
    let g = done(consumer_group_reply(success(200, group_wire(&ConsumerGroupId(6).to_gts()))));
    assert_eq!(g.id, ConsumerGroupId(6));
    assert_eq!((g.tenant_id, g.owner_principal_id), (1, 2));
    assert_eq!(g.kind, ConsumerGroupKind::Named);
    assert_eq!(g.description.as_deref(), Some("d"));
    assert_eq!(g.created_at, NOW);
}

#[test]
fn named_groups_are_a_surprise() {
    let named = "gts.cf.core.events.consumer_group.v1~cf.core._.workers.v1";
    assert_eq!(
        transport_text(consumer_group_id_from_wire(named)),
        "broker returned a non-anonymous consumer group id; only anonymous groups are supported"
    );
    assert_eq!(transport_text(consumer_group_from_wire(group_wire(named))), NOT_ANONYMOUS);
}

#[test]
fn group_pages_keep_their_cursors_and_cap_their_limit() {
    let ids = [ConsumerGroupId(1).to_gts(), ConsumerGroupId(2).to_gts()];
    let mut body = page(ids.iter().map(|id| group_wire(id)).collect(), Some("n"));
    body.page_info.prev_cursor = Some("p".to_string());
    body.page_info.limit = u64::from(u32::MAX) + 1;
    let got = done(list_consumer_groups_reply(success(200, body)));
    let read: Vec<ConsumerGroupId> = got.items.iter().map(|g| g.id).collect();
    assert_eq!(read, vec![ConsumerGroupId(1), ConsumerGroupId(2)]);
    assert_eq!(got.next_cursor.as_deref(), Some("n"));
    assert_eq!(got.prev_cursor.as_deref(), Some("p"));
    assert_eq!(got.limit, u32::MAX);
    let got = done(list_consumer_groups_reply(success(200, page(vec![], None))));
    assert_eq!(got.limit, 50);
    assert!(got.items.is_empty() && got.next_cursor.is_none());
}

#[test]
fn one_group_that_cannot_be_read_spoils_its_page() {
    let body = page(vec![group_wire(&ConsumerGroupId(1).to_gts()), group_wire("x")], None);
    assert_eq!(transport_text(list_consumer_groups_reply(success(200, body))), NOT_ANONYMOUS);
}

#[test]
fn members_get_their_partitions() {
    let mut body = subscription_wire();
    body.assigned[0].topic = "not even valid".to_string();
    let a = done(join_reply(success(201, body)));
    assert_eq!(a.subscription_id, SubscriptionId(11));
    assert_eq!(a.topology_version, -7);
    assert_eq!(a.expires_at, NOW);
    let got: Vec<(&str, u32)> =
        a.assigned.iter().map(|p| (p.topic.as_str(), p.partition)).collect();
    assert_eq!(got, vec![("not even valid", 3), (TOPIC, 0)]);
}

#[test]
fn partitions_below_zero_become_zero() {
    assert_eq!(partition_from_wire(-1), 0);
    assert_eq!(partition_from_wire(i32::MIN), 0);
    assert_eq!(partition_from_wire(i32::MAX), 2_147_483_647);
}

#[test]
fn subscriptions_are_read_from_their_bodies() {
    let sent = success(200, subscription_wire());
    let s = done(get_subscription_reply(sent));
    assert_eq!(s.id, SubscriptionId(11));
    assert_eq!(s.consumer_group, ConsumerGroupId(12));
    assert_eq!(s.topology_version, -7);
    assert_eq!(s.expires_at, NOW);
    let got: Vec<(&str, u32)> =
        s.assigned.iter().map(|p| (p.topic.as_str(), p.partition)).collect();
    assert_eq!(got, vec![(TOPIC, 3), (TOPIC, 0)]);
}

#[test]
fn the_first_refusal_of_a_subscription_decides() {
    let mut body = subscription_wire();
    body.assigned[1].topic = "bad".to_string();
    body.consumer_group = "bad".to_string();
    let text = transport_text(subscription_from_wire(body));
    assert!(text.starts_with("subscription carried an invalid topic: "), "{text}");
    let mut body = subscription_wire();
    body.consumer_group = "bad".to_string();
    assert_eq!(transport_text(subscription_from_wire(body)), NOT_ANONYMOUS);
}

#[test]
fn agents_and_interests_of_subscriptions_are_not_read() {
    let plain = done(subscription_from_wire(subscription_wire()));
    let mut body = subscription_wire();
    body.client_agent = "another".to_string();
    body.interests = vec![];
    let other = done(subscription_from_wire(body));
    assert_eq!(plain.id, other.id);
    assert_eq!(plain.consumer_group, other.consumer_group);
    assert_eq!(plain.topology_version, other.topology_version);
    assert_eq!(plain.expires_at, other.expires_at);
    let partitions = |s: &Subscription| -> Vec<(String, u32)> {
        s.assigned.iter().map(|p| (p.topic.as_str().to_string(), p.partition)).collect()
    };
    assert_eq!(partitions(&plain), partitions(&other));
    let mut body = subscription_wire();
    body.interests[0].topic = String::new();
    body.interests[0].filter =
        Some(FilterSpecWire { engine: String::new(), expression: String::new() });
    assert!(subscription_from_wire(body).is_ok());
}

#[test]
fn lists_of_subscriptions_are_read_in_order() {
    let mut second = subscription_wire();
    second.id = 12;
    let all = done(subscriptions_from_wire(vec![subscription_wire(), second]));
    assert_eq!(all.iter().map(|s| s.id.0).collect::<Vec<_>>(), vec![11, 12]);
    let mut bad = subscription_wire();
    bad.consumer_group = "bad".to_string();
    let r = subscriptions_from_wire(vec![subscription_wire(), bad]);
    assert_eq!(transport_text(r), NOT_ANONYMOUS);
}

#[test]
fn depths_are_read_from_their_three_states() {
    for (wire, depth) in [
        (None, TenantTraversalDepth::UnlimitedDescendants),
        (Some(0), TenantTraversalDepth::CurrentTenant),
        (Some(-4), TenantTraversalDepth::CurrentTenant),
        (Some(1), TenantTraversalDepth::Descendants(1)),
        (Some(i32::MAX), TenantTraversalDepth::Descendants(2_147_483_647)),
    ] {
        let i = done(interest_from_wire(echo(wire, "respect"), &any_filter, &any_interest));
        assert_eq!(i.tenant_depth, depth);
    }
}

#[test]
fn barriers_are_respected_unless_ignored() {
    for (text, mode) in [
        ("ignore", BarrierMode::Ignore),
        ("respect", BarrierMode::Respect),
        ("Ignore", BarrierMode::Respect),
        ("", BarrierMode::Respect),
    ] {
        let i = done(interest_from_wire(echo(None, text), &any_filter, &any_interest));
        assert_eq!(i.barrier_mode, mode);
    }
}

#[test]
fn filters_go_through_the_rules_for_filters() {
    let with_filter = || {
        let mut w = echo(None, "ignore");
        w.filter =
            Some(FilterSpecWire { engine: "cel".to_string(), expression: "x".to_string() });
        w
    };
    let i = done(interest_from_wire(with_filter(), &any_filter, &any_interest));
    match &i.filter {
        Some(f) => assert_eq!((f.engine.as_str(), f.expression.as_str()), ("cel", "x")),
        None => panic!("the filter is gone"),
    }
    let refuse = |engine: String, _: String| -> Result<Filter, EventBrokerError> {
        Err(EventBrokerError::Transport(engine))
    };
    assert_eq!(transport_text(interest_from_wire(with_filter(), &refuse, &any_interest)), "cel");
    assert!(interest_from_wire(echo(None, "x"), &refuse, &any_interest).is_ok());
}

#[test]
fn interests_survive_their_echo() {
    for depth in [
        TenantTraversalDepth::CurrentTenant,
        TenantTraversalDepth::Descendants(1),
        TenantTraversalDepth::Descendants(2_147_483_647),
        TenantTraversalDepth::UnlimitedDescendants,
    ] {
        let sent = SubscriptionInterest {
            topic: TOPIC.to_string(),
            tenant_id: 8,
            tenant_depth: depth,
            barrier_mode: BarrierMode::Ignore,
            types: vec![TYPE.to_string()],
            filter: Some(Filter { engine: "cel".to_string(), expression: "a == b".to_string() }),
        };
        let w = interest_to_wire(&sent);
        let back = InterestResponseWire {
            topic: w.topic,
            tenant_id: w.tenant_id,
            max_depth: match w.max_depth {
                MaxDepthWire::Levels(n) => Some(n),
                MaxDepthWire::Unlimited => None,
            },
            barrier_mode: match w.barrier_mode {
                BarrierModeWire::Ignore => "ignore".to_string(),
                BarrierModeWire::Respect => "respect".to_string(),
            },
            types: w.types,
            filter: w.filter,
        };
        let got = done(interest_from_wire(back, &any_filter, &any_interest));
        assert_eq!(got.topic, sent.topic);
        assert_eq!(got.tenant_id, sent.tenant_id);
        assert_eq!(got.tenant_depth, sent.tenant_depth);
        assert_eq!(got.barrier_mode, sent.barrier_mode);
        assert_eq!(got.types, sent.types);
        let filter = got.filter.map(|f| (f.engine, f.expression));
        assert_eq!(filter, Some(("cel".to_string(), "a == b".to_string())));
    }
}

#[test]
fn assigned_topics_have_to_be_valid() {
    let w = AssignedPartitionWire { topic: TOPIC.to_string(), partition: 9 };
    let p = done(assignment_from_wire(w));
    assert_eq!((p.topic.as_str(), p.partition), (TOPIC, 9));
    assert_eq!(
        transport_text(assignment_of(Err("why".to_string()), 1)),
        "subscription carried an invalid topic: why"
    );
    let why = match GtsInstanceId::try_new("bad") {
        Err(why) => why,
        Ok(_) => panic!("taken"),
    };
    let w = AssignedPartitionWire { topic: "bad".to_string(), partition: 9 };
    assert_eq!(
        transport_text(assignment_from_wire(w)),
        format!("subscription carried an invalid topic: {why}")
    );
}

#[test]
fn event_types_are_read_from_their_bodies() {
    let t = done(event_type_from_wire(event_type_wire(TYPE)));
    assert_eq!(t.id.as_str(), TYPE);
    assert_eq!(t.topic.as_str(), TOPIC);
    assert!(t.description.is_none());
    assert_eq!(t.allowed_subject_types, vec!["s".to_string()]);
    assert_eq!(t.partition_key.as_deref(), Some("k"));
    assert_eq!(t.data_schema, Some(serde_json::Value::Bool(true)));
}

#[test]
fn event_types_with_invalid_ids_are_refused() {
    let why = match GtsTypeId::try_new("bad") {
        Err(why) => why,
        Ok(_) => panic!("taken"),
    };
    let mut w = event_type_wire("bad");
    w.topic = "bad".to_string();
    assert_eq!(
        transport_text(event_type_from_wire(w)),
        format!("event type carried an invalid id: {why}")
    );
    let mut w = event_type_wire(TYPE);
    w.topic = "bad".to_string();
    let text = transport_text(event_type_from_wire(w));
    assert!(text.starts_with("event type carried an invalid topic: "), "{text}");
    let r = event_type_of(
        event_type_wire("x"),
        GtsTypeId::try_new(TYPE),
        Err("why".to_string()),
    );
    assert_eq!(transport_text(r), "event type carried an invalid topic: why");
}

#[test]
fn lists_of_event_types_stop_at_the_first_refusal() {
    let all = done(event_types_from_wire(vec![event_type_wire(TYPE), event_type_wire(TYPE)]));
    assert_eq!(all.len(), 2);
    let mut bad = event_type_wire(TYPE);
    bad.topic = "bad".to_string();
    let text = transport_text(event_types_from_wire(vec![
        event_type_wire(TYPE),
        event_type_wire("bad"),
        bad,
    ]));
    assert!(text.starts_with("event type carried an invalid id: "), "{text}");
}

#[test]
fn one_event_type_is_selected_by_its_id() {
    let mut first = event_type_wire(TYPE);
    first.partition_key = Some("first".to_string());
    let mut second = event_type_wire(TYPE);
    second.partition_key = Some("second".to_string());
    let got = done(find_event_type(vec![event_type_wire("other"), first, second], TYPE));
    assert_eq!(got.partition_key.as_deref(), Some("first"));
}

#[test]
fn unknown_event_types_are_reported() {
    match find_event_type(vec![event_type_wire(TYPE)], "gone") {
        Err(EventBrokerError::EventTypeUnknown { type_id, detail, instance }) => {
            assert_eq!(type_id, "gone");
            assert_eq!(detail, "no such event type");
            assert_eq!(instance, "");
        }
        Err(e) => panic!("another error: {e:?}"),
        Ok(_) => panic!("found"),
    }
}

#[test]
fn topics_are_read_from_their_bodies() {
    let days = |text: String| if text == "P7D" { Some(7u32) } else { None };
    let t = done(topic_from_wire(topic_wire(TOPIC), &days));
    assert_eq!(t.id.as_str(), TOPIC);
    assert_eq!(t.description, "");
    assert_eq!(t.retention, Some(7));
    let mut w = topic_wire(TOPIC);
    w.description = Some("d".to_string());
    w.retention = Some("a week".to_string());
    let t = done(topic_from_wire(w, &days));
    assert_eq!(t.description, "d");
    assert_eq!(t.retention, None);
    let mut w = topic_wire(TOPIC);
    w.retention = None;
    assert_eq!(done(topic_from_wire(w, &days)).retention, None);
    let text = transport_text(topic_from_wire(topic_wire("bad"), &days));
    assert!(text.starts_with("topic carried an invalid id: "), "{text}");
    assert_eq!(done(topics_from_wire(vec![topic_wire(TOPIC)], &days)).len(), 1);
    assert!(topics_from_wire(vec![topic_wire(TOPIC), topic_wire("bad")], &days).is_err());
}

#[test]
fn segments_come_as_one_manifest() {
    let sent = success(
        200,
        TopicSegmentsResponseWire {
            topic: TOPIC.to_string(),
            partition: -2,
            start_sequence: 5,
            end_sequence: 9,
            start_time: Some(NOW),
            end_time: None,
            segments: vec!['a', 'b'],
        },
    );
    let m = done(list_topic_segments_reply(sent));
    assert_eq!((m.topic.as_str(), m.partition), (TOPIC, 0));
    assert_eq!((m.start_sequence, m.end_sequence), (Sequence(5), Sequence::assigned(9)));
    assert_eq!(m.end_sequence.as_i64(), 9);
    assert_eq!((m.start_time, m.end_time), (Some(NOW), None));
    assert_eq!(m.segments, vec!['a', 'b']);
}

fn more<T>(step: ListStep<T>) -> Listing<T> {
    match step {
        ListStep::More(listing) => listing,
        _ => panic!("no further page"),
    }
}

#[test]
fn lists_follow_their_cursors_to_the_end() {
    let b = match RestBroker::new("http://h".to_string(), Ok(())) {
        Ok(b) => b,
        Err(e) => panic!("{e:?}"),
    };
    let ctx: SecurityContext<String> =
        SecurityContext { subject_tenant_id: 0, subject_id: 0, bearer_token: None };
    let l: Listing<u8> = list_all("/p".to_string());
    assert_eq!(b.list_page(&ctx, &l).url, "http://h/p");
    let l = more(list_step(l, success(200, page(vec![1, 2], Some("c=1&")))));
    assert_eq!(b.list_page(&ctx, &l).url, "http://h/p?cursor=c=1&");
    let l = more(list_step(l, success(200, page(vec![], Some("c2")))));
    assert_eq!(b.list_page(&ctx, &l).url, "http://h/p?cursor=c2");
    match list_step(l, success(200, page(vec![3], None))) {
        ListStep::Done(items) => assert_eq!(items, vec![1, 2, 3]),
        _ => panic!("not done"),
    }
}

#[test]
fn lists_fail_with_any_of_their_pages() {
    let l: Listing<u8> = list_all("/p".to_string());
    let l = more(list_step(l, success(200, page(vec![1], Some("c")))));
    match list_step(l, Err("gone".to_string())) {
        ListStep::Failed(e) => assert_eq!(transport_text::<()>(Err(e)), "gone"),
        _ => panic!("not failed"),
    }
}

#[test]
fn joined_and_fetched_subscriptions_agree() {
    let joined = done(join_reply(success(201, subscription_wire())));
    let fetched = done(subscription_from_wire(subscription_wire()));
    assert_eq!(joined.subscription_id, fetched.id);
    assert_eq!(joined.topology_version, fetched.topology_version);
    assert_eq!(joined.expires_at, fetched.expires_at);
    let a: Vec<(&str, u32)> =
        joined.assigned.iter().map(|p| (p.topic.as_str(), p.partition)).collect();
    let b: Vec<(&str, u32)> =
        fetched.assigned.iter().map(|p| (p.topic.as_str(), p.partition)).collect();
    assert_eq!(a, b);
}

#[test]
fn selected_event_types_are_listed() {
    let all = done(event_types_from_wire(vec![event_type_wire(TYPE)]));
    let one = done(find_event_type(vec![event_type_wire(TYPE)], TYPE));
    assert_eq!(one.id.as_str(), all[0].id.as_str());
    assert_eq!(one.topic.as_str(), all[0].topic.as_str());
    assert_eq!(one.data_schema, all[0].data_schema);
}

#[test]
fn resolved_positions_keep_the_brokers_order() {
    let twice = |n: i64| 2 * n;
    assert_eq!(done(seek_reply(success(200, vec![3i64, 1, 2]), &twice)), vec![6, 2, 4]);
    assert!(done(seek_reply(success(200, Vec::<i64>::new()), &twice)).is_empty());
    assert_eq!(transport_text(seek_reply(Err("x".to_string()), &twice)), "x");
    assert_eq!(
        transport_text(seek_reply(refusal(ProblemReading::NotCanonical), &twice)),
        "broker returned 404 Not Found with a problem body"
    );
}

#[test]
fn cursors_are_read_from_their_body() {
    let text = |n: u8| n.to_string();
    assert_eq!(done(get_producer_cursors_reply(success(200, 7u8), &text)), "7");
    assert_eq!(transport_text(get_producer_cursors_reply(Err("x".to_string()), &text)), "x");
}
