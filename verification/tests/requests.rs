//! The requests that are sent, and where to.
use event_broker_sdk::api::{
    BarrierMode, Filter, JoinRequest, Position, ProducerMode, SeekPosition, SessionTimeout,
    SubscriptionInterest, TenantTraversalDepth,
};
use event_broker_sdk::client::{RestBroker, StreamTransport, V1};
use event_broker_sdk::error::{to_transport, EventBrokerError};
use event_broker_sdk::exchange::{bare_request, Method, OutgoingRequest, SecurityContext};
use event_broker_sdk::ids::{
    ConsumerGroupId, GtsInstanceId, GtsTypeId, ProducerId, SubscriptionId, CONSUMER_GROUP_TYPE,
};
use event_broker_sdk::models::{ConsumerGroupQuery, Event, PartitionRange, Sequence, Timestamp};
use event_broker_sdk::query::{consumer_group_params, query_string, segment_params, with_query};
use event_broker_sdk::text::{
    after_prefix, decimal_text, joined, signed_decimal_text, trim_trailing_slashes,
};
use event_broker_sdk::wire::{BarrierModeWire, MaxDepthWire, ProducerModeWire};
use secrecy::{ExposeSecret, SecretString};

const ID: u128 = 0x0123_4567_89ab_cdef_0123_4567_89ab_cdef;
const ID_TEXT: &str = "01234567-89ab-cdef-0123-456789abcdef";

fn broker(base: &str) -> RestBroker<u8> {
    match RestBroker::new(base.to_string(), Ok(7u8)) {
        Ok(broker) => broker,
        Err(e) => panic!("no client: {e:?}"),
    }
}

fn ctx(token: Option<&str>) -> SecurityContext<SecretString> {
    SecurityContext {
        subject_tenant_id: 1,
        subject_id: 2,
        bearer_token: token.map(SecretString::from),
    }
}

fn anonymous() -> SecurityContext<SecretString> {
    ctx(None)
}

fn event() -> Event {
    Event {
        id: ID,
        type_id: "t~".to_string(),
        tenant_id: 1,
        source: "s".to_string(),
        subject: "x".to_string(),
        subject_type: "y".to_string(),
        occurred_at: Timestamp { seconds: 0, nanos: 0 },
        trace_parent: None,
        data: None,
        partition: None,
        sequence: None,
        sequence_time: None,
        meta: None,
    }
}

fn open_query() -> ConsumerGroupQuery {
    ConsumerGroupQuery { limit: None, cursor: None, filter: None, orderby: None }
}

#[test]
fn client_starts_with_multipart_and_keeps_what_it_is_given() {
    let b = broker("https://host:8080");
    assert_eq!(*b.http(), 7);
    assert_eq!(b.framing(), StreamTransport::Multipart);
    assert_eq!(StreamTransport::default(), StreamTransport::Multipart);
    let b = b.with_stream_transport(StreamTransport::Sse);
    assert_eq!(b.framing(), StreamTransport::Sse);
    assert_eq!(*b.http(), 7);
    assert_eq!(b.url("/x"), "https://host:8080/x");
}

#[test]
fn client_that_cannot_be_made_is_a_transport_error() {
    let made: Result<RestBroker<u8>, _> =
        RestBroker::new("http://h".to_string(), Err("no tls".to_string()));
    assert!(matches!(made, Err(EventBrokerError::Transport(text)) if text == "no tls"));
    assert!(matches!(to_transport("x".to_string()), EventBrokerError::Transport(t) if t == "x"));
}

#[test]
fn framings_have_their_media_types_and_endpoints() {
    assert_eq!(StreamTransport::Multipart.media_type(), "multipart/mixed");
    assert_eq!(StreamTransport::Multipart.endpoint(), "/events:stream");
    assert_eq!(StreamTransport::Sse.media_type(), "text/event-stream");
    assert_eq!(StreamTransport::Sse.endpoint(), "/events:sse");
}

#[test]
fn trailing_slashes_of_the_base_do_not_matter() {
    for base in ["http://h", "http://h/", "http://h///"] {
        assert_eq!(broker(base).url("/event-broker/v1/events"), "http://h/event-broker/v1/events");
    }
    assert_eq!(broker("///").url("/x"), "/x");
    assert_eq!(broker("").url("/x"), "/x");
    assert_eq!(trim_trailing_slashes("a/b//"), "a/b");
    assert_eq!(trim_trailing_slashes("é/"), "é");
}

#[test]
fn credential_is_attached_only_where_there_is_one() {
    let b = broker("http://h");
    let with = ctx(Some("SECRET-REDACTED"));
    let r = b.get_subscription(&with, SubscriptionId(ID));
    assert_eq!(r.bearer.map(|t| t.expose_secret()), Some("SECRET-REDACTED"));
    let without = anonymous();
    let r = b.get_subscription(&without, SubscriptionId(ID));
    assert!(r.bearer.is_none());
    let bare: OutgoingRequest<SecretString, u8> =
        bare_request(Method::Post, "u".to_string(), 5u8);
    assert!(bare.bearer.is_none() && bare.headers.is_empty());
    let r = b.authed(bare, &without);
    assert!(r.bearer.is_none());
    assert_eq!((r.method, r.url.as_str(), r.body), (Method::Post, "u", 5));
}

#[test]
fn numbers_are_written_in_decimal() {
    assert_eq!(decimal_text(0), "0");
    assert_eq!(decimal_text(10), "10");
    assert_eq!(decimal_text(u64::MAX), "18446744073709551615");
    assert_eq!(signed_decimal_text(-1), "-1");
    assert_eq!(signed_decimal_text(i64::MIN), "-9223372036854775808");
    assert_eq!(signed_decimal_text(i64::MAX), "9223372036854775807");
    for n in [0u64, 9, 10, 99, 12345, 9_999_999_999] {
        assert_eq!(decimal_text(n).parse::<u64>(), Ok(n));
    }
}

#[test]
fn prefixes_are_taken_off_whole() {
    assert_eq!(after_prefix("abc", "ab"), Some("c".to_string()));
    assert_eq!(after_prefix("ab", "ab"), Some(String::new()));
    assert_eq!(after_prefix("a", "ab"), None);
    assert_eq!(after_prefix("xbc", "ab"), None);
    assert_eq!(joined("a", "", "c"), "ac");
}

#[test]
fn group_ids_are_read_back_as_they_are_written() {
    let id = ConsumerGroupId(ID);
    let gts = id.to_gts();
    assert_eq!(gts, format!("gts.cf.core.events.consumer_group.v1~{ID_TEXT}"));
    assert_eq!(ConsumerGroupId::try_from_gts(&gts), Some(id));
    assert_eq!(ConsumerGroupId::try_from_gts(&ConsumerGroupId(0).to_gts()), Some(ConsumerGroupId(0)));
    let shouted = format!("{CONSUMER_GROUP_TYPE}{}", ID_TEXT.to_uppercase());
    assert_eq!(ConsumerGroupId::try_from_gts(&shouted), Some(id));
    for spelling in [
        ID_TEXT.replace('-', ""),
        format!("{{{ID_TEXT}}}"),
        format!("urn:uuid:{ID_TEXT}"),
        format!("URN:uuid:{}", ID_TEXT.to_uppercase()),
    ] {
        let gts = format!("{CONSUMER_GROUP_TYPE}{spelling}");
        assert_eq!(ConsumerGroupId::try_from_gts(&gts), Some(id), "{gts}");
    }
    for tail in [
        "0123456789abcdef0123456789abcde",
        "0123456789abcdef0123456789abcdeg",
        "01234567-89ab-cdef-0123-456789abcd.f",
        "0123456-789ab-cdef-0123-456789abcdef",
        "(01234567-89ab-cdef-0123-456789abcdef)",
        "urn-uuid:01234567-89ab-cdef-0123-456789abcdef",
        " 01234567-89ab-cdef-0123-456789abcdef",
    ] {
        let gts = format!("{CONSUMER_GROUP_TYPE}{tail}");
        assert_eq!(ConsumerGroupId::try_from_gts(&gts), None, "{gts}");
    }
    assert_eq!(ConsumerGroupId::try_from_gts(ID_TEXT), None);
    assert_eq!(
        ConsumerGroupId::try_from_gts(&format!("{CONSUMER_GROUP_TYPE}cf.core._.named.v1")),
        None
    );
    assert_eq!(ConsumerGroupId::try_from_gts(CONSUMER_GROUP_TYPE), None);
}

#[test]
fn gts_ids_are_held_only_where_they_are_valid() {
    let topic = "gts.cf.core.events.topic.v1~cf.core._.orders.v1";
    assert_eq!(GtsInstanceId::try_new(topic).map(|t| t.as_str().to_string()), Ok(topic.to_string()));
    assert!(GtsInstanceId::try_new("nonsense").is_err());
    assert!(GtsInstanceId::try_new("").is_err());
    let ty = "gts.cf.core.events.event.v1~";
    assert_eq!(GtsTypeId::try_new(ty).map(|t| t.as_str().to_string()), Ok(ty.to_string()));
    assert!(GtsTypeId::try_new("nonsense").is_err());
    assert!(GtsTypeId::try_new(topic).is_err());
    assert!(GtsInstanceId::try_new(ty).is_err());
}

#[test]
fn producers_are_registered_with_their_mode() {
    let b = broker("http://h/");
    let c = anonymous();
    for (mode, wire) in [
        (ProducerMode::Chained, ProducerModeWire::Chained),
        (ProducerMode::Monotonic, ProducerModeWire::Monotonic),
    ] {
        match b.register_producer(&c, mode, "agent") {
            Ok(r) => {
                assert_eq!(r.method, Method::Post);
                assert_eq!(r.url, "http://h/event-broker/v1/producers");
                assert_eq!(r.body.mode, wire);
                assert_eq!(r.body.client_agent, "agent");
            }
            Err(e) => panic!("refused: {e:?}"),
        }
    }
}

#[test]
fn stateless_producers_are_not_registered() {
    let c = anonymous();
    match broker("http://h").register_producer(&c, ProducerMode::Stateless, "agent") {
        Err(EventBrokerError::InvalidProducerOptions { detail, instance }) => {
            assert_eq!(detail, "a stateless producer is not registered");
            assert_eq!(instance, "");
        }
        Err(e) => panic!("another error: {e:?}"),
        Ok(_) => panic!("a stateless producer was registered"),
    }
}

#[test]
fn events_are_published_one_by_one_or_in_batches() {
    let b = broker("http://h");
    let c = anonymous();
    let e = event();
    let r = b.publish(&c, &e);
    assert_eq!((r.method, r.url.as_str()), (Method::Post, "http://h/event-broker/v1/events"));
    assert!(r.headers.is_empty());
    assert_eq!(r.body.id, ID);
    let r = b.publish_sync(&c, &e);
    assert_eq!((r.method, r.url.as_str()), (Method::Post, "http://h/event-broker/v1/events"));
    assert_eq!(r.headers, vec![("Sync-Wait".to_string(), "true".to_string())]);
    let all = [event(), event()];
    let r = b.publish_batch(&c, &all);
    assert_eq!((r.method, r.url.as_str()), (Method::Post, "http://h/event-broker/v1/events:batch"));
    assert_eq!(r.body.len(), 2);
}

#[test]
fn producers_are_addressed_by_their_uuid() {
    let b = broker("http://h");
    let c = anonymous();
    let r = b.get_producer_cursors(&c, ProducerId(ID));
    assert_eq!(r.method, Method::Get);
    assert_eq!(r.url, format!("http://h/event-broker/v1/producers/{ID_TEXT}/cursors"));
    let r = b.reset_producer_chain(&c, ProducerId(ID), "everything");
    assert_eq!(r.method, Method::Post);
    assert_eq!(r.url, format!("http://h/event-broker/v1/producers/{ID_TEXT}:reset"));
    assert_eq!(r.body, "everything");
}

#[test]
fn groups_are_addressed_by_their_gts_id() {
    let b = broker("http://h");
    let c = anonymous();
    let id = ConsumerGroupId(ID);
    let at = format!(
        "http://h/event-broker/v1/consumer-groups/gts.cf.core.events.consumer_group.v1~{ID_TEXT}"
    );
    let r = b.get_consumer_group(&c, &id);
    assert_eq!((r.method, r.url), (Method::Get, at.clone()));
    let r = b.delete_consumer_group(&c, &id);
    assert_eq!((r.method, r.url), (Method::Delete, at));
    let r = b.create_consumer_group(&c, 3u8);
    assert_eq!((r.method, r.body), (Method::Post, 3));
    assert_eq!(r.url, "http://h/event-broker/v1/consumer-groups");
}

#[test]
fn open_group_queries_ask_the_bare_path() {
    let b = broker("http://h");
    let c = anonymous();
    let r = b.list_consumer_groups(&c, open_query());
    assert_eq!(r.url, "http://h/event-broker/v1/consumer-groups");
    assert!(consumer_group_params(open_query()).is_empty());
    assert_eq!(query_string(&vec![]), "");
    assert_eq!(with_query("/p".to_string(), ""), "/p");
    assert_eq!(with_query("/p".to_string(), "a=b"), "/p?a=b");
}

#[test]
fn group_queries_are_written_as_forms_in_order() {
    let b = broker("http://h");
    let c = anonymous();
    let r = b.list_consumer_groups(
        &c,
        ConsumerGroupQuery {
            limit: Some(25),
            cursor: Some("a b/ü*-._~".to_string()),
            filter: Some("kind eq 'named'".to_string()),
            orderby: Some("created_at desc".to_string()),
        },
    );
    assert_eq!(r.method, Method::Get);
    assert_eq!(
        r.url,
        "http://h/event-broker/v1/consumer-groups?limit=25&cursor=a+b%2F%C3%BC*-._%7E\
         &%24filter=kind+eq+%27named%27&%24orderby=created_at+desc"
    );
    let r = b.list_consumer_groups(
        &c,
        ConsumerGroupQuery { cursor: Some(String::new()), ..open_query() },
    );
    assert_eq!(r.url, "http://h/event-broker/v1/consumer-groups?cursor=");
}

#[test]
fn joining_asks_for_every_interest() {
    let b = broker("http://h");
    let c = anonymous();
    let interest = |depth, barrier_mode, filter| SubscriptionInterest {
        topic: "topic".to_string(),
        tenant_id: 9,
        tenant_depth: depth,
        barrier_mode,
        types: vec!["a~".to_string(), "b~".to_string()],
        filter,
    };
    let r = b.join(
        &c,
        JoinRequest {
            group: ConsumerGroupId(ID),
            client_agent: "agent".to_string(),
            interests: vec![
                interest(TenantTraversalDepth::CurrentTenant, BarrierMode::Respect, None),
                interest(
                    TenantTraversalDepth::descendants(3),
                    BarrierMode::Ignore,
                    Some(Filter { engine: "cel".to_string(), expression: "true".to_string() }),
                ),
                interest(TenantTraversalDepth::UnlimitedDescendants, BarrierMode::Respect, None),
                interest(TenantTraversalDepth::Descendants(u32::MAX), BarrierMode::Respect, None),
            ],
            session_timeout: Some(SessionTimeout { secs: 90, nanos: 999_999_999 }),
        },
    );
    assert_eq!((r.method, r.url.as_str()), (Method::Post, "http://h/event-broker/v1/subscriptions"));
    assert_eq!(r.body.consumer_group, ConsumerGroupId(ID).to_gts());
    assert_eq!(r.body.client_agent, "agent");
    assert_eq!(r.body.session_timeout, Some("PT90S".to_string()));
    let depths: Vec<MaxDepthWire> = r.body.interests.iter().map(|i| i.max_depth).collect();
    assert_eq!(
        depths,
        vec![
            MaxDepthWire::Levels(0),
            MaxDepthWire::Levels(3),
            MaxDepthWire::Unlimited,
            MaxDepthWire::Levels(i32::MAX),
        ]
    );
    let second = &r.body.interests[1];
    assert_eq!(second.barrier_mode, BarrierModeWire::Ignore);
    assert_eq!(r.body.interests[0].barrier_mode, BarrierModeWire::Respect);
    assert_eq!((second.topic.as_str(), second.tenant_id), ("topic", 9));
    assert_eq!(second.types, vec!["a~".to_string(), "b~".to_string()]);
    match &second.filter {
        Some(f) => assert_eq!((f.engine.as_str(), f.expression.as_str()), ("cel", "true")),
        None => panic!("the filter is gone"),
    }
    assert!(r.body.interests[0].filter.is_none());
}

#[test]
fn joining_without_a_timeout_leaves_it_out() {
    let c = anonymous();
    let r = broker("http://h").join(
        &c,
        JoinRequest {
            group: ConsumerGroupId(1),
            client_agent: String::new(),
            interests: vec![],
            session_timeout: None,
        },
    );
    assert!(r.body.session_timeout.is_none());
    assert!(r.body.interests.is_empty());
}

#[test]
fn subscriptions_are_addressed_by_their_uuid() {
    let b = broker("http://h");
    let c = anonymous();
    let at = format!("http://h/event-broker/v1/subscriptions/{ID_TEXT}");
    let r = b.get_subscription(&c, SubscriptionId(ID));
    assert_eq!((r.method, r.url), (Method::Get, at.clone()));
    let r = b.leave(&c, SubscriptionId(ID));
    assert_eq!((r.method, r.url), (Method::Delete, at.clone()));
    let positions = [SeekPosition {
        topic: "t".to_string(),
        partition: 2,
        value: Position::Offset(5),
    }];
    let r = b.seek(&c, SubscriptionId(ID), &positions);
    assert_eq!((r.method, r.url), (Method::Post, format!("{at}:seek")));
    assert_eq!(r.body[0].value, Position::Offset(5));
}

#[test]
fn segments_are_asked_for_by_topic_partition_and_range() {
    let b = broker("http://h");
    let c = anonymous();
    let r = b.list_topic_segments(
        &c,
        "gts.a~b",
        4,
        PartitionRange {
            start_offset: Some(Sequence::assigned(-1)),
            end_offset: Some(Sequence(70)),
            limit: 100,
        },
    );
    assert_eq!(r.method, Method::Get);
    assert_eq!(
        r.url,
        "http://h/event-broker/v1/topics/segments?topic=gts.a%7Eb&partition=4\
         &start_offset=-1&end_offset=70&limit=100"
    );
    let open = PartitionRange { start_offset: None, end_offset: None, limit: 0 };
    let r = b.list_topic_segments(&c, "", 0, open);
    assert_eq!(r.url, "http://h/event-broker/v1/topics/segments?topic=&partition=0&limit=0");
    assert_eq!(segment_params("t", 1, open).len(), 3);
}

#[test]
fn lists_start_at_their_paths() {
    let b = broker("http://h");
    let c = anonymous();
    assert_eq!(V1, "/event-broker/v1");
    let l = b.list_subscriptions();
    assert_eq!(b.list_page(&c, &l).url, "http://h/event-broker/v1/subscriptions");
    let l = b.list_topics();
    assert_eq!(b.list_page(&c, &l).url, "http://h/event-broker/v1/topics");
    let l = b.list_event_types();
    let r = b.list_page(&c, &l);
    assert_eq!((r.method, r.url.as_str()), (Method::Get, "http://h/event-broker/v1/event-types"));
}

#[test]
fn streams_are_opened_with_the_framing_of_the_client() {
    let c = ctx(Some("SECRET-REDACTED"));
    let r = broker("http://h/");
    let r = r.stream(&c, SubscriptionId(ID));
    assert_eq!(r.method, Method::Get);
    assert_eq!(
        r.url,
        format!("http://h/event-broker/v1/events:stream?subscription_id={ID_TEXT}")
    );
    assert_eq!(r.headers, vec![("accept".to_string(), "multipart/mixed".to_string())]);
    assert_eq!(r.bearer.map(|t| t.expose_secret()), Some("SECRET-REDACTED"));
    let b = broker("http://h").with_stream_transport(StreamTransport::Sse);
    let r = b.stream(&c, SubscriptionId(ID));
    assert_eq!(r.url, format!("http://h/event-broker/v1/events:sse?subscription_id={ID_TEXT}"));
    assert_eq!(r.headers, vec![("accept".to_string(), "text/event-stream".to_string())]);
}
