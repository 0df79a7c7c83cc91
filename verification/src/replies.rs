//! What callers get from the broker's replies.
use vstd::prelude::*;
use vstd::string::*;

use crate::api::{AssignedPartition, IngestOutcome, SubscriptionAssignment};
use crate::convert::{
    collect_all, consumer_group_from_wire, event_type_from_wire, partition_from_wire,
    subscription_from_wire, topic_from_wire,
};
use crate::error::EventBrokerError;
use crate::exchange::{send_json, send_status, Sent};
use crate::ids::{ProducerId, SubscriptionId};
use crate::models::{ConsumerGroup, EventType, Page, Sequence, Subscription, Topic, TopicSegment};
use crate::wire::{
    AssignedPartitionWire, ConsumerGroupWire, EventTypeWire, PageWire,
    RegisterProducerResponseWire, SubscriptionWire, TopicSegmentsResponseWire, TopicWire,
};

verus! {

/// The id of the producer that was registered.
pub fn register_producer_reply(sent: Sent<RegisterProducerResponseWire>) -> (r: Result<
    ProducerId,
    EventBrokerError,
>)
    requires
        crate::exchange::sent_wf(sent),
    ensures
        match crate::exchange::payload_of(sent) {
            Some(body) => r == Ok::<_, EventBrokerError>(ProducerId(body.id)),
            None => r is Err && crate::exchange::payload_missing(sent, r->Err_0),
        },
{
    match send_json(sent) {
        Ok(body) => Ok(ProducerId(body.id)),
        Err(e) => Err(e),
    }
}

/// What a success says of published events: 201 that they are stored, any other that they are
/// taken.
pub open spec fn ingested(status: u16) -> IngestOutcome {
    if status == 201 {
        IngestOutcome::Persisted
    } else {
        IngestOutcome::Accepted
    }
}

/// What became of published events: of one, or of a whole batch.
pub fn publish_reply<T>(sent: Sent<T>) -> (r: Result<IngestOutcome, EventBrokerError>)
    requires
        crate::exchange::sent_wf(sent),
    ensures
        match crate::exchange::success_of(sent) {
            Some(status) => r == Ok::<_, EventBrokerError>(ingested(status)),
            None => r is Err && crate::exchange::success_missing(sent, r->Err_0),
        },
{
    match send_status(sent) {
        Ok(status) => Ok(
            if status == 201 {
                IngestOutcome::Persisted
            } else {
                IngestOutcome::Accepted
            },
        ),
        Err(e) => Err(e),
    }
}

/// No reply tells a caller that its events had been published before.
pub proof fn law_duplicates_are_not_told(status: u16)
    ensures
        ingested(status) != IngestOutcome::Duplicate,
{
}

/// Whether a call that gives nothing back was carried out.
pub fn done_reply<T>(sent: Sent<T>) -> (r: Result<(), EventBrokerError>)
    requires
        crate::exchange::sent_wf(sent),
    ensures
        match crate::exchange::success_of(sent) {
            Some(_) => r == Ok::<(), EventBrokerError>(()),
            None => r is Err && crate::exchange::success_missing(sent, r->Err_0),
        },
{
    match send_status(sent) {
        Ok(_) => Ok(()),
        Err(e) => Err(e),
    }
}

/// The consumer group that was created or asked for.
pub fn consumer_group_reply(sent: Sent<ConsumerGroupWire>) -> (r: Result<
    ConsumerGroup,
    EventBrokerError,
>)
    requires
        crate::exchange::sent_wf(sent),
    ensures
        match crate::exchange::payload_of(sent) {
            Some(body) => crate::convert::group_reading(body, r),
            None => r is Err && crate::exchange::payload_missing(sent, r->Err_0),
        },
{
    match send_json(sent) {
        Ok(body) => consumer_group_from_wire(body),
        Err(e) => Err(e),
    }
}

/// A page's limit, at most the largest that callers can be told.
pub open spec fn limit_read(limit: u64) -> u32 {
    if limit <= u32::MAX {
        limit as u32
    } else {
        u32::MAX
    }
}

/// `r` is what comes of a page of groups: the page, unless one of its groups is refused.
pub open spec fn group_page_reading(
    w: PageWire<ConsumerGroupWire>,
    r: Result<Page<ConsumerGroup>, EventBrokerError>,
) -> bool {
    let grouped = |g: ConsumerGroupWire, o: Result<ConsumerGroup, EventBrokerError>|
        crate::convert::group_reading(g, o);
    match r {
        Ok(page) => {
            &&& crate::convert::collected(w.items@, grouped, Ok(page.items@))
            &&& page.next_cursor == w.page_info.next_cursor
            &&& page.prev_cursor == w.page_info.prev_cursor
            &&& page.limit == limit_read(w.page_info.limit)
        },
        Err(e) => crate::convert::collected(w.items@, grouped, Err(e)),
    }
}

/// Builds a page of consumer groups from its body.
pub fn consumer_group_page_from_wire(w: PageWire<ConsumerGroupWire>) -> (r: Result<
    Page<ConsumerGroup>,
    EventBrokerError,
>)
    ensures
        group_page_reading(w, r),
        r is Ok ==> r->Ok_0.next_cursor == w.page_info.next_cursor,
        r is Ok ==> r->Ok_0.prev_cursor == w.page_info.prev_cursor,
{
    let ghost grouped = |g: ConsumerGroupWire, o: Result<ConsumerGroup, EventBrokerError>|
        crate::convert::group_reading(g, o);
    let read = |g: ConsumerGroupWire| -> (o: Result<ConsumerGroup, EventBrokerError>)
        ensures
            crate::convert::group_reading(g, o),
        { consumer_group_from_wire(g) };
    let items = collect_all(w.items, &read, Ghost(grouped));
    match items {
        Ok(items) => Ok(
            Page {
                items,
                next_cursor: w.page_info.next_cursor,
                prev_cursor: w.page_info.prev_cursor,
                limit: if w.page_info.limit <= u32::MAX as u64 {
                    w.page_info.limit as u32
                } else {
                    u32::MAX
                },
            },
        ),
        Err(e) => Err(e),
    }
}

/// The page of consumer groups that was asked for.
pub fn list_consumer_groups_reply(sent: Sent<PageWire<ConsumerGroupWire>>) -> (r: Result<
    Page<ConsumerGroup>,
    EventBrokerError,
>)
    requires
        crate::exchange::sent_wf(sent),
    ensures
        match crate::exchange::payload_of(sent) {
            Some(body) => group_page_reading(body, r),
            None => r is Err && crate::exchange::payload_missing(sent, r->Err_0),
        },
{
    match send_json(sent) {
        Ok(body) => consumer_group_page_from_wire(body),
        Err(e) => Err(e),
    }
}

/// `a` is what `w` gives a member that joins: its topics are taken as they come.
pub open spec fn assignment_of(w: SubscriptionWire, a: SubscriptionAssignment) -> bool {
    &&& a.subscription_id == SubscriptionId(w.id)
    &&& a.topology_version == w.topology_version
    &&& a.expires_at == w.expires_at
    &&& a.assigned@ == w.assigned@.map_values(
        |p: AssignedPartitionWire|
            AssignedPartition {
                topic: p.topic,
                partition: crate::convert::partition_read(p.partition),
            },
    )
}

/// What a member gets from the subscription that it joined with.
pub fn subscription_assignment_from_wire(w: SubscriptionWire) -> (r: SubscriptionAssignment)
    ensures
        assignment_of(w, r),
{
    let ghost body = w;
    let mut assigned: Vec<AssignedPartition> = Vec::new();
    for p in it: w.assigned.into_iter()
        invariant
            it.seq() == body.assigned@,
            assigned@.len() == it.index(),
            forall|i: int|
                0 <= i < assigned@.len() ==> #[trigger] assigned@[i] == (AssignedPartition {
                    topic: body.assigned@[i].topic,
                    partition: crate::convert::partition_read(body.assigned@[i].partition),
                }),
    {
        assigned.push(
            AssignedPartition { topic: p.topic, partition: partition_from_wire(p.partition) },
        );
    }
    assert(assigned@ =~= body.assigned@.map_values(
        |p: AssignedPartitionWire|
            AssignedPartition {
                topic: p.topic,
                partition: crate::convert::partition_read(p.partition),
            },
    ));
    SubscriptionAssignment {
        subscription_id: SubscriptionId(w.id),
        topology_version: w.topology_version,
        expires_at: w.expires_at,
        assigned,
    }
}

/// What a member got when it joined.
pub fn join_reply(sent: Sent<SubscriptionWire>) -> (r: Result<
    SubscriptionAssignment,
    EventBrokerError,
>)
    requires
        crate::exchange::sent_wf(sent),
    ensures
        match crate::exchange::payload_of(sent) {
            Some(body) => r is Ok && assignment_of(body, r->Ok_0),
            None => r is Err && crate::exchange::payload_missing(sent, r->Err_0),
        },
{
    match send_json(sent) {
        Ok(body) => Ok(subscription_assignment_from_wire(body)),
        Err(e) => Err(e),
    }
}

/// The subscription that was asked for.
pub fn get_subscription_reply(sent: Sent<SubscriptionWire>) -> (r: Result<
    Subscription,
    EventBrokerError,
>)
    requires
        crate::exchange::sent_wf(sent),
    ensures
        match crate::exchange::payload_of(sent) {
            Some(body) => crate::convert::subscription_reading(body, r),
            None => r is Err && crate::exchange::payload_missing(sent, r->Err_0),
        },
{
    match send_json(sent) {
        Ok(body) => subscription_from_wire(body),
        Err(e) => Err(e),
    }
}

/// A member that fetches its subscription finds what it got when it joined: where the same body
/// is read both ways, the ids, versions, expiries and partitions agree.
pub proof fn law_joined_and_fetched_agree(
    w: SubscriptionWire,
    joined: SubscriptionAssignment,
    fetched: Subscription,
)
    requires
        assignment_of(w, joined),
        crate::convert::subscription_reading(w, Ok(fetched)),
    ensures
        fetched.id == joined.subscription_id,
        fetched.topology_version == joined.topology_version,
        fetched.expires_at == joined.expires_at,
        fetched.assigned@.len() == joined.assigned@.len(),
        forall|i: int|
            0 <= i < joined.assigned@.len() ==> {
                &&& (#[trigger] fetched.assigned@[i]).topic@ == joined.assigned@[i].topic@
                &&& fetched.assigned@[i].partition == joined.assigned@[i].partition
            },
{
    assert forall|i: int| 0 <= i < joined.assigned@.len() implies {
        &&& (#[trigger] fetched.assigned@[i]).topic@ == joined.assigned@[i].topic@
        &&& fetched.assigned@[i].partition == joined.assigned@[i].partition
    } by {
        assert(crate::convert::assignment_reading(w.assigned@[i], Ok(fetched.assigned@[i])));
    }
}

/// Builds a list of subscriptions from their bodies.
pub fn subscriptions_from_wire(wires: Vec<SubscriptionWire>) -> (r: Result<
    Vec<Subscription>,
    EventBrokerError,
>)
    ensures
        crate::convert::collected(
            wires@,
            |w: SubscriptionWire, o: Result<Subscription, EventBrokerError>|
                crate::convert::subscription_reading(w, o),
            crate::convert::listed(r),
        ),
{
    let ghost rel = |w: SubscriptionWire, o: Result<Subscription, EventBrokerError>|
        crate::convert::subscription_reading(w, o);
    let read = |w: SubscriptionWire| -> (o: Result<Subscription, EventBrokerError>)
        ensures
            crate::convert::subscription_reading(w, o),
        { subscription_from_wire(w) };
    collect_all(wires, &read, Ghost(rel))
}

/// Where a seek led: what the broker resolved, one for one and in its order. `read` makes the
/// caller's type of one resolved position.
pub fn seek_reply<R, V, F>(sent: Sent<Vec<R>>, read: &F) -> (r: Result<
    Vec<V>,
    EventBrokerError,
>) where F: Fn(R) -> V
    requires
        crate::exchange::sent_wf(sent),
        forall|x: R| call_requires(read, (x,)),
    ensures
        match crate::exchange::payload_of(sent) {
            Some(body) => {
                &&& r is Ok
                &&& r->Ok_0@.len() == body@.len()
                &&& forall|i: int|
                    0 <= i < body@.len() ==> call_ensures(
                        *read,
                        (body@[i],),
                        #[trigger] r->Ok_0@[i],
                    )
            },
            None => r is Err && crate::exchange::payload_missing(sent, r->Err_0),
        },
{
    let body = match send_json(sent) {
        Ok(body) => body,
        Err(e) => {
            return Err(e);
        },
    };
    let ghost all = body@;
    let mut results: Vec<V> = Vec::new();
    for x in it: body.into_iter()
        invariant
            it.seq() == all,
            forall|x: R| call_requires(read, (x,)),
            results@.len() == it.index(),
            forall|i: int|
                0 <= i < results@.len() ==> call_ensures(
                    *read,
                    (all[i],),
                    #[trigger] results@[i],
                ),
    {
        results.push(read(x));
    }
    Ok(results)
}

/// Where a producer's chains stand. `read` makes the caller's type of the cursors that came.
pub fn get_producer_cursors_reply<R, V, F>(sent: Sent<R>, read: &F) -> (r: Result<
    V,
    EventBrokerError,
>) where F: Fn(R) -> V
    requires
        crate::exchange::sent_wf(sent),
        forall|x: R| call_requires(read, (x,)),
    ensures
        match crate::exchange::payload_of(sent) {
            Some(body) => r is Ok && call_ensures(*read, (body,), r->Ok_0),
            None => r is Err && crate::exchange::payload_missing(sent, r->Err_0),
        },
{
    match send_json(sent) {
        Ok(body) => Ok(read(body)),
        Err(e) => Err(e),
    }
}

/// Builds a list of topics from their bodies.
pub fn topics_from_wire<D, P>(wires: Vec<TopicWire>, duration: &P) -> (r: Result<
    Vec<Topic<D>>,
    EventBrokerError,
>) where P: Fn(String) -> Option<D>
    requires
        forall|text: String| call_requires(duration, (text,)),
    ensures
        crate::convert::collected(
            wires@,
            |w: TopicWire, o: Result<Topic<D>, EventBrokerError>|
                crate::convert::topic_reading(w, *duration, o),
            crate::convert::listed(r),
        ),
{
    let ghost rel = |w: TopicWire, o: Result<Topic<D>, EventBrokerError>|
        crate::convert::topic_reading(w, *duration, o);
    let read = |w: TopicWire| -> (o: Result<Topic<D>, EventBrokerError>)
        ensures
            crate::convert::topic_reading(w, *duration, o),
        { topic_from_wire(w, duration) };
    collect_all(wires, &read, Ghost(rel))
}

/// Builds a list of event types from their bodies.
pub fn event_types_from_wire(wires: Vec<EventTypeWire>) -> (r: Result<
    Vec<EventType>,
    EventBrokerError,
>)
    ensures
        crate::convert::collected(
            wires@,
            |w: EventTypeWire, o: Result<EventType, EventBrokerError>|
                crate::convert::event_type_reading(w, o),
            crate::convert::listed(r),
        ),
{
    let ghost rel = |w: EventTypeWire, o: Result<EventType, EventBrokerError>|
        crate::convert::event_type_reading(w, o);
    let read = |w: EventTypeWire| -> (o: Result<EventType, EventBrokerError>)
        ensures
            crate::convert::event_type_reading(w, o),
        { event_type_from_wire(w) };
    collect_all(wires, &read, Ghost(rel))
}

/// `k` is the first event type that has this id.
pub open spec fn first_with_id(wires: Seq<EventTypeWire>, id: Seq<char>, k: int) -> bool {
    &&& 0 <= k < wires.len()
    &&& wires[k].id@ == id
    &&& forall|i: int| 0 <= i < k ==> #[trigger] wires[i].id@ != id
}

/// Selects one event type from the list of them: the first that has this id.
pub fn find_event_type(wires: Vec<EventTypeWire>, id: &str) -> (r: Result<
    EventType,
    EventBrokerError,
>)
    ensures
        (exists|k: int| first_with_id(wires@, id@, k)) ==> exists|k: int|
            #[trigger] first_with_id(wires@, id@, k) && crate::convert::event_type_reading(
                wires@[k],
                r,
            ),
        (forall|i: int| 0 <= i < wires@.len() ==> #[trigger] wires@[i].id@ != id@) ==> {
            &&& r matches Err(EventBrokerError::EventTypeUnknown { type_id, detail, instance })
            &&& type_id@ == id@
            &&& detail@ == "no such event type"@
            &&& instance@.len() == 0
        },
{
    let ghost all = wires@;
    let wanted = id.to_owned();
    for w in it: wires.into_iter()
        invariant
            it.seq() == all,
            wanted@ == id@,
            forall|i: int| 0 <= i < it.index() ==> #[trigger] all[i].id@ != id@,
    {
        if w.id == wanted {
            assert(first_with_id(all, id@, it.index()));
            return event_type_from_wire(w);
        }
    }
    Err(
        EventBrokerError::EventTypeUnknown {
            type_id: wanted,
            detail: "no such event type".to_owned(),
            instance: String::new(),
        },
    )
}

/// An event type that is selected is the one in the list of all of them: where the list can be
/// had, so can every event type in it.
pub proof fn law_selected_event_type_is_listed(
    wires: Seq<EventTypeWire>,
    id: Seq<char>,
    k: int,
    all: Seq<EventType>,
    one: Result<EventType, EventBrokerError>,
)
    requires
        first_with_id(wires, id, k),
        crate::convert::collected(
            wires,
            |w: EventTypeWire, o: Result<EventType, EventBrokerError>|
                crate::convert::event_type_reading(w, o),
            Ok(all),
        ),
        crate::convert::event_type_reading(wires[k], one),
    ensures
        one is Ok,
        one->Ok_0.id@ == id,
        all[k].id@ == id,
        one->Ok_0.topic@ == all[k].topic@,
        one->Ok_0.description == all[k].description,
        one->Ok_0.allowed_subject_types == all[k].allowed_subject_types,
        one->Ok_0.partition_key == all[k].partition_key,
        one->Ok_0.data_schema == all[k].data_schema,
{
    assert(crate::convert::event_type_reading(wires[k], Ok(all[k])));
}

/// There is one manifest per partition of a topic; this is what it says.
pub open spec fn segments_of<G>(w: TopicSegmentsResponseWire<G>) -> TopicSegment<G> {
    TopicSegment {
        topic: w.topic,
        partition: crate::convert::partition_read(w.partition),
        start_sequence: Sequence(w.start_sequence),
        end_sequence: Sequence(w.end_sequence),
        start_time: w.start_time,
        end_time: w.end_time,
        segments: w.segments,
    }
}

/// The manifest that was asked for.
pub fn list_topic_segments_reply<G>(sent: Sent<TopicSegmentsResponseWire<G>>) -> (r: Result<
    TopicSegment<G>,
    EventBrokerError,
>)
    requires
        crate::exchange::sent_wf(sent),
    ensures
        match crate::exchange::payload_of(sent) {
            Some(body) => r == Ok::<_, EventBrokerError>(segments_of(body)),
            None => r is Err && crate::exchange::payload_missing(sent, r->Err_0),
        },
{
    match send_json(sent) {
        Ok(m) => Ok(
            TopicSegment {
                topic: m.topic,
                partition: partition_from_wire(m.partition),
                start_sequence: Sequence::assigned(m.start_sequence),
                end_sequence: Sequence::assigned(m.end_sequence),
                start_time: m.start_time,
                end_time: m.end_time,
                segments: m.segments,
            },
        ),
        Err(e) => Err(e),
    }
}

/// Published events are stored after 201 and taken after any other success.
pub proof fn law_only_created_is_persisted(status: u16)
    ensures
        ingested(status) is Persisted <==> status == 201,
        ingested(status) is Accepted <==> status != 201,
{
}

/// A page's limit is told as it is, as far as it can be.
pub proof fn law_limits_are_told_as_they_are(limit: u64)
    ensures
        limit <= 0xffff_ffff ==> limit_read(limit) == limit,
        limit > 0xffff_ffff ==> limit_read(limit) == 0xffff_ffff,
{
}

/// A page of groups that is read has the cursors that its body names, and none exactly where it
/// names none; it has every group of the body, each at its place. It is read exactly where every
/// group is an anonymous one.
pub proof fn law_group_page_says_what_its_body_does(
    w: PageWire<ConsumerGroupWire>,
    r: Result<Page<ConsumerGroup>, EventBrokerError>,
)
    requires
        group_page_reading(w, r),
    ensures
        r is Ok <==> forall|i: int|
            0 <= i < w.items@.len() ==> crate::ids::ConsumerGroupId::reading(
                #[trigger] w.items@[i].id@,
            ) is Some,
        r matches Ok(page) ==> {
            &&& page.next_cursor == w.page_info.next_cursor
            &&& page.prev_cursor == w.page_info.prev_cursor
            &&& w.page_info.limit <= 0xffff_ffff ==> page.limit == w.page_info.limit
            &&& w.page_info.limit > 0xffff_ffff ==> page.limit == 0xffff_ffff
            &&& page.items@.len() == w.items@.len()
            &&& forall|i: int|
                0 <= i < w.items@.len() ==> {
                    let group = #[trigger] page.items@[i];
                    let body = w.items@[i];
                    &&& Some(group.id) == crate::ids::ConsumerGroupId::reading(body.id@)
                    &&& group.tenant_id == body.tenant_id
                    &&& group.owner_principal_id == body.owner_principal_id
                    &&& group.kind is Named <==> body.kind is Named
                    &&& group.description == body.description
                    &&& group.created_at == body.created_at
                }
        },
        r matches Err(e) ==> e is Transport && e->Transport_0@
            == "broker returned a non-anonymous consumer group id; only anonymous groups are supported"@,
{
    let ws = w.items@;
    let rel = |g: ConsumerGroupWire, o: Result<ConsumerGroup, EventBrokerError>|
        crate::convert::group_reading(g, o);
    match r {
        Ok(page) => {
            assert forall|i: int| 0 <= i < ws.len() implies crate::convert::group_reading(
                ws[i],
                Ok(#[trigger] page.items@[i]),
            ) by {
                assert(rel(ws[i], Ok(page.items@[i])));
            }
            assert forall|i: int| 0 <= i < ws.len() implies
                crate::ids::ConsumerGroupId::reading(#[trigger] ws[i].id@) is Some by {
                assert(rel(ws[i], Ok(page.items@[i])));
            }
        },
        Err(e) => {
            let k = choose|k: int|
                {
                    &&& 0 <= k < ws.len()
                    &&& rel(#[trigger] ws[k], Err(e))
                    &&& forall|i: int|
                        0 <= i < k ==> crate::convert::can_succeed(rel, #[trigger] ws[i])
                };
            assert(rel(ws[k], Err(e)));
            assert(crate::ids::ConsumerGroupId::reading(ws[k].id@) is None);
        },
    }
}

/// A caller that follows the cursors asks for every page that the broker named: the cursor that a
/// page gives goes into the next query as the broker wrote it.
pub proof fn law_next_page_of_groups_is_asked_for(
    w: PageWire<ConsumerGroupWire>,
    page: Page<ConsumerGroup>,
    next: crate::models::ConsumerGroupQuery,
)
    requires
        group_page_reading(w, Ok(page)),
        next.cursor == page.next_cursor,
    ensures
        w.page_info.next_cursor matches Some(cursor) ==> crate::query::consumer_group_pairs(
            next,
        ).contains(("cursor"@, cursor@)),
{
    if let Some(cursor) = w.page_info.next_cursor {
        crate::query::law_group_queries_ask_for_what_is_given(next);
        let a = crate::query::present(next.limit is Some);
        assert(crate::query::consumer_group_pairs(next)[a] == ("cursor"@, cursor@));
    }
}

/// A member gets every partition that its body assigns, each at its place, with its topic as it
/// came.
pub proof fn law_members_get_every_partition(w: SubscriptionWire, a: SubscriptionAssignment)
    requires
        assignment_of(w, a),
    ensures
        a.subscription_id.0 == w.id,
        a.topology_version == w.topology_version,
        a.expires_at == w.expires_at,
        a.assigned@.len() == w.assigned@.len(),
        forall|i: int|
            0 <= i < w.assigned@.len() ==> {
                &&& (#[trigger] a.assigned@[i]).topic == w.assigned@[i].topic
                &&& w.assigned@[i].partition >= 0 ==> a.assigned@[i].partition
                    == w.assigned@[i].partition
                &&& w.assigned@[i].partition < 0 ==> a.assigned@[i].partition == 0
            },
{
}

/// The first event type with an id has it, and none before it does; there is one exactly where
/// any has it, and only one.
pub proof fn law_first_with_an_id_is_the_first(wires: Seq<EventTypeWire>, id: Seq<char>, k: int)
    ensures
        first_with_id(wires, id, k) <==> 0 <= k < wires.len() && wires[k].id@ == id && forall|i: int|
            0 <= i < k ==> #[trigger] wires[i].id@ != id,
        (exists|i: int| 0 <= i < wires.len() && #[trigger] wires[i].id@ == id) ==> exists|j: int|
            first_with_id(wires, id, j),
{
    if exists|i: int| 0 <= i < wires.len() && #[trigger] wires[i].id@ == id {
        let i = choose|i: int| 0 <= i < wires.len() && #[trigger] wires[i].id@ == id;
        lemma_some_is_first(wires, id, i);
    }
}

/// Where one has an id, one is the first that does.
proof fn lemma_some_is_first(wires: Seq<EventTypeWire>, id: Seq<char>, i: int)
    requires
        0 <= i < wires.len(),
        wires[i].id@ == id,
    ensures
        exists|j: int| first_with_id(wires, id, j),
    decreases i,
{
    if forall|j: int| 0 <= j < i ==> #[trigger] wires[j].id@ != id {
        assert(first_with_id(wires, id, i));
    } else {
        let j = choose|j: int| 0 <= j < i && #[trigger] wires[j].id@ == id;
        lemma_some_is_first(wires, id, j);
    }
}

/// A manifest says what its body does.
pub proof fn law_manifest_says_what_its_body_does<G>(w: TopicSegmentsResponseWire<G>)
    ensures
        segments_of(w).topic == w.topic,
        w.partition >= 0 ==> segments_of(w).partition == w.partition,
        w.partition < 0 ==> segments_of(w).partition == 0,
        segments_of(w).start_sequence.0 == w.start_sequence,
        segments_of(w).end_sequence.0 == w.end_sequence,
        segments_of(w).start_time == w.start_time,
        segments_of(w).end_time == w.end_time,
        segments_of(w).segments == w.segments,
{
}

/// Publishing succeeds exactly where the broker took the events, and they are stored where it
/// said that it created them.
pub proof fn law_publishing_tells_what_became_of_events<T>(
    sent: Sent<T>,
    r: Result<IngestOutcome, EventBrokerError>,
    done: Result<(), EventBrokerError>,
)
    requires
        call_ensures(publish_reply::<T>, (sent,), r),
        call_ensures(done_reply::<T>, (sent,), done),
    ensures
        r is Ok <==> sent is Ok && sent->Ok_0.body is Payload,
        r is Ok && sent->Ok_0.status == 201 ==> r->Ok_0 is Persisted,
        r is Ok && sent->Ok_0.status != 201 ==> r->Ok_0 is Accepted,
        done is Ok <==> r is Ok,
        sent is Err ==> r->Err_0 is Transport && r->Err_0->Transport_0 == sent->Err_0,
        sent is Err ==> done->Err_0 is Transport && done->Err_0->Transport_0 == sent->Err_0,
{
}

/// A producer that was registered is the one that the broker named.
pub proof fn law_registered_producer_is_the_one_named(
    sent: Sent<RegisterProducerResponseWire>,
    r: Result<ProducerId, EventBrokerError>,
)
    requires
        call_ensures(register_producer_reply, (sent,), r),
    ensures
        r is Ok <==> sent is Ok && sent->Ok_0.body is Payload && sent->Ok_0.body->Payload_0 is Ok,
        r is Ok ==> r->Ok_0.0 == sent->Ok_0.body->Payload_0->Ok_0.id,
        sent is Err ==> r->Err_0 is Transport && r->Err_0->Transport_0 == sent->Err_0,
{
}

/// An event type is found exactly where one in the list has the id: what comes is then read of
/// the first that has it, and otherwise the id that was asked for is reported as unknown.
pub proof fn law_event_types_are_found_by_their_id(
    wires: Vec<EventTypeWire>,
    id: &str,
    r: Result<EventType, EventBrokerError>,
)
    requires
        call_ensures(find_event_type, (wires, id), r),
    ensures
        (exists|i: int| 0 <= i < wires@.len() && #[trigger] wires@[i].id@ == id@) ==> {
            &&& r is Ok ==> r->Ok_0.id@ == id@
            &&& r is Err ==> r->Err_0 is Transport
        },
        (forall|i: int| 0 <= i < wires@.len() ==> #[trigger] wires@[i].id@ != id@) ==> {
            &&& r is Err
            &&& r->Err_0 is EventTypeUnknown
            &&& r->Err_0->type_id@ == id@
        },
{
    if exists|i: int| 0 <= i < wires@.len() && #[trigger] wires@[i].id@ == id@ {
        law_first_with_an_id_is_the_first(wires@, id@, 0);
    }
}

} // verus!
