//! Between the broker's bodies and the callers' types.
use vstd::prelude::*;
use vstd::string::*;

use crate::api::{BarrierMode, Filter, SubscriptionInterest, TenantTraversalDepth};
use crate::error::EventBrokerError;
use crate::ids::{ConsumerGroupId, GtsInstanceId, GtsTypeId, SubscriptionId};
use crate::models::{
    ConsumerGroup, ConsumerGroupKind, EventType, PartitionAssignment, Subscription, Topic,
};
use crate::wire::{
    AssignedPartitionWire, BarrierModeWire, ConsumerGroupKindWire, ConsumerGroupWire,
    EventTypeWire, FilterSpecWire, InterestResponseWire, InterestWire, MaxDepthWire,
    SubscriptionWire, TopicWire,
};

verus! {

/// What is said of a consumer group whose id is not an anonymous group's.
pub const NOT_ANONYMOUS: &'static str =
    "broker returned a non-anonymous consumer group id; only anonymous groups are supported";

/// The depth that a body asks for, as the wire has it: a number of levels stops at the
/// largest that the wire can carry.
pub open spec fn depth_written(depth: TenantTraversalDepth) -> MaxDepthWire {
    match depth {
        TenantTraversalDepth::CurrentTenant => MaxDepthWire::Levels(0),
        TenantTraversalDepth::Descendants(levels) => MaxDepthWire::Levels(
            if levels <= i32::MAX {
                levels as i32
            } else {
                i32::MAX
            },
        ),
        TenantTraversalDepth::UnlimitedDescendants => MaxDepthWire::Unlimited,
    }
}

/// The depth that an echo stands for: nothing is unlimited, a positive number is that many
/// levels, and anything else is the tenant alone.
pub open spec fn depth_read(max_depth: Option<i32>) -> TenantTraversalDepth {
    match max_depth {
        None => TenantTraversalDepth::UnlimitedDescendants,
        Some(levels) => if levels > 0 {
            TenantTraversalDepth::Descendants(levels as u32)
        } else {
            TenantTraversalDepth::CurrentTenant
        },
    }
}

/// The barrier mode as the wire has it.
pub open spec fn barrier_written(mode: BarrierMode) -> BarrierModeWire {
    match mode {
        BarrierMode::Respect => BarrierModeWire::Respect,
        BarrierMode::Ignore => BarrierModeWire::Ignore,
    }
}

/// The barrier mode that an echo stands for: barriers are respected unless it says `ignore`.
pub open spec fn barrier_read(text: Seq<char>) -> BarrierMode {
    if text == "ignore"@ {
        BarrierMode::Ignore
    } else {
        BarrierMode::Respect
    }
}

/// A partition's number, with 0 for what is no number of a partition.
pub open spec fn partition_read(partition: i32) -> u32 {
    if partition < 0 {
        0
    } else {
        partition as u32
    }
}

/// `wire` asks for `interest`.
pub open spec fn asks_for(wire: InterestWire, interest: SubscriptionInterest) -> bool {
    &&& wire.topic@ == interest.topic@
    &&& wire.tenant_id == interest.tenant_id
    &&& wire.max_depth == depth_written(interest.tenant_depth)
    &&& wire.barrier_mode == barrier_written(interest.barrier_mode)
    &&& wire.types@ == interest.types@
    &&& match (wire.filter, interest.filter) {
        (Some(spec), Some(filter)) => {
            &&& spec.engine@ == filter.engine@
            &&& spec.expression@ == filter.expression@
        },
        (None, None) => true,
        _ => false,
    }
}

/// Builds the body of one interest.
pub fn interest_to_wire(interest: &SubscriptionInterest) -> (r: InterestWire)
    ensures
        asks_for(r, *interest),
        interest.tenant_depth matches TenantTraversalDepth::Descendants(levels) ==> {
            &&& r.max_depth is Levels
            &&& r.max_depth->Levels_0 == if levels <= i32::MAX {
                levels as int
            } else {
                i32::MAX as int
            }
        },
{
    let max_depth = match interest.tenant_depth {
        TenantTraversalDepth::CurrentTenant => MaxDepthWire::Levels(0),
        TenantTraversalDepth::Descendants(levels) => {
            if levels <= i32::MAX as u32 {
                MaxDepthWire::Levels(levels as i32)
            } else {
                MaxDepthWire::Levels(i32::MAX)
            }
        },
        TenantTraversalDepth::UnlimitedDescendants => MaxDepthWire::Unlimited,
    };
    let barrier_mode = match interest.barrier_mode {
        BarrierMode::Respect => BarrierModeWire::Respect,
        BarrierMode::Ignore => BarrierModeWire::Ignore,
    };
    let types = interest.types.clone();
    assert(types@ =~= interest.types@);
    let filter = match &interest.filter {
        Some(filter) => Some(
            FilterSpecWire {
                engine: filter.engine.clone(),
                expression: filter.expression.clone(),
            },
        ),
        None => None,
    };
    InterestWire {
        topic: interest.topic.clone(),
        tenant_id: interest.tenant_id,
        max_depth,
        barrier_mode,
        types,
        filter,
    }
}

/// The interest that an echo describes, with its filter as given.
pub open spec fn interest_described(
    w: InterestResponseWire,
    filter: Option<Filter>,
) -> SubscriptionInterest {
    SubscriptionInterest {
        topic: w.topic,
        tenant_id: w.tenant_id,
        tenant_depth: depth_read(w.max_depth),
        barrier_mode: barrier_read(w.barrier_mode@),
        types: w.types,
        filter,
    }
}

/// `r` is what comes of an echo: the filter, if there is one, goes through `new_filter`, and
/// the interest that the echo describes goes through `build`; whichever refuses first decides.
pub open spec fn interest_reading<F, B>(
    w: InterestResponseWire,
    new_filter: F,
    build: B,
    r: Result<SubscriptionInterest, EventBrokerError>,
) -> bool where
    F: Fn(String, String) -> Result<Filter, EventBrokerError>,
    B: Fn(SubscriptionInterest) -> Result<SubscriptionInterest, EventBrokerError>,
 {
    match w.filter {
        None => call_ensures(build, (interest_described(w, None),), r),
        Some(spec) => {
            ||| r is Err && call_ensures(
                new_filter,
                (spec.engine, spec.expression),
                Err(r->Err_0),
            )
            ||| exists|filter: Filter| #[trigger]
                call_ensures(new_filter, (spec.engine, spec.expression), Ok(filter))
                    && call_ensures(build, (interest_described(w, Some(filter)),), r)
        },
    }
}

/// Builds one interest from its echo. `new_filter` and `build` are the caller's rules for
/// filters and for whole interests.
pub fn interest_from_wire<F, B>(w: InterestResponseWire, new_filter: &F, build: &B) -> (r: Result<
    SubscriptionInterest,
    EventBrokerError,
>) where
    F: Fn(String, String) -> Result<Filter, EventBrokerError>,
    B: Fn(SubscriptionInterest) -> Result<SubscriptionInterest, EventBrokerError>,

    requires
        forall|engine: String, expression: String|
            call_requires(new_filter, (engine, expression)),
        forall|interest: SubscriptionInterest| call_requires(build, (interest,)),
    ensures
        interest_reading(w, *new_filter, *build, r),
{
    let tenant_depth = match w.max_depth {
        None => TenantTraversalDepth::UnlimitedDescendants,
        Some(levels) => {
            if levels > 0 {
                TenantTraversalDepth::descendants(levels as u32)
            } else {
                TenantTraversalDepth::CurrentTenant
            }
        },
    };
    let barrier_mode = if w.barrier_mode == "ignore".to_owned() {
        BarrierMode::Ignore
    } else {
        BarrierMode::Respect
    };
    let ghost echo = w;
    let filter = match w.filter {
        Some(spec) => match new_filter(spec.engine, spec.expression) {
            Ok(filter) => Some(filter),
            Err(e) => {
                return Err(e);
            },
        },
        None => None,
    };
    let interest = SubscriptionInterest {
        topic: w.topic,
        tenant_id: w.tenant_id,
        tenant_depth,
        barrier_mode,
        types: w.types,
        filter,
    };
    assert(interest == interest_described(echo, filter));
    build(interest)
}

/// `r` is what comes of reading `ws` one by one, where `rel` says what may come of each:
/// all the results in order or, where one is refused, the first refusal.
pub open spec fn collected<W, T>(
    ws: Seq<W>,
    rel: spec_fn(W, Result<T, EventBrokerError>) -> bool,
    r: Result<Seq<T>, EventBrokerError>,
) -> bool {
    match r {
        Ok(ts) => {
            &&& ts.len() == ws.len()
            &&& forall|i: int| 0 <= i < ws.len() ==> rel(ws[i], Ok(#[trigger] ts[i]))
        },
        Err(e) => exists|k: int|
            {
                &&& 0 <= k < ws.len()
                &&& rel(#[trigger] ws[k], Err(e))
                &&& forall|i: int| 0 <= i < k ==> can_succeed(rel, #[trigger] ws[i])
            },
    }
}

/// The list that a call gave, as a sequence.
pub open spec fn listed<T>(r: Result<Vec<T>, EventBrokerError>) -> Result<
    Seq<T>,
    EventBrokerError,
> {
    match r {
        Ok(ts) => Ok(ts@),
        Err(e) => Err(e),
    }
}

/// Reading `w` may give a result.
pub open spec fn can_succeed<W, T>(
    rel: spec_fn(W, Result<T, EventBrokerError>) -> bool,
    w: W,
) -> bool {
    exists|t: T| rel(w, Ok(t))
}

/// Reads `ws` one by one with `read` until one is refused. `rel` is what the caller knows of each
/// reading.
pub(crate) fn collect_all<W, T, F>(
    ws: Vec<W>,
    read: &F,
    Ghost(rel): Ghost<spec_fn(W, Result<T, EventBrokerError>) -> bool>,
) -> (r: Result<Vec<T>, EventBrokerError>) where F: Fn(W) -> Result<T, EventBrokerError>
    requires
        forall|w: W| call_requires(read, (w,)),
        forall|w: W, o: Result<T, EventBrokerError>|
            #[trigger] call_ensures(*read, (w,), o) ==> rel(w, o),
    ensures
        collected(ws@, rel, listed(r)),
{
    let ghost all = ws@;
    let mut ts: Vec<T> = Vec::new();
    for w in it: ws.into_iter()
        invariant
            it.seq() == all,
            forall|w: W| call_requires(read, (w,)),
            forall|w: W, o: Result<T, EventBrokerError>|
                #[trigger] call_ensures(*read, (w,), o) ==> rel(w, o),
            ts@.len() == it.index(),
            forall|i: int| 0 <= i < ts@.len() ==> rel(all[i], Ok(#[trigger] ts@[i])),
    {
        match read(w) {
            Ok(t) => {
                ts.push(t);
            },
            Err(e) => {
                proof {
                    let k = ts@.len() as int;
                    assert(rel(all[k], Err(e)));
                    assert forall|i: int| 0 <= i < k implies can_succeed(
                        rel,
                        #[trigger] all[i],
                    ) by {
                        assert(rel(all[i], Ok(ts@[i])));
                    }
                }
                return Err(e);
            },
        }
    }
    Ok(ts)
}

/// Takes the group that an id was read as. A named group has no uuid to carry, so its id is
/// reported as a transport error.
pub fn anonymous_group(read: Option<ConsumerGroupId>) -> (r: Result<
    ConsumerGroupId,
    EventBrokerError,
>)
    ensures
        match read {
            Some(id) => r == Ok::<_, EventBrokerError>(id),
            None => r is Err && r->Err_0.is_transport(NOT_ANONYMOUS@),
        },
{
    match read {
        Some(id) => Ok(id),
        None => Err(EventBrokerError::Transport(NOT_ANONYMOUS.to_owned())),
    }
}

/// Reads a group's GTS instance id from a reply.
pub fn consumer_group_id_from_wire(gts: &str) -> (r: Result<ConsumerGroupId, EventBrokerError>)
    ensures
        match ConsumerGroupId::reading(gts@) {
            Some(id) => r == Ok::<_, EventBrokerError>(id),
            None => r is Err && r->Err_0.is_transport(NOT_ANONYMOUS@),
        },
{
    anonymous_group(ConsumerGroupId::try_from_gts(gts))
}

/// The kind of a group, as callers see it.
pub open spec fn kind_read(kind: ConsumerGroupKindWire) -> ConsumerGroupKind {
    match kind {
        ConsumerGroupKindWire::Anonymous => ConsumerGroupKind::Anonymous,
        ConsumerGroupKindWire::Named => ConsumerGroupKind::Named,
    }
}

/// `r` is what comes of a group's body, given what its id was read as: the group, unless it is
/// no anonymous one.
pub open spec fn group_read(
    w: ConsumerGroupWire,
    id: Option<ConsumerGroupId>,
    r: Result<ConsumerGroup, EventBrokerError>,
) -> bool {
    match id {
        Some(id) => r == Ok::<_, EventBrokerError>(
            ConsumerGroup {
                id,
                tenant_id: w.tenant_id,
                owner_principal_id: w.owner_principal_id,
                kind: kind_read(w.kind),
                description: w.description,
                created_at: w.created_at,
            },
        ),
        None => r is Err && r->Err_0.is_transport(NOT_ANONYMOUS@),
    }
}

/// `r` is what comes of a group's body.
pub open spec fn group_reading(
    w: ConsumerGroupWire,
    r: Result<ConsumerGroup, EventBrokerError>,
) -> bool {
    group_read(w, ConsumerGroupId::reading(w.id@), r)
}

/// Builds a consumer group from its body and what its id was read as.
pub fn consumer_group_of(w: ConsumerGroupWire, id: Option<ConsumerGroupId>) -> (r: Result<
    ConsumerGroup,
    EventBrokerError,
>)
    ensures
        group_read(w, id, r),
{
    match anonymous_group(id) {
        Ok(id) => Ok(
            ConsumerGroup {
                id,
                tenant_id: w.tenant_id,
                owner_principal_id: w.owner_principal_id,
                kind: match w.kind {
                    ConsumerGroupKindWire::Anonymous => ConsumerGroupKind::Anonymous,
                    ConsumerGroupKindWire::Named => ConsumerGroupKind::Named,
                },
                description: w.description,
                created_at: w.created_at,
            },
        ),
        Err(e) => Err(e),
    }
}

/// Builds a consumer group from its body.
pub fn consumer_group_from_wire(w: ConsumerGroupWire) -> (r: Result<
    ConsumerGroup,
    EventBrokerError,
>)
    ensures
        group_reading(w, r),
{
    let id = ConsumerGroupId::try_from_gts(w.id.as_str());
    consumer_group_of(w, id)
}

/// A partition's number, with 0 for what is no number of a partition.
pub fn partition_from_wire(partition: i32) -> (r: u32)
    ensures
        r == partition_read(partition),
{
    if partition < 0 {
        0
    } else {
        partition as u32
    }
}

/// `r` is what comes of one assigned partition: its topic has to be a valid instance id.
pub open spec fn assignment_reading(
    w: AssignedPartitionWire,
    r: Result<PartitionAssignment, EventBrokerError>,
) -> bool {
    match crate::outside::gts_instance_refusal(w.topic@) {
        None => {
            &&& r is Ok
            &&& r->Ok_0.topic@ == w.topic@
            &&& r->Ok_0.partition == partition_read(w.partition)
        },
        Some(why) => {
            &&& r is Err
            &&& r->Err_0.is_transport("subscription carried an invalid topic: "@ + why)
        },
    }
}

/// Builds one assigned partition, given what came of checking its topic.
pub fn assignment_of(topic: Result<GtsInstanceId, String>, partition: i32) -> (r: Result<
    PartitionAssignment,
    EventBrokerError,
>)
    ensures
        match topic {
            Ok(topic) => {
                &&& r is Ok
                &&& r->Ok_0.topic == topic
                &&& r->Ok_0.partition == partition_read(partition)
            },
            Err(why) => {
                &&& r is Err
                &&& r->Err_0.is_transport("subscription carried an invalid topic: "@ + why@)
            },
        },
{
    match topic {
        Ok(topic) => Ok(PartitionAssignment { topic, partition: partition_from_wire(partition) }),
        Err(why) => Err(
            EventBrokerError::Transport(
                "subscription carried an invalid topic: ".to_owned().concat(why.as_str()),
            ),
        ),
    }
}

/// Builds one assigned partition from its body.
pub fn assignment_from_wire(w: AssignedPartitionWire) -> (r: Result<
    PartitionAssignment,
    EventBrokerError,
>)
    ensures
        assignment_reading(w, r),
{
    assignment_of(GtsInstanceId::try_new(w.topic.as_str()), w.partition)
}

/// All the topics that are assigned are valid.
pub open spec fn assignments_readable(ws: Seq<AssignedPartitionWire>) -> bool {
    forall|i: int|
        0 <= i < ws.len() ==> crate::outside::gts_instance_refusal(#[trigger] ws[i].topic@) is None
}

/// `r` is what comes of a subscription's body: its partitions are read first, then its group,
/// and the first refusal decides. The body also carries a client agent and interests, which a
/// [`Subscription`] does not hold: they are not read.
pub open spec fn subscription_reading(
    w: SubscriptionWire,
    r: Result<Subscription, EventBrokerError>,
) -> bool {
    let assigned = |a: AssignedPartitionWire, o: Result<PartitionAssignment, EventBrokerError>|
        assignment_reading(a, o);
    match r {
        Ok(s) => {
            &&& s.id == SubscriptionId(w.id)
            &&& ConsumerGroupId::reading(w.consumer_group@) == Some(s.consumer_group)
            &&& collected(w.assigned@, assigned, Ok(s.assigned@))
            &&& s.topology_version == w.topology_version
            &&& s.expires_at == w.expires_at
        },
        Err(e) => if !assignments_readable(w.assigned@) {
            collected(w.assigned@, assigned, Err(e))
        } else {
            &&& ConsumerGroupId::reading(w.consumer_group@) is None
            &&& e.is_transport(NOT_ANONYMOUS@)
        },
    }
}

/// Builds a subscription from its body.
pub fn subscription_from_wire(w: SubscriptionWire) -> (r: Result<Subscription, EventBrokerError>)
    ensures
        subscription_reading(w, r),
{
    let ghost rel = |a: AssignedPartitionWire, o: Result<PartitionAssignment, EventBrokerError>|
        assignment_reading(a, o);
    let ghost body = w;
    let read = |a: AssignedPartitionWire| -> (o: Result<PartitionAssignment, EventBrokerError>)
        ensures
            assignment_reading(a, o),
        { assignment_from_wire(a) };
    let assigned = collect_all(w.assigned, &read, Ghost(rel));
    let assigned = match assigned {
        Ok(assigned) => assigned,
        Err(e) => {
            return Err(e);
        },
    };
    assert forall|i: int| 0 <= i < body.assigned@.len() implies
        crate::outside::gts_instance_refusal(#[trigger] body.assigned@[i].topic@) is None by {
        assert(rel(body.assigned@[i], Ok(assigned@[i])));
    }
    match consumer_group_id_from_wire(w.consumer_group.as_str()) {
        Ok(consumer_group) => Ok(
            Subscription {
                id: SubscriptionId(w.id),
                consumer_group,
                assigned,
                topology_version: w.topology_version,
                expires_at: w.expires_at,
            },
        ),
        Err(e) => Err(e),
    }
}

/// Two bodies say the same but for their client agents and interests.
pub open spec fn alike_but_for_agent_and_interests(
    a: SubscriptionWire,
    b: SubscriptionWire,
) -> bool {
    &&& a.id == b.id
    &&& a.consumer_group@ == b.consumer_group@
    &&& a.assigned@ == b.assigned@
    &&& a.topology_version == b.topology_version
    &&& a.expires_at == b.expires_at
}

/// Two readings give the same: subscriptions that say the same, or refusals in the same words.
pub open spec fn read_alike(
    a: Result<Subscription, EventBrokerError>,
    b: Result<Subscription, EventBrokerError>,
) -> bool {
    match (a, b) {
        (Ok(s), Ok(t)) => {
            &&& s.id == t.id
            &&& s.consumer_group == t.consumer_group
            &&& s.topology_version == t.topology_version
            &&& s.expires_at == t.expires_at
            &&& s.assigned@.len() == t.assigned@.len()
            &&& forall|i: int|
                0 <= i < s.assigned@.len() ==> {
                    &&& (#[trigger] s.assigned@[i]).topic@ == t.assigned@[i].topic@
                    &&& s.assigned@[i].partition == t.assigned@[i].partition
                }
        },
        (Err(EventBrokerError::Transport(x)), Err(EventBrokerError::Transport(y))) => x@ == y@,
        _ => false,
    }
}

/// A subscription's client agent and interests make no difference to how it is read.
pub proof fn law_agent_and_interests_are_not_read(
    a: SubscriptionWire,
    b: SubscriptionWire,
    ra: Result<Subscription, EventBrokerError>,
    rb: Result<Subscription, EventBrokerError>,
)
    requires
        alike_but_for_agent_and_interests(a, b),
        subscription_reading(a, ra),
        subscription_reading(b, rb),
    ensures
        read_alike(ra, rb),
        subscription_reading(a, rb),
        subscription_reading(b, ra),
{
    let ws = a.assigned@;
    let rel = |w: AssignedPartitionWire, o: Result<PartitionAssignment, EventBrokerError>|
        assignment_reading(w, o);
    if let Ok(s) = ra {
        lemma_assigned_are_readable(ws, s.assigned@);
    }
    if let Ok(t) = rb {
        lemma_assigned_are_readable(ws, t.assigned@);
    }
    match (ra, rb) {
        (Ok(s), Ok(t)) => {
            assert forall|i: int| 0 <= i < s.assigned@.len() implies {
                &&& (#[trigger] s.assigned@[i]).topic@ == t.assigned@[i].topic@
                &&& s.assigned@[i].partition == t.assigned@[i].partition
            } by {
                assert(rel(ws[i], Ok(s.assigned@[i])));
                assert(rel(ws[i], Ok(t.assigned@[i])));
            }
        },
        (Err(e), Err(f)) => {
            if !assignments_readable(ws) {
                let j = choose|j: int|
                    {
                        &&& 0 <= j < ws.len()
                        &&& rel(#[trigger] ws[j], Err(e))
                        &&& forall|i: int| 0 <= i < j ==> can_succeed(rel, #[trigger] ws[i])
                    };
                let k = choose|k: int|
                    {
                        &&& 0 <= k < ws.len()
                        &&& rel(#[trigger] ws[k], Err(f))
                        &&& forall|i: int| 0 <= i < k ==> can_succeed(rel, #[trigger] ws[i])
                    };
                assert(rel(ws[j], Err(e)) && rel(ws[k], Err(f)));
                if j < k {
                    assert(can_succeed(rel, ws[j]));
                }
                if k < j {
                    assert(can_succeed(rel, ws[k]));
                }
            }
        },
        _ => {},
    }
}

/// Partitions that were all read have valid topics.
proof fn lemma_assigned_are_readable(
    ws: Seq<AssignedPartitionWire>,
    assigned: Seq<PartitionAssignment>,
)
    requires
        collected(
            ws,
            |w: AssignedPartitionWire, o: Result<PartitionAssignment, EventBrokerError>|
                assignment_reading(w, o),
            Ok(assigned),
        ),
    ensures
        assignments_readable(ws),
{
    assert forall|i: int| 0 <= i < ws.len() implies crate::outside::gts_instance_refusal(
        #[trigger] ws[i].topic@,
    ) is None by {
        assert(assignment_reading(ws[i], Ok(assigned[i])));
    }
}

/// `r` is what comes of an event type's body: its id has to be a valid type id, and then its
/// topic a valid instance id.
pub open spec fn event_type_reading(
    w: EventTypeWire,
    r: Result<EventType, EventBrokerError>,
) -> bool {
    match (
        crate::outside::gts_type_refusal(w.id@),
        crate::outside::gts_instance_refusal(w.topic@),
    ) {
        (Some(why), _) => {
            &&& r is Err
            &&& r->Err_0.is_transport("event type carried an invalid id: "@ + why)
        },
        (None, Some(why)) => {
            &&& r is Err
            &&& r->Err_0.is_transport("event type carried an invalid topic: "@ + why)
        },
        (None, None) => {
            &&& r is Ok
            &&& r->Ok_0.id@ == w.id@
            &&& r->Ok_0.topic@ == w.topic@
            &&& r->Ok_0.description == w.description
            &&& r->Ok_0.allowed_subject_types == w.allowed_subject_types
            &&& r->Ok_0.partition_key == w.partition_key
            &&& r->Ok_0.data_schema == w.data_schema
        },
    }
}

/// Builds an event type, given what came of checking its id and its topic.
pub fn event_type_of(
    w: EventTypeWire,
    id: Result<GtsTypeId, String>,
    topic: Result<GtsInstanceId, String>,
) -> (r: Result<EventType, EventBrokerError>)
    ensures
        match (id, topic) {
            (Err(why), _) => {
                &&& r is Err
                &&& r->Err_0.is_transport("event type carried an invalid id: "@ + why@)
            },
            (Ok(_), Err(why)) => {
                &&& r is Err
                &&& r->Err_0.is_transport("event type carried an invalid topic: "@ + why@)
            },
            (Ok(id), Ok(topic)) => r == Ok::<_, EventBrokerError>(
                EventType {
                    id,
                    topic,
                    description: w.description,
                    allowed_subject_types: w.allowed_subject_types,
                    partition_key: w.partition_key,
                    data_schema: w.data_schema,
                },
            ),
        },
{
    let id = match id {
        Ok(id) => id,
        Err(why) => {
            return Err(
                EventBrokerError::Transport(
                    "event type carried an invalid id: ".to_owned().concat(why.as_str()),
                ),
            );
        },
    };
    let topic = match topic {
        Ok(topic) => topic,
        Err(why) => {
            return Err(
                EventBrokerError::Transport(
                    "event type carried an invalid topic: ".to_owned().concat(why.as_str()),
                ),
            );
        },
    };
    Ok(
        EventType {
            id,
            topic,
            description: w.description,
            allowed_subject_types: w.allowed_subject_types,
            partition_key: w.partition_key,
            data_schema: w.data_schema,
        },
    )
}

/// Builds an event type from its body.
pub fn event_type_from_wire(w: EventTypeWire) -> (r: Result<EventType, EventBrokerError>)
    ensures
        event_type_reading(w, r),
{
    let id = GtsTypeId::try_new(w.id.as_str());
    let topic = GtsInstanceId::try_new(w.topic.as_str());
    event_type_of(w, id, topic)
}

/// `topic` says what `w` does besides its id: a description that is absent becomes empty, and a
/// retention that `duration` does not read is left out.
pub open spec fn topic_described<D, P>(w: TopicWire, duration: P, topic: Topic<D>) -> bool where
    P: Fn(String) -> Option<D>,
 {
    &&& match w.description {
        Some(description) => topic.description == description,
        None => topic.description@.len() == 0,
    }
    &&& match w.retention {
        Some(text) => call_ensures(duration, (text,), topic.retention),
        None => topic.retention is None,
    }
}

/// `r` is what comes of a topic's body: its id has to be a valid instance id.
pub open spec fn topic_reading<D, P>(
    w: TopicWire,
    duration: P,
    r: Result<Topic<D>, EventBrokerError>,
) -> bool where P: Fn(String) -> Option<D> {
    match crate::outside::gts_instance_refusal(w.id@) {
        Some(why) => {
            &&& r is Err
            &&& r->Err_0.is_transport("topic carried an invalid id: "@ + why)
        },
        None => {
            &&& r is Ok
            &&& r->Ok_0.id@ == w.id@
            &&& topic_described(w, duration, r->Ok_0)
        },
    }
}

/// Builds a topic, given what came of checking its id. `duration` reads the caller's type of
/// durations.
pub fn topic_of<D, P>(w: TopicWire, id: Result<GtsInstanceId, String>, duration: &P) -> (r: Result<
    Topic<D>,
    EventBrokerError,
>) where P: Fn(String) -> Option<D>
    requires
        forall|text: String| call_requires(duration, (text,)),
    ensures
        match id {
            Err(why) => {
                &&& r is Err
                &&& r->Err_0.is_transport("topic carried an invalid id: "@ + why@)
            },
            Ok(id) => {
                &&& r is Ok
                &&& r->Ok_0.id == id
                &&& topic_described(w, *duration, r->Ok_0)
            },
        },
{
    let id = match id {
        Ok(id) => id,
        Err(why) => {
            return Err(
                EventBrokerError::Transport(
                    "topic carried an invalid id: ".to_owned().concat(why.as_str()),
                ),
            );
        },
    };
    let description = match w.description {
        Some(description) => description,
        None => String::new(),
    };
    let retention = match w.retention {
        Some(text) => duration(text),
        None => None,
    };
    Ok(Topic { id, description, retention })
}

/// Builds a topic from its body. `duration` reads the caller's type of durations.
pub fn topic_from_wire<D, P>(w: TopicWire, duration: &P) -> (r: Result<
    Topic<D>,
    EventBrokerError,
>) where P: Fn(String) -> Option<D>
    requires
        forall|text: String| call_requires(duration, (text,)),
    ensures
        topic_reading(w, *duration, r),
{
    let id = GtsInstanceId::try_new(w.id.as_str());
    topic_of(w, id, duration)
}

/// `echo` says of an interest what `wire` asked for.
pub open spec fn echoes(echo: InterestResponseWire, wire: InterestWire) -> bool {
    &&& echo.topic@ == wire.topic@
    &&& echo.tenant_id == wire.tenant_id
    &&& echo.max_depth == match wire.max_depth {
        MaxDepthWire::Levels(levels) => Some(levels),
        MaxDepthWire::Unlimited => None,
    }
    &&& echo.barrier_mode@ == match wire.barrier_mode {
        BarrierModeWire::Respect => "respect"@,
        BarrierModeWire::Ignore => "ignore"@,
    }
    &&& echo.types@ == wire.types@
    &&& match (echo.filter, wire.filter) {
        (Some(got), Some(sent)) => {
            &&& got.engine@ == sent.engine@
            &&& got.expression@ == sent.expression@
        },
        (None, None) => true,
        _ => false,
    }
}

/// The depth's three states survive the wire: what is written of a depth reads as the same
/// depth, for every number of levels that the wire can carry.
pub proof fn law_depth_survives_the_wire(depth: TenantTraversalDepth)
    requires
        depth.wf(),
        depth matches TenantTraversalDepth::Descendants(levels) ==> levels <= i32::MAX,
    ensures
        depth_read(
            match depth_written(depth) {
                MaxDepthWire::Levels(levels) => Some(levels),
                MaxDepthWire::Unlimited => None,
            },
        ) == depth,
{
}

/// What is read of a depth is always a proper depth.
pub proof fn law_depth_read_is_proper(max_depth: Option<i32>)
    ensures
        depth_read(max_depth).wf(),
{
}

/// An interest that the broker echoes as it was asked for describes the interest that was
/// sent; its filter's engine and expression are those that were sent too.
pub proof fn law_echoed_interest_is_the_one_sent(
    interest: SubscriptionInterest,
    wire: InterestWire,
    echo: InterestResponseWire,
    filter: Option<Filter>,
)
    requires
        interest.tenant_depth.wf(),
        interest.tenant_depth matches TenantTraversalDepth::Descendants(levels) ==> levels
            <= i32::MAX,
        asks_for(wire, interest),
        echoes(echo, wire),
    ensures
        ({
            let described = interest_described(echo, filter);
            &&& described.topic@ == interest.topic@
            &&& described.tenant_id == interest.tenant_id
            &&& described.tenant_depth == interest.tenant_depth
            &&& described.barrier_mode == interest.barrier_mode
            &&& described.types@ == interest.types@
            &&& described.filter == filter
        }),
        match (echo.filter, interest.filter) {
            (Some(got), Some(sent)) => {
                &&& got.engine@ == sent.engine@
                &&& got.expression@ == sent.expression@
            },
            (None, None) => true,
            _ => false,
        },
{
    reveal_strlit("respect");
    reveal_strlit("ignore");
    assert("respect"@.len() != "ignore"@.len());
}

/// Two filters say the same.
pub open spec fn same_filter(a: Filter, b: Filter) -> bool {
    &&& a.engine@ == b.engine@
    &&& a.expression@ == b.expression@
}

/// Two interests say the same.
pub open spec fn same_interest(a: SubscriptionInterest, b: SubscriptionInterest) -> bool {
    &&& a.topic@ == b.topic@
    &&& a.tenant_id == b.tenant_id
    &&& a.tenant_depth == b.tenant_depth
    &&& a.barrier_mode == b.barrier_mode
    &&& a.types@ == b.types@
    &&& match (a.filter, b.filter) {
        (Some(f), Some(g)) => same_filter(f, g),
        (None, None) => true,
        _ => false,
    }
}

/// An interest that was sent and is echoed as it was asked for is read as the interest that was
/// sent, where the rules for filters and interests take it and keep what they are handed. A
/// number of levels beyond what the wire can carry is left out: it does not come back.
pub proof fn law_interest_survives_its_echo<F, B>(
    interest: SubscriptionInterest,
    wire: InterestWire,
    echo: InterestResponseWire,
    new_filter: F,
    build: B,
    r: Result<SubscriptionInterest, EventBrokerError>,
) where
    F: Fn(String, String) -> Result<Filter, EventBrokerError>,
    B: Fn(SubscriptionInterest) -> Result<SubscriptionInterest, EventBrokerError>,

    requires
        interest.tenant_depth.wf(),
        interest.tenant_depth matches TenantTraversalDepth::Descendants(levels) ==> levels
            <= i32::MAX,
        asks_for(wire, interest),
        echoes(echo, wire),
        forall|engine: String, expression: String, o: Result<Filter, EventBrokerError>|
            #[trigger] call_ensures(new_filter, (engine, expression), o)
                && interest.filter is Some && engine@ == interest.filter->0.engine@ && expression@
                == interest.filter->0.expression@ ==> o is Ok && same_filter(
                o->Ok_0,
                interest.filter->0,
            ),
        forall|i: SubscriptionInterest, o: Result<SubscriptionInterest, EventBrokerError>|
            #[trigger] call_ensures(build, (i,), o) && same_interest(i, interest) ==> o is Ok
                && same_interest(o->Ok_0, i),
        interest_reading(echo, new_filter, build, r),
    ensures
        r is Ok,
        same_interest(r->Ok_0, interest),
{
    law_echoed_interest_is_the_one_sent(interest, wire, echo, None);
    match echo.filter {
        None => {
            assert(same_interest(interest_described(echo, None), interest));
        },
        Some(spec) => {
            if r is Err && call_ensures(new_filter, (spec.engine, spec.expression), Err(r->Err_0)) {
                assert(false);
            }
            let filter = choose|filter: Filter| #[trigger]
                call_ensures(new_filter, (spec.engine, spec.expression), Ok(filter))
                    && call_ensures(build, (interest_described(echo, Some(filter)),), r);
            assert(same_interest(interest_described(echo, Some(filter)), interest));
        },
    }
}

/// The number on the wire is the number of levels: as many as are asked for or, beyond what the
/// wire can carry, as many as it can. The tenant alone is no level, and only all descendants are
/// unlimited.
pub proof fn law_levels_are_written_as_they_are(depth: TenantTraversalDepth)
    ensures
        depth_written(depth) is Unlimited <==> depth is UnlimitedDescendants,
        depth is CurrentTenant ==> depth_written(depth)->Levels_0 == 0,
        depth matches TenantTraversalDepth::Descendants(levels) ==> {
            &&& levels <= i32::MAX ==> depth_written(depth)->Levels_0 == levels
            &&& levels > i32::MAX ==> depth_written(depth)->Levels_0 == i32::MAX
        },
{
}

/// The number on the wire is the number of levels that is read: every positive number is that
/// many, every other is the tenant alone, and only none at all is unlimited.
pub proof fn law_levels_are_read_as_they_are(max_depth: Option<i32>)
    ensures
        depth_read(max_depth) is UnlimitedDescendants <==> max_depth is None,
        max_depth matches Some(n) ==> {
            &&& depth_read(max_depth) is Descendants <==> n > 0
            &&& n > 0 ==> depth_read(max_depth)->Descendants_0 == n
            &&& n <= 0 ==> depth_read(max_depth) is CurrentTenant
        },
{
}

/// Barriers are ignored exactly where that is asked for, both ways.
pub proof fn law_barriers_are_ignored_only_on_request(mode: BarrierMode, text: Seq<char>)
    ensures
        barrier_written(mode) is Ignore <==> mode is Ignore,
        barrier_read(text) is Ignore <==> text == "ignore"@,
{
}

/// A partition that is a number keeps it, and any other becomes the first.
pub proof fn law_partitions_keep_their_numbers(partition: i32)
    ensures
        partition >= 0 ==> partition_read(partition) == partition,
        partition < 0 ==> partition_read(partition) == 0,
{
}

/// A body asks for an interest's topic, tenant, types and filter as they are.
pub proof fn law_body_says_what_the_interest_does(wire: InterestWire, interest: SubscriptionInterest)
    requires
        asks_for(wire, interest),
    ensures
        wire.topic@ == interest.topic@,
        wire.tenant_id == interest.tenant_id,
        wire.types@ == interest.types@,
        wire.filter is Some <==> interest.filter is Some,
        interest.filter is Some ==> {
            &&& wire.filter->0.engine@ == interest.filter->0.engine@
            &&& wire.filter->0.expression@ == interest.filter->0.expression@
        },
        wire.barrier_mode is Ignore <==> interest.barrier_mode is Ignore,
        wire.max_depth is Unlimited <==> interest.tenant_depth is UnlimitedDescendants,
        interest.tenant_depth is CurrentTenant ==> wire.max_depth->Levels_0 == 0,
        interest.tenant_depth matches TenantTraversalDepth::Descendants(levels) ==> {
            &&& levels <= i32::MAX ==> wire.max_depth->Levels_0 == levels
            &&& levels > i32::MAX ==> wire.max_depth->Levels_0 == i32::MAX
        },
{
}

/// `i` is what `w` says, with a filter of its own.
pub open spec fn says_the_echo(
    i: SubscriptionInterest,
    w: InterestResponseWire,
    filter: Option<Filter>,
) -> bool {
    &&& i.topic == w.topic
    &&& i.tenant_id == w.tenant_id
    &&& i.types == w.types
    &&& i.filter == filter
    &&& i.barrier_mode is Ignore <==> w.barrier_mode@ == "ignore"@
    &&& w.max_depth is None ==> i.tenant_depth is UnlimitedDescendants
    &&& w.max_depth matches Some(n) ==> {
        &&& n > 0 ==> i.tenant_depth is Descendants && i.tenant_depth->Descendants_0 == n
        &&& n <= 0 ==> i.tenant_depth is CurrentTenant
    }
}

/// What comes of an echo is what the rules for interests say to the interest that the echo names,
/// its filter made by the rules for filters from the engine and the expression as they came; the
/// rules for filters are asked first, and their refusal is the caller's.
pub proof fn law_echo_is_put_to_the_rules<F, B>(
    w: InterestResponseWire,
    new_filter: F,
    build: B,
    r: Result<SubscriptionInterest, EventBrokerError>,
) where
    F: Fn(String, String) -> Result<Filter, EventBrokerError>,
    B: Fn(SubscriptionInterest) -> Result<SubscriptionInterest, EventBrokerError>,

    requires
        interest_reading(w, new_filter, build, r),
    ensures
        w.filter is None ==> exists|i: SubscriptionInterest|
            says_the_echo(i, w, None) && #[trigger] call_ensures(build, (i,), r),
        w.filter matches Some(spec) ==> {
            ||| r is Err && call_ensures(
                new_filter,
                (spec.engine, spec.expression),
                Err(r->Err_0),
            )
            ||| exists|filter: Filter, i: SubscriptionInterest|
                {
                    &&& #[trigger] call_ensures(
                        new_filter,
                        (spec.engine, spec.expression),
                        Ok(filter),
                    )
                    &&& says_the_echo(i, w, Some(filter))
                    &&& #[trigger] call_ensures(build, (i,), r)
                }
        },
{
    match w.filter {
        None => {
            let i = interest_described(w, None);
            assert(says_the_echo(i, w, None) && call_ensures(build, (i,), r));
        },
        Some(spec) => {
            if !(r is Err && call_ensures(
                new_filter,
                (spec.engine, spec.expression),
                Err(r->Err_0),
            )) {
                let filter = choose|filter: Filter| #[trigger]
                    call_ensures(new_filter, (spec.engine, spec.expression), Ok(filter))
                        && call_ensures(build, (interest_described(w, Some(filter)),), r);
                let i = interest_described(w, Some(filter));
                assert(says_the_echo(i, w, Some(filter)) && call_ensures(build, (i,), r));
            }
        },
    }
}

/// A list is read whole or not at all: as many results as there are bodies, each that of the body
/// at its place; or the refusal of one body, before which every body could be read.
pub proof fn law_lists_are_read_whole_or_refused<W, T>(
    ws: Seq<W>,
    rel: spec_fn(W, Result<T, EventBrokerError>) -> bool,
    r: Result<Seq<T>, EventBrokerError>,
)
    requires
        collected(ws, rel, r),
    ensures
        r matches Ok(ts) ==> ts.len() == ws.len() && forall|i: int|
            0 <= i < ws.len() ==> rel(ws[i], Ok(#[trigger] ts[i])),
        r matches Err(e) ==> exists|k: int|
            {
                &&& 0 <= k < ws.len()
                &&& rel(#[trigger] ws[k], Err(e))
                &&& forall|i: int| 0 <= i < k ==> can_succeed(rel, #[trigger] ws[i])
            },
        forall|w: W| #[trigger] can_succeed(rel, w) <==> exists|t: T| rel(w, Ok(t)),
{
}

/// The list that a call gave is the sequence of what it holds, and its refusal stays one.
pub proof fn law_lists_are_what_they_hold<T>(r: Result<Vec<T>, EventBrokerError>)
    ensures
        listed(r) is Ok <==> r is Ok,
        r is Ok ==> listed(r)->Ok_0 == r->Ok_0@,
        r is Err ==> listed(r)->Err_0 == r->Err_0,
{
}

/// A group is read exactly where its id is an anonymous group's; it then says what its body says,
/// and otherwise the refusal is always the same.
pub proof fn law_group_says_what_its_body_does(
    w: ConsumerGroupWire,
    r: Result<ConsumerGroup, EventBrokerError>,
)
    requires
        group_reading(w, r),
    ensures
        r is Ok <==> ConsumerGroupId::reading(w.id@) is Some,
        r is Ok ==> {
            &&& Some(r->Ok_0.id) == ConsumerGroupId::reading(w.id@)
            &&& r->Ok_0.tenant_id == w.tenant_id
            &&& r->Ok_0.owner_principal_id == w.owner_principal_id
            &&& r->Ok_0.kind is Named <==> w.kind is Named
            &&& r->Ok_0.description == w.description
            &&& r->Ok_0.created_at == w.created_at
        },
        r is Err ==> r->Err_0 is Transport && r->Err_0->Transport_0@
            == "broker returned a non-anonymous consumer group id; only anonymous groups are supported"@,
{
}

/// The same of a group whose id was read elsewhere.
pub proof fn law_group_with_its_id_says_what_its_body_does(
    w: ConsumerGroupWire,
    id: Option<ConsumerGroupId>,
    r: Result<ConsumerGroup, EventBrokerError>,
)
    requires
        group_read(w, id, r),
    ensures
        r is Ok <==> id is Some,
        r is Ok ==> {
            &&& r->Ok_0.id == id->0
            &&& r->Ok_0.tenant_id == w.tenant_id
            &&& r->Ok_0.owner_principal_id == w.owner_principal_id
            &&& r->Ok_0.kind is Named <==> w.kind is Named
            &&& r->Ok_0.description == w.description
            &&& r->Ok_0.created_at == w.created_at
        },
        r is Err ==> r->Err_0 is Transport && r->Err_0->Transport_0@
            == "broker returned a non-anonymous consumer group id; only anonymous groups are supported"@,
{
}

/// An assigned partition is read exactly where its topic is a valid id, which it keeps.
pub proof fn law_assigned_partition_says_what_its_body_does(
    w: AssignedPartitionWire,
    r: Result<PartitionAssignment, EventBrokerError>,
)
    requires
        assignment_reading(w, r),
    ensures
        r is Ok <==> crate::outside::gts_instance_refusal(w.topic@) is None,
        r is Ok ==> {
            &&& r->Ok_0.topic@ == w.topic@
            &&& w.partition >= 0 ==> r->Ok_0.partition == w.partition
            &&& w.partition < 0 ==> r->Ok_0.partition == 0
        },
        r is Err ==> r->Err_0 is Transport && r->Err_0->Transport_0@
            == "subscription carried an invalid topic: "@ + crate::outside::gts_instance_refusal(
            w.topic@,
        )->0,
{
}

/// A subscription is read exactly where all its topics are valid and its group is an anonymous
/// one. It then has the partitions of its body, each at its place. Otherwise the first topic that
/// is not valid is told or, where all are, the group.
pub proof fn law_subscription_says_what_its_body_does(
    w: SubscriptionWire,
    r: Result<Subscription, EventBrokerError>,
)
    requires
        subscription_reading(w, r),
    ensures
        r is Ok <==> ConsumerGroupId::reading(w.consumer_group@) is Some && forall|i: int|
            0 <= i < w.assigned@.len() ==> crate::outside::gts_instance_refusal(
                #[trigger] w.assigned@[i].topic@,
            ) is None,
        r matches Ok(s) ==> {
            &&& s.id.0 == w.id
            &&& Some(s.consumer_group) == ConsumerGroupId::reading(w.consumer_group@)
            &&& s.topology_version == w.topology_version
            &&& s.expires_at == w.expires_at
            &&& s.assigned@.len() == w.assigned@.len()
            &&& forall|i: int|
                0 <= i < w.assigned@.len() ==> {
                    &&& (#[trigger] s.assigned@[i]).topic@ == w.assigned@[i].topic@
                    &&& w.assigned@[i].partition >= 0 ==> s.assigned@[i].partition
                        == w.assigned@[i].partition
                    &&& w.assigned@[i].partition < 0 ==> s.assigned@[i].partition == 0
                }
        },
        r matches Err(e) ==> {
            ||| e is Transport && e->Transport_0@
                == "broker returned a non-anonymous consumer group id; only anonymous groups are supported"@
                && forall|i: int|
                0 <= i < w.assigned@.len() ==> crate::outside::gts_instance_refusal(
                    #[trigger] w.assigned@[i].topic@,
                ) is None
            ||| exists|k: int|
                {
                    &&& 0 <= k < w.assigned@.len()
                    &&& crate::outside::gts_instance_refusal(
                        #[trigger] w.assigned@[k].topic@,
                    ) is Some
                    &&& forall|i: int|
                        0 <= i < k ==> crate::outside::gts_instance_refusal(
                            #[trigger] w.assigned@[i].topic@,
                        ) is None
                    &&& e is Transport && e->Transport_0@
                        == "subscription carried an invalid topic: "@
                        + crate::outside::gts_instance_refusal(w.assigned@[k].topic@)->0
                }
        },
{
    let ws = w.assigned@;
    let rel = |a: AssignedPartitionWire, o: Result<PartitionAssignment, EventBrokerError>|
        assignment_reading(a, o);
    match r {
        Ok(s) => {
            lemma_assigned_are_readable(ws, s.assigned@);
            assert forall|i: int| 0 <= i < ws.len() implies {
                &&& (#[trigger] s.assigned@[i]).topic@ == ws[i].topic@
                &&& ws[i].partition >= 0 ==> s.assigned@[i].partition == ws[i].partition
                &&& ws[i].partition < 0 ==> s.assigned@[i].partition == 0
            } by {
                assert(rel(ws[i], Ok(s.assigned@[i])));
            }
        },
        Err(e) => {
            if !assignments_readable(ws) {
                let k = choose|k: int|
                    {
                        &&& 0 <= k < ws.len()
                        &&& rel(#[trigger] ws[k], Err(e))
                        &&& forall|i: int| 0 <= i < k ==> can_succeed(rel, #[trigger] ws[i])
                    };
                assert(rel(ws[k], Err(e)));
                assert forall|i: int| 0 <= i < k implies crate::outside::gts_instance_refusal(
                    #[trigger] ws[i].topic@,
                ) is None by {
                    assert(can_succeed(rel, ws[i]));
                }
                assert(crate::outside::gts_instance_refusal(ws[k].topic@) is Some);
            }
        },
    }
}

/// An event type is read exactly where its id and its topic are valid; it then says what its body
/// says. An id that is not valid is told before a topic that is not.
pub proof fn law_event_type_says_what_its_body_does(
    w: EventTypeWire,
    r: Result<EventType, EventBrokerError>,
)
    requires
        event_type_reading(w, r),
    ensures
        r is Ok <==> crate::outside::gts_type_refusal(w.id@) is None
            && crate::outside::gts_instance_refusal(w.topic@) is None,
        r is Ok ==> {
            &&& r->Ok_0.id@ == w.id@
            &&& r->Ok_0.topic@ == w.topic@
            &&& r->Ok_0.description == w.description
            &&& r->Ok_0.allowed_subject_types == w.allowed_subject_types
            &&& r->Ok_0.partition_key == w.partition_key
            &&& r->Ok_0.data_schema == w.data_schema
        },
        r is Err ==> r->Err_0 is Transport && r->Err_0->Transport_0@ == if let Some(why) =
            crate::outside::gts_type_refusal(w.id@) {
            "event type carried an invalid id: "@ + why
        } else {
            "event type carried an invalid topic: "@ + crate::outside::gts_instance_refusal(
                w.topic@,
            )->0
        },
{
}

/// A topic is read exactly where its id is valid; its description is that of its body, or empty
/// where there is none, and its retention is what was read of it.
pub proof fn law_topic_says_what_its_body_does<D, P>(
    w: TopicWire,
    duration: P,
    r: Result<Topic<D>, EventBrokerError>,
) where P: Fn(String) -> Option<D>
    requires
        topic_reading(w, duration, r),
    ensures
        r is Ok <==> crate::outside::gts_instance_refusal(w.id@) is None,
        r is Ok ==> {
            &&& r->Ok_0.id@ == w.id@
            &&& w.description is Some ==> r->Ok_0.description == w.description->0
            &&& w.description is None ==> r->Ok_0.description@.len() == 0
            &&& w.retention is Some ==> call_ensures(
                duration,
                (w.retention->0,),
                r->Ok_0.retention,
            )
            &&& w.retention is None ==> r->Ok_0.retention is None
        },
        r is Err ==> r->Err_0 is Transport && r->Err_0->Transport_0@
            == "topic carried an invalid id: "@ + crate::outside::gts_instance_refusal(w.id@)->0,
{
}

/// A topic that is described as its body is has its description and its retention.
pub proof fn law_described_topic_keeps_its_words<D, P>(w: TopicWire, duration: P, topic: Topic<D>)
 where P: Fn(String) -> Option<D>
    requires
        topic_described(w, duration, topic),
    ensures
        w.description is Some ==> topic.description == w.description->0,
        w.description is None ==> topic.description@.len() == 0,
        w.retention is Some ==> call_ensures(duration, (w.retention->0,), topic.retention),
        w.retention is None ==> topic.retention is None,
{
}

} // verus!
