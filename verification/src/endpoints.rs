//! The requests that the broker's endpoints are sent.
use vstd::prelude::*;
use vstd::string::*;

use crate::api::{
    JoinRequest, ProducerMode, SeekPosition, SubscriptionInterest, TenantTraversalDepth,
};
use crate::client::{RestBroker, StreamTransport, V1};
use crate::convert::interest_to_wire;
use crate::error::EventBrokerError;
use crate::exchange::{bare_request, Method, OutgoingRequest, SecurityContext};
use crate::ids::{ConsumerGroupId, ProducerId, SubscriptionId};
use crate::models::{ConsumerGroupQuery, Event, PartitionRange};
use crate::outside::write_uuid;
use crate::query::{consumer_group_params, query_string, segment_params, with_query};
use crate::text::{decimal_text, joined};
use crate::wire::{InterestWire, JoinSubscriptionWire, ProducerModeWire, RegisterProducerWire};

verus! {

/// `r` is a plain request: nothing but a method, an address, the caller's credential and a body.
pub open spec fn plain_request<S, B>(
    r: OutgoingRequest<S, B>,
    method: Method,
    url: Seq<char>,
    ctx: SecurityContext<S>,
    body: B,
) -> bool {
    &&& r.method == method
    &&& r.url@ == url
    &&& r.bearer == ctx.bearer()
    &&& r.headers@.len() == 0
    &&& r.body == body
}

/// The path of the producer that has this id.
pub open spec fn producer_path(id: ProducerId) -> Seq<char> {
    V1@ + "/producers/"@ + crate::uuids::uuid_text(id.0)
}

/// The path of the consumer group that has this id.
pub open spec fn consumer_group_path(id: ConsumerGroupId) -> Seq<char> {
    V1@ + "/consumer-groups/"@ + id.gts_text()
}

/// The path of the subscription that has this id.
pub open spec fn subscription_path(id: SubscriptionId) -> Seq<char> {
    V1@ + "/subscriptions/"@ + crate::uuids::uuid_text(id.0)
}

/// The path of a subscription's delivery stream in this framing. A framing fixes the endpoint
/// alone; that the subscription is named by the parameter `subscription_id` is this library's
/// choice.
pub open spec fn stream_path(framing: StreamTransport, id: SubscriptionId) -> Seq<char> {
    V1@ + framing.endpoint_text() + "?subscription_id="@ + crate::uuids::uuid_text(id.0)
}

/// `r` opens a subscription's delivery stream in this framing.
pub open spec fn opens_stream<S>(
    r: OutgoingRequest<S, ()>,
    base: Seq<char>,
    framing: StreamTransport,
    ctx: SecurityContext<S>,
    id: SubscriptionId,
) -> bool {
    &&& r.method == Method::Get
    &&& r.url@ == crate::client::address(base, stream_path(framing, id))
    &&& r.bearer == ctx.bearer()
    &&& crate::outside::pair_texts(r.headers@) == seq![("accept"@, framing.media_type_text())]
}

/// The two framings ask for the same stream: their requests differ in the endpoint and in the
/// media type, and in nothing else.
pub proof fn law_framings_ask_for_the_same_stream<S>(
    base: Seq<char>,
    ctx: SecurityContext<S>,
    id: SubscriptionId,
    multipart: OutgoingRequest<S, ()>,
    sse: OutgoingRequest<S, ()>,
)
    requires
        opens_stream(multipart, base, StreamTransport::Multipart, ctx, id),
        opens_stream(sse, base, StreamTransport::Sse, ctx, id),
    ensures
        multipart.method == sse.method,
        multipart.bearer == sse.bearer,
        ({
            let root = crate::text::without_trailing_slashes(base) + V1@;
            let query = "?subscription_id="@ + crate::uuids::uuid_text(id.0);
            &&& multipart.url@ == root + "/events:stream"@ + query
            &&& sse.url@ == root + "/events:sse"@ + query
        }),
        crate::outside::pair_texts(multipart.headers@) == seq![("accept"@, "multipart/mixed"@)],
        crate::outside::pair_texts(sse.headers@) == seq![("accept"@, "text/event-stream"@)],
{
    let root = crate::text::without_trailing_slashes(base) + V1@;
    let query = "?subscription_id="@ + crate::uuids::uuid_text(id.0);
    assert(multipart.url@ =~= root + "/events:stream"@ + query);
    assert(sse.url@ =~= root + "/events:sse"@ + query);
}

/// A session timeout as an ISO 8601 duration in whole seconds.
pub open spec fn timeout_text(secs: u64) -> Seq<char> {
    "PT"@ + crate::text::decimal(secs as nat) + "S"@
}

/// `body` asks for what `req` does.
pub open spec fn join_body(req: JoinRequest, body: JoinSubscriptionWire) -> bool {
    &&& body.consumer_group@ == req.group.gts_text()
    &&& body.client_agent == req.client_agent
    &&& body.interests@.len() == req.interests@.len()
    &&& forall|i: int|
        0 <= i < req.interests@.len() ==> crate::convert::asks_for(
            #[trigger] body.interests@[i],
            req.interests@[i],
        )
    &&& match req.session_timeout {
        Some(timeout) => body.session_timeout is Some && body.session_timeout->0@
            == timeout_text(timeout.secs),
        None => body.session_timeout is None,
    }
}

/// The bodies of several interests.
fn interests_to_wire(interests: &Vec<SubscriptionInterest>) -> (r: Vec<InterestWire>)
    ensures
        r@.len() == interests@.len(),
        forall|i: int|
            0 <= i < interests@.len() ==> crate::convert::asks_for(
                #[trigger] r@[i],
                interests@[i],
            ),
{
    let mut r: Vec<InterestWire> = Vec::new();
    for i in 0..interests.len()
        invariant
            r@.len() == i,
            forall|j: int|
                0 <= j < i ==> crate::convert::asks_for(#[trigger] r@[j], interests@[j]),
    {
        r.push(interest_to_wire(&interests[i]));
    }
    r
}

impl<H> RestBroker<H> {
    /// A plain request for a path.
    fn plain<'a, S, B>(
        &self,
        ctx: &'a SecurityContext<S>,
        method: Method,
        path: &str,
        body: B,
    ) -> (r: OutgoingRequest<'a, S, B>)
        ensures
            plain_request(
                r,
                method,
                crate::client::address(self.base(), path@),
                *ctx,
                body,
            ),
    {
        self.authed(bare_request(method, self.url(path), body), ctx)
    }

    /// Registers a producer. A stateless producer is not registered and has no id to return.
    pub fn register_producer<'a, S>(
        &self,
        ctx: &'a SecurityContext<S>,
        mode: ProducerMode,
        client_agent: &str,
    ) -> (r: Result<OutgoingRequest<'a, S, RegisterProducerWire>, EventBrokerError>)
        ensures
            mode == ProducerMode::Stateless ==> {
                &&& r matches Err(EventBrokerError::InvalidProducerOptions { detail, instance })
                &&& detail@ == "a stateless producer is not registered"@
                &&& instance@.len() == 0
            },
            mode != ProducerMode::Stateless ==> {
                &&& r is Ok
                &&& plain_request(
                    r->Ok_0,
                    Method::Post,
                    crate::client::address(self.base(), V1@ + "/producers"@),
                    *ctx,
                    r->Ok_0.body,
                )
                &&& r->Ok_0.body.mode == (if mode == ProducerMode::Chained {
                    ProducerModeWire::Chained
                } else {
                    ProducerModeWire::Monotonic
                })
                &&& r->Ok_0.body.client_agent@ == client_agent@
            },
    {
        let mode = match mode {
            ProducerMode::Chained => ProducerModeWire::Chained,
            ProducerMode::Monotonic => ProducerModeWire::Monotonic,
            ProducerMode::Stateless => {
                return Err(
                    EventBrokerError::InvalidProducerOptions {
                        detail: "a stateless producer is not registered".to_owned(),
                        instance: String::new(),
                    },
                );
            },
        };
        let body = RegisterProducerWire { mode, client_agent: client_agent.to_owned() };
        let path = V1.to_owned().concat("/producers");
        Ok(self.plain(ctx, Method::Post, path.as_str(), body))
    }

    /// Publishes one event.
    pub fn publish<'a, S>(&self, ctx: &'a SecurityContext<S>, event: &'a Event) -> (r:
        OutgoingRequest<'a, S, &'a Event>)
        ensures
            plain_request(
                r,
                Method::Post,
                crate::client::address(self.base(), V1@ + "/events"@),
                *ctx,
                event,
            ),
    {
        let path = V1.to_owned().concat("/events");
        self.plain(ctx, Method::Post, path.as_str(), event)
    }

    /// Publishes one event and asks the broker to answer once it is stored: the request of
    /// [`RestBroker::publish`] with the header `Sync-Wait: true`.
    pub fn publish_sync<'a, S>(&self, ctx: &'a SecurityContext<S>, event: &'a Event) -> (r:
        OutgoingRequest<'a, S, &'a Event>)
        ensures
            r.method == Method::Post,
            r.url@ == crate::client::address(self.base(), V1@ + "/events"@),
            r.bearer == ctx.bearer(),
            crate::outside::pair_texts(r.headers@) == seq![("Sync-Wait"@, "true"@)],
            r.body == event,
    {
        let path = V1.to_owned().concat("/events");
        let mut r = self.plain(ctx, Method::Post, path.as_str(), event);
        r.headers.push(("Sync-Wait".to_owned(), "true".to_owned()));
        assert(crate::outside::pair_texts(r.headers@) =~= seq![("Sync-Wait"@, "true"@)]);
        r
    }

    /// Publishes several events, all or none.
    pub fn publish_batch<'a, S>(&self, ctx: &'a SecurityContext<S>, events: &'a [Event]) -> (r:
        OutgoingRequest<'a, S, &'a [Event]>)
        ensures
            plain_request(
                r,
                Method::Post,
                crate::client::address(self.base(), V1@ + "/events:batch"@),
                *ctx,
                events,
            ),
    {
        let path = V1.to_owned().concat("/events:batch");
        self.plain(ctx, Method::Post, path.as_str(), events)
    }

    /// Asks how far a producer's chains have come.
    pub fn get_producer_cursors<'a, S>(
        &self,
        ctx: &'a SecurityContext<S>,
        producer_id: ProducerId,
    ) -> (r: OutgoingRequest<'a, S, ()>)
        ensures
            plain_request(
                r,
                Method::Get,
                crate::client::address(self.base(), producer_path(producer_id) + "/cursors"@),
                *ctx,
                (),
            ),
    {
        let id = write_uuid(producer_id.0);
        let path = joined(V1, "/producers/", id.as_str()).concat("/cursors");
        self.plain(ctx, Method::Get, path.as_str(), ())
    }

    /// Resets a producer's chains; `scope`, the body, says which.
    pub fn reset_producer_chain<'a, S, R>(
        &self,
        ctx: &'a SecurityContext<S>,
        producer_id: ProducerId,
        scope: R,
    ) -> (r: OutgoingRequest<'a, S, R>)
        ensures
            plain_request(
                r,
                Method::Post,
                crate::client::address(self.base(), producer_path(producer_id) + ":reset"@),
                *ctx,
                scope,
            ),
    {
        let id = write_uuid(producer_id.0);
        let path = joined(V1, "/producers/", id.as_str()).concat(":reset");
        self.plain(ctx, Method::Post, path.as_str(), scope)
    }

    /// Creates a consumer group; `req`, the body, describes it.
    pub fn create_consumer_group<'a, S, R>(&self, ctx: &'a SecurityContext<S>, req: R) -> (r:
        OutgoingRequest<'a, S, R>)
        ensures
            plain_request(
                r,
                Method::Post,
                crate::client::address(self.base(), V1@ + "/consumer-groups"@),
                *ctx,
                req,
            ),
    {
        let path = V1.to_owned().concat("/consumer-groups");
        self.plain(ctx, Method::Post, path.as_str(), req)
    }

    /// Asks for one consumer group.
    pub fn get_consumer_group<'a, S>(
        &self,
        ctx: &'a SecurityContext<S>,
        id: &ConsumerGroupId,
    ) -> (r: OutgoingRequest<'a, S, ()>)
        ensures
            plain_request(
                r,
                Method::Get,
                crate::client::address(self.base(), consumer_group_path(*id)),
                *ctx,
                (),
            ),
    {
        let id = id.to_gts();
        let path = joined(V1, "/consumer-groups/", id.as_str());
        self.plain(ctx, Method::Get, path.as_str(), ())
    }

    /// Asks for one page of consumer groups.
    pub fn list_consumer_groups<'a, S>(
        &self,
        ctx: &'a SecurityContext<S>,
        query: ConsumerGroupQuery,
    ) -> (r: OutgoingRequest<'a, S, ()>)
        ensures
            plain_request(
                r,
                Method::Get,
                crate::client::address(
                    self.base(),
                    crate::query::queried(
                        V1@ + "/consumer-groups"@,
                        crate::outside::form_text(crate::query::consumer_group_pairs(query)),
                    ),
                ),
                *ctx,
                (),
            ),
    {
        let qs = query_string(&consumer_group_params(query));
        let path = with_query(V1.to_owned().concat("/consumer-groups"), qs.as_str());
        self.plain(ctx, Method::Get, path.as_str(), ())
    }

    /// Deletes a consumer group.
    pub fn delete_consumer_group<'a, S>(
        &self,
        ctx: &'a SecurityContext<S>,
        id: &ConsumerGroupId,
    ) -> (r: OutgoingRequest<'a, S, ()>)
        ensures
            plain_request(
                r,
                Method::Delete,
                crate::client::address(self.base(), consumer_group_path(*id)),
                *ctx,
                (),
            ),
    {
        let id = id.to_gts();
        let path = joined(V1, "/consumer-groups/", id.as_str());
        self.plain(ctx, Method::Delete, path.as_str(), ())
    }

    /// Joins a consumer group.
    pub fn join<'a, S>(&self, ctx: &'a SecurityContext<S>, req: JoinRequest) -> (r:
        OutgoingRequest<'a, S, JoinSubscriptionWire>)
        ensures
            plain_request(
                r,
                Method::Post,
                crate::client::address(self.base(), V1@ + "/subscriptions"@),
                *ctx,
                r.body,
            ),
            join_body(req, r.body),
    {
        let interests = interests_to_wire(&req.interests);
        let session_timeout = match req.session_timeout {
            Some(timeout) => Some(joined("PT", decimal_text(timeout.secs).as_str(), "S")),
            None => None,
        };
        let body = JoinSubscriptionWire {
            consumer_group: req.group.to_gts(),
            client_agent: req.client_agent,
            interests,
            session_timeout,
        };
        let path = V1.to_owned().concat("/subscriptions");
        self.plain(ctx, Method::Post, path.as_str(), body)
    }

    /// Asks for one subscription.
    pub fn get_subscription<'a, S>(&self, ctx: &'a SecurityContext<S>, id: SubscriptionId) -> (r:
        OutgoingRequest<'a, S, ()>)
        ensures
            plain_request(
                r,
                Method::Get,
                crate::client::address(self.base(), subscription_path(id)),
                *ctx,
                (),
            ),
    {
        let id = write_uuid(id.0);
        let path = joined(V1, "/subscriptions/", id.as_str());
        self.plain(ctx, Method::Get, path.as_str(), ())
    }

    /// Leaves a consumer group.
    pub fn leave<'a, S>(&self, ctx: &'a SecurityContext<S>, id: SubscriptionId) -> (r:
        OutgoingRequest<'a, S, ()>)
        ensures
            plain_request(
                r,
                Method::Delete,
                crate::client::address(self.base(), subscription_path(id)),
                *ctx,
                (),
            ),
    {
        let id = write_uuid(id.0);
        let path = joined(V1, "/subscriptions/", id.as_str());
        self.plain(ctx, Method::Delete, path.as_str(), ())
    }

    /// Opens the delivery stream of a subscription, with the framing of this client.
    pub fn stream<'a, S>(&self, ctx: &'a SecurityContext<S>, id: SubscriptionId) -> (r:
        OutgoingRequest<'a, S, ()>)
        ensures
            opens_stream(r, self.base(), self.transport(), *ctx, id),
    {
        let framing = self.framing();
        let id = write_uuid(id.0);
        let path = joined(V1, framing.endpoint(), "?subscription_id=").concat(id.as_str());
        let mut r = self.plain(ctx, Method::Get, path.as_str(), ());
        r.headers.push(("accept".to_owned(), framing.media_type().to_owned()));
        assert(crate::outside::pair_texts(r.headers@) =~= seq![
            ("accept"@, self.transport().media_type_text()),
        ]);
        r
    }

    /// Takes positions in a subscription's partitions.
    pub fn seek<'a, S>(
        &self,
        ctx: &'a SecurityContext<S>,
        id: SubscriptionId,
        positions: &'a [SeekPosition],
    ) -> (r: OutgoingRequest<'a, S, &'a [SeekPosition]>)
        ensures
            plain_request(
                r,
                Method::Post,
                crate::client::address(self.base(), subscription_path(id) + ":seek"@),
                *ctx,
                positions,
            ),
    {
        let id = write_uuid(id.0);
        let path = joined(V1, "/subscriptions/", id.as_str()).concat(":seek");
        self.plain(ctx, Method::Post, path.as_str(), positions)
    }

    /// Asks for the manifest of one partition of a topic.
    pub fn list_topic_segments<'a, S>(
        &self,
        ctx: &'a SecurityContext<S>,
        topic: &str,
        partition: u32,
        range: PartitionRange,
    ) -> (r: OutgoingRequest<'a, S, ()>)
        ensures
            plain_request(
                r,
                Method::Get,
                crate::client::address(
                    self.base(),
                    V1@ + "/topics/segments?"@ + crate::outside::form_text(
                        crate::query::segment_pairs(topic@, partition, range),
                    ),
                ),
                *ctx,
                (),
            ),
    {
        let qs = query_string(&segment_params(topic, partition, range));
        let path = joined(V1, "/topics/segments?", qs.as_str());
        self.plain(ctx, Method::Get, path.as_str(), ())
    }
}

/// A plain request has its method, its address, the caller's credential and its body, and no
/// headers.
pub proof fn law_plain_requests_carry_nothing_else<S, B>(
    r: OutgoingRequest<S, B>,
    method: Method,
    url: Seq<char>,
    ctx: SecurityContext<S>,
    body: B,
)
    requires
        plain_request(r, method, url, ctx, body),
    ensures
        r.method == method,
        r.url@ == url,
        r.bearer is Some <==> ctx.bearer_token is Some,
        ctx.bearer_token is Some ==> *r.bearer->0 == ctx.bearer_token->0,
        r.headers@.len() == 0,
        r.body == body,
{
}

/// Every resource is addressed by its own id: the path of one names the uuid that it has.
pub proof fn law_paths_name_their_resources(id: u128)
    ensures
        producer_path(ProducerId(id)) == "/event-broker/v1"@ + "/producers/"@
            + crate::uuids::uuid_text(id),
        consumer_group_path(ConsumerGroupId(id)) == "/event-broker/v1"@ + "/consumer-groups/"@ + (
        "gts.cf.core.events.consumer_group.v1~"@ + crate::uuids::uuid_text(id)),
        subscription_path(SubscriptionId(id)) == "/event-broker/v1"@ + "/subscriptions/"@
            + crate::uuids::uuid_text(id),
{
}

/// Resources that differ are addressed differently.
pub proof fn law_paths_tell_resources_apart(a: u128, b: u128)
    requires
        a != b,
    ensures
        producer_path(ProducerId(a)) != producer_path(ProducerId(b)),
        consumer_group_path(ConsumerGroupId(a)) != consumer_group_path(ConsumerGroupId(b)),
        subscription_path(SubscriptionId(a)) != subscription_path(SubscriptionId(b)),
{
    lemma_tails_tell_apart(V1@ + "/producers/"@, a, b);
    lemma_tails_tell_apart(V1@ + "/subscriptions/"@, a, b);
    let head = V1@ + "/consumer-groups/"@ + crate::ids::CONSUMER_GROUP_TYPE@;
    lemma_tails_tell_apart(head, a, b);
    assert(consumer_group_path(ConsumerGroupId(a)) =~= head + crate::uuids::uuid_text(a));
    assert(consumer_group_path(ConsumerGroupId(b)) =~= head + crate::uuids::uuid_text(b));
}

/// Behind the same text, different uuids make different texts.
proof fn lemma_tails_tell_apart(head: Seq<char>, a: u128, b: u128)
    requires
        a != b,
    ensures
        head + crate::uuids::uuid_text(a) != head + crate::uuids::uuid_text(b),
{
    let x = head + crate::uuids::uuid_text(a);
    let y = head + crate::uuids::uuid_text(b);
    assert(x.skip(head.len() as int) =~= crate::uuids::uuid_text(a));
    assert(y.skip(head.len() as int) =~= crate::uuids::uuid_text(b));
    crate::uuids::law_text_spells_its_uuid(a);
    crate::uuids::law_text_spells_its_uuid(b);
}

/// A session timeout is told in whole seconds, as an ISO 8601 duration.
pub proof fn law_timeouts_are_told_in_seconds(secs: u64)
    ensures
        timeout_text(secs) == seq!['P', 'T'] + crate::text::decimal(secs as nat) + seq!['S'],
{
    reveal_strlit("PT");
    reveal_strlit("S");
    assert("PT"@ =~= seq!['P', 'T']);
    assert("S"@ =~= seq!['S']);
}

/// Joining asks for every interest, each at its place and with its own depth, under the group and
/// the agent that are given; a timeout is told exactly where there is one.
pub proof fn law_join_asks_for_every_interest(req: JoinRequest, body: JoinSubscriptionWire)
    requires
        join_body(req, body),
    ensures
        body.consumer_group@ == "gts.cf.core.events.consumer_group.v1~"@ + crate::uuids::uuid_text(
            req.group.0,
        ),
        body.client_agent@ == req.client_agent@,
        body.session_timeout is Some <==> req.session_timeout is Some,
        req.session_timeout is Some ==> body.session_timeout->0@ == seq!['P', 'T']
            + crate::text::decimal(req.session_timeout->0.secs as nat) + seq!['S'],
        body.interests@.len() == req.interests@.len(),
        forall|i: int|
            0 <= i < req.interests@.len() ==> {
                let sent = #[trigger] body.interests@[i];
                let asked = req.interests@[i];
                &&& sent.topic@ == asked.topic@
                &&& sent.tenant_id == asked.tenant_id
                &&& sent.types@ == asked.types@
                &&& sent.barrier_mode is Ignore <==> asked.barrier_mode is Ignore
                &&& sent.filter is Some <==> asked.filter is Some
                &&& asked.filter is Some ==> sent.filter->0.engine@ == asked.filter->0.engine@
                    && sent.filter->0.expression@ == asked.filter->0.expression@
                &&& sent.max_depth is Unlimited <==> asked.tenant_depth is UnlimitedDescendants
                &&& asked.tenant_depth is CurrentTenant ==> sent.max_depth->Levels_0 == 0
                &&& asked.tenant_depth matches TenantTraversalDepth::Descendants(levels) ==> {
                    &&& levels <= i32::MAX ==> sent.max_depth->Levels_0 == levels
                    &&& levels > i32::MAX ==> sent.max_depth->Levels_0 == i32::MAX
                }
            },
{
    if req.session_timeout is Some {
        law_timeouts_are_told_in_seconds(req.session_timeout->0.secs);
    }
    assert forall|i: int| 0 <= i < req.interests@.len() implies crate::convert::asks_for(
        #[trigger] body.interests@[i],
        req.interests@[i],
    ) by {}
}

/// Events go to their endpoint one by one and in batches, whole; only an event that is to be
/// waited for says so.
pub proof fn law_events_go_to_their_endpoints<H, S>(
    broker: RestBroker<H>,
    ctx: SecurityContext<S>,
    event: Event,
    events: &[Event],
    one: OutgoingRequest<S, &Event>,
    waited: OutgoingRequest<S, &Event>,
    batch: OutgoingRequest<S, &[Event]>,
)
    requires
        call_ensures(RestBroker::<H>::publish::<S>, (&broker, &ctx, &event), one),
        call_ensures(RestBroker::<H>::publish_sync::<S>, (&broker, &ctx, &event), waited),
        call_ensures(RestBroker::<H>::publish_batch::<S>, (&broker, &ctx, events), batch),
    ensures
        one.method is Post && waited.method is Post && batch.method is Post,
        one.url@ == crate::client::address(broker.base(), "/event-broker/v1"@ + "/events"@),
        waited.url@ == one.url@,
        batch.url@ == crate::client::address(
            broker.base(),
            "/event-broker/v1"@ + "/events:batch"@,
        ),
        *one.body == event && *waited.body == event && batch.body == events,
        one.headers@.len() == 0 && batch.headers@.len() == 0,
        waited.headers@.len() == 1 && waited.headers@[0].0@ == "Sync-Wait"@
            && waited.headers@[0].1@ == "true"@,
        one.bearer == ctx.bearer() && waited.bearer == ctx.bearer() && batch.bearer
            == ctx.bearer(),
{
    crate::outside::law_pairs_keep_their_texts(waited.headers@);
    assert(crate::outside::pair_texts(waited.headers@)[0] == ("Sync-Wait"@, "true"@));
}

/// A producer is registered exactly where it has a state to keep, with the mode and the agent that
/// are given.
pub proof fn law_producers_with_a_state_are_registered<H, S>(
    broker: RestBroker<H>,
    ctx: SecurityContext<S>,
    mode: ProducerMode,
    agent: &str,
    r: Result<OutgoingRequest<S, RegisterProducerWire>, EventBrokerError>,
)
    requires
        call_ensures(RestBroker::<H>::register_producer::<S>, (&broker, &ctx, mode, agent), r),
    ensures
        r is Err <==> mode is Stateless,
        r is Err ==> r->Err_0 is InvalidProducerOptions,
        r matches Ok(request) ==> {
            &&& request.method is Post
            &&& request.url@ == crate::client::address(
                broker.base(),
                "/event-broker/v1"@ + "/producers"@,
            )
            &&& request.bearer == ctx.bearer()
            &&& request.headers@.len() == 0
            &&& request.body.mode is Chained <==> mode is Chained
            &&& request.body.mode is Monotonic <==> mode is Monotonic
            &&& request.body.client_agent@ == agent@
        },
{
}

/// What is asked of a producer is asked of the one that is named.
pub proof fn law_producers_are_asked_by_name<H, S, R>(
    broker: RestBroker<H>,
    ctx: SecurityContext<S>,
    id: ProducerId,
    scope: R,
    cursors: OutgoingRequest<S, ()>,
    reset: OutgoingRequest<S, R>,
)
    requires
        call_ensures(RestBroker::<H>::get_producer_cursors::<S>, (&broker, &ctx, id), cursors),
        call_ensures(
            RestBroker::<H>::reset_producer_chain::<S, R>,
            (&broker, &ctx, id, scope),
            reset,
        ),
    ensures
        ({
            let at = "/event-broker/v1"@ + "/producers/"@ + crate::uuids::uuid_text(id.0);
            &&& cursors.method is Get
            &&& cursors.url@ == crate::client::address(broker.base(), at + "/cursors"@)
            &&& cursors.bearer == ctx.bearer()
            &&& cursors.headers@.len() == 0
            &&& reset.method is Post
            &&& reset.url@ == crate::client::address(broker.base(), at + ":reset"@)
            &&& reset.bearer == ctx.bearer()
            &&& reset.headers@.len() == 0
            &&& reset.body == scope
        }),
{
}

/// What is asked of a consumer group is asked of the one that is named, and a new one is asked for
/// with what is given.
pub proof fn law_groups_are_asked_by_name<H, S, R>(
    broker: RestBroker<H>,
    ctx: SecurityContext<S>,
    id: ConsumerGroupId,
    req: R,
    got: OutgoingRequest<S, ()>,
    deleted: OutgoingRequest<S, ()>,
    created: OutgoingRequest<S, R>,
)
    requires
        call_ensures(RestBroker::<H>::get_consumer_group::<S>, (&broker, &ctx, &id), got),
        call_ensures(RestBroker::<H>::delete_consumer_group::<S>, (&broker, &ctx, &id), deleted),
        call_ensures(RestBroker::<H>::create_consumer_group::<S, R>, (&broker, &ctx, req), created),
    ensures
        ({
            let root = "/event-broker/v1"@ + "/consumer-groups"@;
            let at = "/event-broker/v1"@ + "/consumer-groups/"@ + (
            "gts.cf.core.events.consumer_group.v1~"@ + crate::uuids::uuid_text(id.0));
            &&& got.method is Get
            &&& deleted.method is Delete
            &&& created.method is Post
            &&& got.url@ == crate::client::address(broker.base(), at)
            &&& deleted.url@ == got.url@
            &&& created.url@ == crate::client::address(broker.base(), root)
            &&& created.body == req
            &&& got.bearer == ctx.bearer()
            &&& deleted.bearer == ctx.bearer()
            &&& created.bearer == ctx.bearer()
            &&& got.headers@.len() == 0
            &&& deleted.headers@.len() == 0
            &&& created.headers@.len() == 0
        }),
{
}

/// A list of groups and the manifest of a partition are asked for with all that is given, as a
/// form.
pub proof fn law_queries_go_out_as_forms<H, S>(
    broker: RestBroker<H>,
    ctx: SecurityContext<S>,
    query: ConsumerGroupQuery,
    topic: &str,
    partition: u32,
    range: PartitionRange,
    groups: OutgoingRequest<S, ()>,
    segments: OutgoingRequest<S, ()>,
)
    requires
        call_ensures(RestBroker::<H>::list_consumer_groups::<S>, (&broker, &ctx, query), groups),
        call_ensures(
            RestBroker::<H>::list_topic_segments::<S>,
            (&broker, &ctx, topic, partition, range),
            segments,
        ),
    ensures
        ({
            let asked = crate::outside::form_text(crate::query::consumer_group_pairs(query));
            let root = "/event-broker/v1"@ + "/consumer-groups"@;
            &&& groups.method is Get
            &&& asked.len() == 0 ==> groups.url@ == crate::client::address(broker.base(), root)
            &&& asked.len() > 0 ==> groups.url@ == crate::client::address(
                broker.base(),
                root.push('?') + asked,
            )
            &&& groups.bearer == ctx.bearer()
            &&& groups.headers@.len() == 0
            &&& segments.method is Get
            &&& segments.url@ == crate::client::address(
                broker.base(),
                "/event-broker/v1"@ + "/topics/segments?"@ + crate::outside::form_text(
                    crate::query::segment_pairs(topic@, partition, range),
                ),
            )
            &&& segments.bearer == ctx.bearer()
            &&& segments.headers@.len() == 0
        }),
{
    crate::query::law_queries_stand_behind_the_path(
        V1@ + "/consumer-groups"@,
        crate::outside::form_text(crate::query::consumer_group_pairs(query)),
    );
}

/// What is asked of a subscription is asked of the one that is named; joining and seeking carry
/// what is given.
pub proof fn law_subscriptions_are_asked_by_name<H, S>(
    broker: RestBroker<H>,
    ctx: SecurityContext<S>,
    id: SubscriptionId,
    positions: &[SeekPosition],
    req: JoinRequest,
    joined: OutgoingRequest<S, JoinSubscriptionWire>,
    got: OutgoingRequest<S, ()>,
    left: OutgoingRequest<S, ()>,
    sought: OutgoingRequest<S, &[SeekPosition]>,
)
    requires
        call_ensures(RestBroker::<H>::join::<S>, (&broker, &ctx, req), joined),
        call_ensures(RestBroker::<H>::get_subscription::<S>, (&broker, &ctx, id), got),
        call_ensures(RestBroker::<H>::leave::<S>, (&broker, &ctx, id), left),
        call_ensures(RestBroker::<H>::seek::<S>, (&broker, &ctx, id, positions), sought),
    ensures
        ({
            let root = "/event-broker/v1"@ + "/subscriptions"@;
            let at = "/event-broker/v1"@ + "/subscriptions/"@ + crate::uuids::uuid_text(id.0);
            &&& joined.method is Post
            &&& joined.url@ == crate::client::address(broker.base(), root)
            &&& join_body(req, joined.body)
            &&& got.method is Get
            &&& got.url@ == crate::client::address(broker.base(), at)
            &&& left.method is Delete
            &&& left.url@ == got.url@
            &&& sought.method is Post
            &&& sought.url@ == crate::client::address(broker.base(), at + ":seek"@)
            &&& sought.body == positions
            &&& joined.bearer == ctx.bearer()
            &&& got.bearer == ctx.bearer()
            &&& left.bearer == ctx.bearer()
            &&& sought.bearer == ctx.bearer()
            &&& joined.headers@.len() == 0
            &&& got.headers@.len() == 0
            &&& left.headers@.len() == 0
            &&& sought.headers@.len() == 0
        }),
{
}

/// A client opens streams in the framing that was chosen for it, and in multipart where none was.
pub proof fn law_streams_open_in_the_chosen_framing<H, S>(
    url: String,
    http: Result<H, String>,
    made: Result<RestBroker<H>, EventBrokerError>,
    framing: StreamTransport,
    chosen: RestBroker<H>,
    ctx: SecurityContext<S>,
    id: SubscriptionId,
    plain: OutgoingRequest<S, ()>,
    framed: OutgoingRequest<S, ()>,
)
    requires
        call_ensures(RestBroker::<H>::new, (url, http), made),
        made is Ok,
        call_ensures(RestBroker::<H>::with_stream_transport, (made->Ok_0, framing), chosen),
        call_ensures(RestBroker::<H>::stream::<S>, (&made->Ok_0, &ctx, id), plain),
        call_ensures(RestBroker::<H>::stream::<S>, (&chosen, &ctx, id), framed),
    ensures
        opens_stream(plain, url@, StreamTransport::Multipart, ctx, id),
        opens_stream(framed, url@, framing, ctx, id),
        chosen.client() == http->Ok_0,
{
}

} // verus!
