//! The command-line client: `produce` publishes one event, `consume` joins a group and shows
//! the frames that are delivered.
use vstd::arithmetic::div_mod::lemma_basic_div;
use vstd::arithmetic::power::{lemma_pow_adds, lemma_pow_positive, pow};
use vstd::prelude::*;
use vstd::string::*;

use crate::api::{
    AssignedPartition, JoinRequest, Position, SeekPosition, SubscriptionAssignment,
    SubscriptionInterest,
};
use crate::client::{RestBroker, StreamTransport};
use crate::error::EventBrokerError;
use crate::exchange::SecurityContext;
use crate::ids::{ConsumerGroupId, SubscriptionId};
use crate::models::{Event, Timestamp};
use crate::outside::{fresh_uuid, read_json};
use crate::text::{after_prefix, joined};

verus! {

/// What the client calls itself when it joins a group.
pub const AGENT: &'static str = "cf-evctl";

/// What is said of a group that cannot be joined.
pub const NO_SUCH_GROUP: &'static str =
    "group must be an anonymous consumer-group GTS id (gts.cf.core.events.consumer_group.v1~<uuid>)";

/// The framing that was asked for on the command line.
#[derive(Debug, Clone, Copy, PartialEq, Eq, Structural)]
pub enum Framing {
    Multipart,
    Sse,
}

impl vstd::std_specs::convert::FromSpecImpl<Framing> for StreamTransport {
    open spec fn obeys_from_spec() -> bool {
        true
    }

    open spec fn from_spec(f: Framing) -> Self {
        match f {
            Framing::Multipart => StreamTransport::Multipart,
            Framing::Sse => StreamTransport::Sse,
        }
    }
}

impl From<Framing> for StreamTransport {
    fn from(f: Framing) -> (r: Self) {
        match f {
            Framing::Multipart => StreamTransport::Multipart,
            Framing::Sse => StreamTransport::Sse,
        }
    }
}

/// Why a command was not carried out.
#[derive(Debug)]
pub enum Failure {
    /// A call to the broker failed.
    Broker(EventBrokerError),
    /// Anything else, in words.
    Message(String),
}

/// Where an event's data comes from.
#[derive(Debug)]
pub enum DataSource {
    Stdin,
    /// The file at this path.
    File(String),
    /// The argument itself.
    Literal(String),
}

/// The argument names a file: its path stands behind an `@`.
pub open spec fn names_file(arg: Seq<char>) -> bool {
    arg.len() > 0 && arg[0] == '@'
}

/// `-` names standard input, `@path` a file, and anything else stands for itself.
pub fn data_source(arg: &str) -> (r: DataSource)
    ensures
        if arg@ == "-"@ {
            r is Stdin
        } else if arg@.len() > 0 && arg@[0] == '@' {
            r is File && r->File_0@ == arg@.skip(1)
        } else {
            r is Literal && r->Literal_0@ == arg@
        },
{
    proof {
        reveal_strlit("@");
    }
    if arg.to_owned() == "-".to_owned() {
        DataSource::Stdin
    } else {
        match after_prefix(arg, "@") {
            Some(path) => {
                assert(arg@[0] == '@');
                assert(arg@.skip(1) =~= path@);
                DataSource::File(path)
            },
            None => {
                assert(names_file(arg@) ==> "@"@.is_prefix_of(arg@));
                DataSource::Literal(arg.to_owned())
            },
        }
    }
}

/// The text that an argument stands for, given what came of reading its source; or what is
/// said where the source could not be read.
pub open spec fn data_text(arg: Seq<char>, read: Result<String, String>) -> Result<
    Seq<char>,
    Seq<char>,
> {
    if arg == "-"@ {
        match read {
            Ok(text) => Ok(text@),
            Err(why) => Err("reading stdin: "@ + why@),
        }
    } else if names_file(arg) {
        match read {
            Ok(text) => Ok(text@),
            Err(why) => Err("reading "@ + arg.skip(1) + (": "@ + why@)),
        }
    } else {
        Ok(arg)
    }
}

/// `r` is what comes of data that was read as JSON with this result.
pub open spec fn data_parsed(
    parsed: Result<serde_json::Value, Seq<char>>,
    r: Result<serde_json::Value, String>,
) -> bool {
    match parsed {
        Ok(value) => r == Ok::<_, String>(value),
        Err(why) => r is Err && r->Err_0@ == "data is not valid JSON: "@ + why,
    }
}

/// Reports what came of reading data as JSON.
pub fn data_outcome(parsed: Result<serde_json::Value, String>) -> (r: Result<
    serde_json::Value,
    String,
>)
    ensures
        match parsed {
            Ok(value) => r == Ok::<_, String>(value),
            Err(why) => r is Err && r->Err_0@ == "data is not valid JSON: "@ + why@,
        },
{
    match parsed {
        Ok(value) => Ok(value),
        Err(why) => Err("data is not valid JSON: ".to_owned().concat(why.as_str())),
    }
}

/// Reads an event's data. `read` is what came of reading the argument's [`DataSource`]; it is
/// not looked at where the argument stands for itself.
pub fn read_data(arg: &str, read: Result<String, String>) -> (r: Result<serde_json::Value, String>)
    ensures
        match data_text(arg@, read) {
            Ok(text) => data_parsed(crate::outside::json_reading(text), r),
            Err(why) => r is Err && r->Err_0@ == why,
        },
{
    let raw = match data_source(arg) {
        DataSource::Stdin => match read {
            Ok(text) => text,
            Err(why) => {
                return Err("reading stdin: ".to_owned().concat(why.as_str()));
            },
        },
        DataSource::File(path) => match read {
            Ok(text) => text,
            Err(why) => {
                let told = ": ".to_owned().concat(why.as_str());
                return Err(joined("reading ", path.as_str(), told.as_str()));
            },
        },
        DataSource::Literal(text) => text,
    };
    data_outcome(read_json(raw.as_str()))
}

/// The bits that mark a uuid as a random one.
pub open spec fn is_random_uuid(id: u128) -> bool {
    &&& id as int / pow(2, 76) % 16 == 4
    &&& id as int / pow(2, 62) % 4 == 2
}

/// `r` is the context of a tenant, a principal and a token, or what is said where the verdict on
/// it is against it.
pub open spec fn context_judged<S>(
    tenant: u128,
    subject: u128,
    token: Option<S>,
    verdict: Result<(), String>,
    r: Result<SecurityContext<S>, String>,
) -> bool {
    match verdict {
        Ok(_) => r == Ok::<_, String>(
            SecurityContext { subject_tenant_id: tenant, subject_id: subject, bearer_token: token },
        ),
        Err(why) => r is Err && r->Err_0@ == "building security context: "@ + why@,
    }
}

/// Builds a context that was judged.
pub fn context_of<S>(
    tenant: u128,
    subject: u128,
    token: Option<S>,
    verdict: Result<(), String>,
) -> (r: Result<SecurityContext<S>, String>)
    ensures
        context_judged(tenant, subject, token, verdict, r),
{
    match verdict {
        Ok(_) => Ok(
            SecurityContext { subject_tenant_id: tenant, subject_id: subject, bearer_token: token },
        ),
        Err(why) => Err("building security context: ".to_owned().concat(why.as_str())),
    }
}

/// The principal of a run: the one that is given, or else the one that was drawn.
pub open spec fn principal_drawn(principal: Option<u128>, drawn: u128) -> u128 {
    match principal {
        Some(given) => given,
        None => drawn,
    }
}

/// `r` is what comes of a context whose principal, where none is given, is the one that was
/// drawn, and which `judge` ruled on.
pub open spec fn context_ruled_on<S, B: Fn(u128, u128, bool) -> Result<(), String>>(
    judge: B,
    tenant: u128,
    principal: Option<u128>,
    drawn: u128,
    token: Option<S>,
    r: Result<SecurityContext<S>, String>,
) -> bool {
    let subject = principal_drawn(principal, drawn);
    exists|verdict: Result<(), String>|
        #[trigger] call_ensures(judge, (tenant, subject, token is Some), verdict)
            && context_judged(tenant, subject, token, verdict, r)
}

/// The context of a run, with a principal that was drawn for it. `judge` rules on a tenant, a
/// principal and whether there is a token.
pub fn security_context_with<S, B>(
    tenant: u128,
    principal: Option<u128>,
    drawn: u128,
    token: Option<S>,
    judge: &B,
) -> (r: Result<SecurityContext<S>, String>) where
    B: Fn(u128, u128, bool) -> Result<(), String>,

    requires
        forall|tenant: u128, subject: u128, with_token: bool|
            call_requires(judge, (tenant, subject, with_token)),
    ensures
        context_ruled_on(*judge, tenant, principal, drawn, token, r),
{
    let subject: u128 = match principal {
        Some(given) => given,
        None => drawn,
    };
    let verdict = judge(tenant, subject, token.is_some());
    context_of(tenant, subject, token, verdict)
}

/// `subject` is the principal of a run: the one that is given, or a random one.
pub open spec fn principal_of(principal: Option<u128>, subject: u128) -> bool {
    match principal {
        Some(given) => subject == given,
        None => is_random_uuid(subject),
    }
}

/// The context of a run: its principal is drawn afresh where none is given. `judge` rules on a
/// tenant, a principal and whether there is a token.
pub fn security_context<S, B>(
    tenant: u128,
    principal: Option<u128>,
    token: Option<S>,
    judge: &B,
) -> (r: Result<SecurityContext<S>, String>) where
    B: Fn(u128, u128, bool) -> Result<(), String>,

    requires
        forall|tenant: u128, subject: u128, with_token: bool|
            call_requires(judge, (tenant, subject, with_token)),
    ensures
        r matches Ok(ctx) ==> {
            &&& ctx.subject_tenant_id == tenant
            &&& principal_of(principal, ctx.subject_id)
            &&& ctx.bearer_token == token
        },
        exists|drawn: u128|
            principal_of(principal, principal_drawn(principal, drawn))
                && #[trigger] context_ruled_on(*judge, tenant, principal, drawn, token, r),
{
    let drawn: u128 = match principal {
        Some(given) => given,
        None => fresh_uuid(),
    };
    let r = security_context_with(tenant, principal, drawn, token, judge);
    assert(context_ruled_on(*judge, tenant, principal, drawn, token, r));
    r
}

/// Where no principal is given, each run has the one that was drawn for it: it is never nil, and
/// runs for which different ones were drawn differ in their principals and in nothing else.
pub proof fn law_fresh_principals_are_kept<S, B: Fn(u128, u128, bool) -> Result<(), String>>(
    judge: B,
    tenant: u128,
    token: Option<S>,
    first: u128,
    second: u128,
    a: SecurityContext<S>,
    b: SecurityContext<S>,
)
    requires
        is_random_uuid(first),
        is_random_uuid(second),
        context_ruled_on(judge, tenant, None, first, token, Ok(a)),
        context_ruled_on(judge, tenant, None, second, token, Ok(b)),
    ensures
        a.subject_id == first,
        b.subject_id == second,
        first != second ==> a.subject_id != b.subject_id,
        a.subject_id != 0,
        b.subject_id != 0,
        a.subject_tenant_id == tenant,
        b.subject_tenant_id == tenant,
        a.bearer_token == token,
        b.bearer_token == token,
{
    lemma_pow_positive(2, 76);
    lemma_basic_div(0, pow(2, 76));
}

/// What `produce` was asked to publish.
#[derive(Debug)]
pub struct ProduceArgs {
    pub type_id: String,
    pub subject: String,
    pub subject_type: String,
    pub source: String,
    pub data: String,
}

/// The event that `args` describe: what the broker assigns is left open.
pub open spec fn described_event(
    id: u128,
    tenant: u128,
    args: ProduceArgs,
    occurred_at: Timestamp,
    data: serde_json::Value,
) -> Event {
    Event {
        id,
        type_id: args.type_id,
        tenant_id: tenant,
        source: args.source,
        subject: args.subject,
        subject_type: args.subject_type,
        occurred_at,
        trace_parent: None,
        data: Some(data),
        partition: None,
        sequence: None,
        sequence_time: None,
        meta: None,
    }
}

/// Builds the event that `args` describe.
pub fn event_of(
    id: u128,
    tenant: u128,
    args: ProduceArgs,
    occurred_at: Timestamp,
    data: serde_json::Value,
) -> (r: Event)
    ensures
        r == described_event(id, tenant, args, occurred_at, data),
{
    Event {
        id,
        type_id: args.type_id,
        tenant_id: tenant,
        source: args.source,
        subject: args.subject,
        subject_type: args.subject_type,
        occurred_at,
        trace_parent: None,
        data: Some(data),
        partition: None,
        sequence: None,
        sequence_time: None,
        meta: None,
    }
}

/// The client that a command made is the one at this address.
pub open spec fn client_at<H>(
    client: RestBroker<H>,
    http: H,
    broker: Seq<char>,
    framing: StreamTransport,
) -> bool {
    &&& client.client() == http
    &&& client.base() == broker
    &&& client.transport() == framing
}

/// Prepares `produce`: the client, and the event to publish with it. A client that cannot be
/// made is reported before data that cannot be read.
pub fn start_produce<H>(
    http: Result<H, String>,
    broker: String,
    tenant: u128,
    args: ProduceArgs,
    occurred_at: Timestamp,
    read: Result<String, String>,
) -> (r: Result<(RestBroker<H>, Event), Failure>)
    ensures
        match http {
            Err(why) => r == Err::<(RestBroker<H>, Event), _>(
                Failure::Broker(EventBrokerError::Transport(why)),
            ),
            Ok(http) => match data_text(args.data@, read) {
                Err(why) => {
                    &&& r is Err
                    &&& r->Err_0 is Message
                    &&& r->Err_0->Message_0@ == why
                },
                Ok(text) => match crate::outside::json_reading(text) {
                    Err(why) => {
                        &&& r is Err
                        &&& r->Err_0 is Message
                        &&& r->Err_0->Message_0@ == "data is not valid JSON: "@ + why
                    },
                    Ok(data) => {
                        &&& r is Ok
                        &&& client_at(r->Ok_0.0, http, broker@, StreamTransport::Multipart)
                        &&& is_random_uuid(r->Ok_0.1.id)
                        &&& r->Ok_0.1 == described_event(
                            r->Ok_0.1.id,
                            tenant,
                            args,
                            occurred_at,
                            data,
                        )
                    },
                },
            },
        },
{
    let client = match RestBroker::new(broker, http) {
        Ok(client) => client,
        Err(e) => {
            return Err(Failure::Broker(e));
        },
    };
    let data = match read_data(args.data.as_str(), read) {
        Ok(data) => data,
        Err(why) => {
            return Err(Failure::Message(why));
        },
    };
    Ok((client, event_of(fresh_uuid(), tenant, args, occurred_at, data)))
}

/// What `consume` was asked to read.
#[derive(Debug)]
pub struct ConsumeArgs {
    pub group: String,
    pub topic: String,
    pub type_id: String,
    pub framing: Framing,
}

/// `req` is how the client joins `group`: for `interest` alone, under its own name.
pub open spec fn joins(
    req: JoinRequest,
    group: ConsumerGroupId,
    interest: SubscriptionInterest,
) -> bool {
    &&& req.group == group
    &&& req.client_agent@ == AGENT@
    &&& req.interests@ == seq![interest]
    &&& req.session_timeout is None
}

/// `built` is what `build` made of an interest in one type of one topic.
pub open spec fn interest_built<B: Fn(String, u128, Vec<String>) -> Result<
    SubscriptionInterest,
    EventBrokerError,
>>(
    build: B,
    tenant: u128,
    args: ConsumeArgs,
    built: Result<SubscriptionInterest, EventBrokerError>,
) -> bool {
    exists|types: Vec<String>|
        types@ == seq![args.type_id] && #[trigger] call_ensures(
            build,
            (args.topic, tenant, types),
            built,
        )
}

/// The join request for an interest that was built.
pub fn join_request(group: ConsumerGroupId, interest: SubscriptionInterest) -> (r: JoinRequest)
    ensures
        joins(r, group, interest),
{
    let mut interests: Vec<SubscriptionInterest> = Vec::new();
    interests.push(interest);
    assert(interests@ =~= seq![interest]);
    JoinRequest { group, client_agent: AGENT.to_owned(), interests, session_timeout: None }
}

/// `r` is what `consume` starts with: the client, and the request to join.
pub open spec fn consume_started<H, B: Fn(String, u128, Vec<String>) -> Result<
    SubscriptionInterest,
    EventBrokerError,
>>(
    http: Result<H, String>,
    broker: Seq<char>,
    tenant: u128,
    args: ConsumeArgs,
    build: B,
    r: Result<(RestBroker<H>, JoinRequest), Failure>,
) -> bool {
    match http {
        Err(why) => r == Err::<(RestBroker<H>, JoinRequest), _>(
            Failure::Broker(EventBrokerError::Transport(why)),
        ),
        Ok(http) => match ConsumerGroupId::reading(args.group@) {
            None => {
                &&& r is Err
                &&& r->Err_0 is Message
                &&& r->Err_0->Message_0@ == NO_SUCH_GROUP@
            },
            Some(group) => match r {
                Ok((client, req)) => {
                    &&& client_at(
                        client,
                        http,
                        broker,
                        match args.framing {
                            Framing::Multipart => StreamTransport::Multipart,
                            Framing::Sse => StreamTransport::Sse,
                        },
                    )
                    &&& req.interests@.len() == 1
                    &&& joins(req, group, req.interests@[0])
                    &&& interest_built(build, tenant, args, Ok(req.interests@[0]))
                },
                Err(Failure::Broker(e)) => interest_built(build, tenant, args, Err(e)),
                Err(Failure::Message(_)) => false,
            },
        },
    }
}

/// Prepares `consume`: the client with its framing, and the request to join. `build` makes an
/// interest of a topic, a tenant and types, or says why there can be none. A client that cannot
/// be made is reported first, then a group that cannot be joined, then the interest.
pub fn start_consume<H, B>(
    http: Result<H, String>,
    broker: String,
    tenant: u128,
    args: ConsumeArgs,
    build: &B,
) -> (r: Result<(RestBroker<H>, JoinRequest), Failure>) where
    B: Fn(String, u128, Vec<String>) -> Result<SubscriptionInterest, EventBrokerError>,

    requires
        forall|topic: String, tenant: u128, types: Vec<String>|
            call_requires(build, (topic, tenant, types)),
    ensures
        consume_started(http, broker@, tenant, args, *build, r),
{
    let ghost asked = args;
    let client = match RestBroker::new(broker, http) {
        Ok(client) => client.with_stream_transport(StreamTransport::from(args.framing)),
        Err(e) => {
            return Err(Failure::Broker(e));
        },
    };
    let group = match ConsumerGroupId::try_from_gts(args.group.as_str()) {
        Some(group) => group,
        None => {
            return Err(Failure::Message(NO_SUCH_GROUP.to_owned()));
        },
    };
    let mut types: Vec<String> = Vec::new();
    types.push(args.type_id);
    assert(types@ =~= seq![asked.type_id]);
    match build(args.topic, tenant, types) {
        Ok(interest) => Ok((client, join_request(group, interest))),
        Err(e) => Err(Failure::Broker(e)),
    }
}

/// What `consume` does next. `F` is the caller's type of frames.
pub enum Task<F> {
    Join,
    /// Take these positions.
    Seek { subscription_id: SubscriptionId, positions: Vec<SeekPosition> },
    /// Open the delivery stream.
    Open(SubscriptionId),
    /// Wait for the stream's next frame.
    Await,
    /// Show a frame, at once: what is not shown when the stream breaks is lost.
    Show(F),
    /// Say that the stream broke.
    Report(EventBrokerError),
    /// The command is over.
    Finish(Result<(), Failure>),
}

/// What came of a task.
pub enum Happened<F> {
    Joined(Result<SubscriptionAssignment, EventBrokerError>),
    Sought(Result<(), EventBrokerError>),
    Opened(Result<(), EventBrokerError>),
    /// A frame, an error on the stream, or its end.
    Arrived(Option<Result<F, EventBrokerError>>),
    Shown,
    Reported,
}

/// `happened` is something that can come of `task`.
pub open spec fn comes_of<F>(task: Task<F>, happened: Happened<F>) -> bool {
    match task {
        Task::Join => happened is Joined,
        Task::Seek { .. } => happened is Sought,
        Task::Open(_) => happened is Opened,
        Task::Await => happened is Arrived,
        Task::Show(_) => happened is Shown,
        Task::Report(_) => happened is Reported,
        Task::Finish(_) => false,
    }
}

/// The place to start from in each of the assigned partitions.
pub open spec fn earliest(assigned: Seq<AssignedPartition>) -> Seq<(Seq<char>, u32, Position)> {
    assigned.map_values(|p: AssignedPartition| (p.topic@, p.partition, Position::Earliest))
}

/// What a list of positions says.
pub open spec fn said(positions: Seq<SeekPosition>) -> Seq<(Seq<char>, u32, Position)> {
    positions.map_values(|p: SeekPosition| (p.topic@, p.partition, p.value))
}

/// `next` is what `consume` does once `happened` came of `task`.
pub open spec fn stepped<F>(task: Task<F>, happened: Happened<F>, next: Task<F>) -> bool {
    match happened {
        Happened::Joined(Ok(a)) => if a.assigned@.len() == 0 {
            next == Task::<F>::Open(a.subscription_id)
        } else {
            &&& next is Seek
            &&& next->subscription_id == a.subscription_id
            &&& said(next->positions@) == earliest(a.assigned@)
        },
        Happened::Sought(Ok(())) => {
            &&& task is Seek
            &&& next == Task::<F>::Open(task->subscription_id)
        },
        Happened::Opened(Ok(())) => next is Await,
        Happened::Joined(Err(e)) => next == Task::<F>::Finish(Err(Failure::Broker(e))),
        Happened::Sought(Err(e)) => next == Task::<F>::Finish(Err(Failure::Broker(e))),
        Happened::Opened(Err(e)) => next == Task::<F>::Finish(Err(Failure::Broker(e))),
        Happened::Arrived(Some(Ok(frame))) => next == Task::Show(frame),
        Happened::Arrived(Some(Err(e))) => next == Task::<F>::Report(e),
        Happened::Arrived(None) => next == Task::<F>::Finish(Ok(())),
        Happened::Shown => next is Await,
        Happened::Reported => next == Task::<F>::Finish(Ok(())),
    }
}

/// The positions that a one-shot reader takes: the earliest in each partition. Keeping real
/// offsets is left to those that come back.
pub fn starting_positions(assigned: &Vec<AssignedPartition>) -> (r: Vec<SeekPosition>)
    ensures
        said(r@) == earliest(assigned@),
        r@.len() == assigned@.len(),
        forall|i: int|
            0 <= i < assigned@.len() ==> {
                &&& (#[trigger] r@[i]).topic@ == assigned@[i].topic@
                &&& r@[i].partition == assigned@[i].partition
                &&& r@[i].value == Position::Earliest
            },
{
    let mut positions: Vec<SeekPosition> = Vec::new();
    for i in 0..assigned.len()
        invariant
            said(positions@) == earliest(assigned@.take(i as int)),
            positions@.len() == i,
    {
        let p = &assigned[i];
        let ghost before = positions@;
        positions.push(
            SeekPosition {
                topic: p.topic.clone(),
                partition: p.partition,
                value: Position::Earliest,
            },
        );
        assert(assigned@.take(i + 1) =~= assigned@.take(i as int).push(*p));
        assert(said(positions@) =~= said(before).push((p.topic@, p.partition, Position::Earliest)));
        assert(earliest(assigned@.take(i + 1)) =~= earliest(assigned@.take(i as int)).push(
            (p.topic@, p.partition, Position::Earliest),
        ));
    }
    assert(assigned@.take(assigned@.len() as int) =~= assigned@);
    proof {
        lemma_every_partition_is_said(assigned@, positions@);
    }
    positions
}

/// Decides what `consume` does next. A stream that breaks is reported and ends the command,
/// which is then not a failure.
pub fn step<F>(task: Task<F>, happened: Happened<F>) -> (r: Task<F>)
    requires
        comes_of(task, happened),
    ensures
        stepped(task, happened, r),
{
    match happened {
        Happened::Joined(Ok(assignment)) => {
            let positions = starting_positions(&assignment.assigned);
            assert(said(positions@).len() == positions@.len());
            assert(earliest(assignment.assigned@).len() == assignment.assigned@.len());
            if positions.len() == 0 {
                Task::Open(assignment.subscription_id)
            } else {
                Task::Seek { subscription_id: assignment.subscription_id, positions }
            }
        },
        Happened::Sought(Ok(())) => match task {
            Task::Seek { subscription_id, .. } => Task::Open(subscription_id),
            other => other,
        },
        Happened::Opened(Ok(())) => Task::Await,
        Happened::Joined(Err(e)) => Task::Finish(Err(Failure::Broker(e))),
        Happened::Sought(Err(e)) => Task::Finish(Err(Failure::Broker(e))),
        Happened::Opened(Err(e)) => Task::Finish(Err(Failure::Broker(e))),
        Happened::Arrived(Some(Ok(frame))) => Task::Show(frame),
        Happened::Arrived(Some(Err(e))) => Task::Report(e),
        Happened::Arrived(None) => Task::Finish(Ok(())),
        Happened::Shown => Task::Await,
        Happened::Reported => Task::Finish(Ok(())),
    }
}

/// `tasks` and `events` are how a `consume` went: it began by joining, and each event came of
/// the task before it and led to the task after it.
pub open spec fn consumed<F>(tasks: Seq<Task<F>>, events: Seq<Happened<F>>) -> bool {
    &&& tasks.len() == events.len() + 1
    &&& tasks[0] is Join
    &&& forall|i: int|
        0 <= i < events.len() ==> {
            &&& comes_of(tasks[i], #[trigger] events[i])
            &&& stepped(tasks[i], events[i], tasks[i + 1])
        }
}

/// `task` is one that there is only with a stream that was asked for.
pub open spec fn streams<F>(task: Task<F>) -> bool {
    task is Open || task is Await || task is Show || task is Report
}

/// The first events gave every assigned partition a position: there was none, or the broker
/// took the earliest in each.
pub open spec fn seeded<F>(tasks: Seq<Task<F>>, events: Seq<Happened<F>>) -> bool {
    &&& events.len() > 0
    &&& events[0] matches Happened::Joined(Ok(a))
    &&& a.assigned@.len() > 0 ==> {
        &&& events.len() > 1
        &&& tasks[1] is Seek
        &&& tasks[1]->subscription_id == a.subscription_id
        &&& said(tasks[1]->positions@) == earliest(a.assigned@)
        &&& events[1] matches Happened::Sought(Ok(_))
    }
}

/// The stream is opened only once every assigned partition has a position, and so is
/// everything that follows it.
pub proof fn law_no_stream_before_every_partition_is_seeded<F>(
    tasks: Seq<Task<F>>,
    events: Seq<Happened<F>>,
    k: int,
)
    requires
        consumed(tasks, events),
        0 <= k < tasks.len(),
        streams(tasks[k]),
    ensures
        seeded(tasks, events),
        every_partition_sought(tasks, events),
{
    lemma_tasks_keep_their_place(tasks, events, k);
    lemma_seeded_is_sought(tasks, events);
}

/// Joining is the first task, seeking the second, and streaming comes after both.
proof fn lemma_tasks_keep_their_place<F>(tasks: Seq<Task<F>>, events: Seq<Happened<F>>, k: int)
    requires
        consumed(tasks, events),
        0 <= k < tasks.len(),
    ensures
        tasks[k] is Join ==> k == 0,
        tasks[k] is Seek ==> k == 1,
        streams(tasks[k]) ==> seeded(tasks, events),
    decreases k,
{
    if k > 0 {
        lemma_tasks_keep_their_place(tasks, events, k - 1);
        assert(comes_of(tasks[k - 1], events[k - 1]));
        assert(stepped(tasks[k - 1], events[k - 1], tasks[k]));
        assert(comes_of(tasks[0], events[0]));
        assert(stepped(tasks[0], events[0], tasks[1]));
        assert(streams(tasks[k]) && tasks[k - 1] is Join ==> seeded(tasks, events));
        assert(streams(tasks[k]) && tasks[k - 1] is Seek ==> seeded(tasks, events));
    }
}

/// The frames that arrived, in order.
pub open spec fn arrived<F>(events: Seq<Happened<F>>) -> Seq<F>
    decreases events.len(),
{
    if events.len() == 0 {
        Seq::empty()
    } else {
        match events.last() {
            Happened::Arrived(Some(Ok(frame))) => arrived(events.drop_last()).push(frame),
            _ => arrived(events.drop_last()),
        }
    }
}

/// The frames that are shown, in order.
pub open spec fn shown<F>(tasks: Seq<Task<F>>) -> Seq<F>
    decreases tasks.len(),
{
    if tasks.len() == 0 {
        Seq::empty()
    } else {
        match tasks.last() {
            Task::Show(frame) => shown(tasks.drop_last()).push(frame),
            _ => shown(tasks.drop_last()),
        }
    }
}

/// Every frame that arrives is shown, once and in the order of arrival.
pub proof fn law_every_frame_is_shown<F>(tasks: Seq<Task<F>>, events: Seq<Happened<F>>)
    requires
        consumed(tasks, events),
    ensures
        shown(tasks) == arrived(events),
    decreases events.len(),
{
    if events.len() == 0 {
        assert(tasks.drop_last() =~= Seq::<Task<F>>::empty());
        assert(shown(tasks.drop_last()) == Seq::<F>::empty());
    } else {
        let earlier = events.drop_last();
        let before = tasks.drop_last();
        assert forall|i: int| 0 <= i < earlier.len() implies {
            &&& comes_of(before[i], #[trigger] earlier[i])
            &&& stepped(before[i], earlier[i], before[i + 1])
        } by {
            assert(earlier[i] == events[i]);
        }
        law_every_frame_is_shown(before, earlier);
        let k = events.len() - 1;
        assert(comes_of(tasks[k], events[k]));
        assert(stepped(tasks[k], events[k], tasks[k + 1]));
    }
}

/// What is shown depends on the frames alone: runs in which the same frames arrive, whatever
/// framing they came in, show the same.
pub proof fn law_same_frames_are_shown_alike<F>(
    tasks: Seq<Task<F>>,
    events: Seq<Happened<F>>,
    other_tasks: Seq<Task<F>>,
    other_events: Seq<Happened<F>>,
)
    requires
        consumed(tasks, events),
        consumed(other_tasks, other_events),
        arrived(events) == arrived(other_events),
    ensures
        shown(tasks) == shown(other_tasks),
{
    law_every_frame_is_shown(tasks, events);
    law_every_frame_is_shown(other_tasks, other_events);
}

/// Positions that say the earliest of each partition are as many as the partitions, and name each
/// of them at its place.
proof fn lemma_every_partition_is_said(
    assigned: Seq<AssignedPartition>,
    positions: Seq<SeekPosition>,
)
    requires
        said(positions) == earliest(assigned),
    ensures
        positions.len() == assigned.len(),
        forall|i: int|
            0 <= i < assigned.len() ==> {
                &&& (#[trigger] positions[i]).topic@ == assigned[i].topic@
                &&& positions[i].partition == assigned[i].partition
                &&& positions[i].value == Position::Earliest
            },
{
    assert(said(positions).len() == positions.len());
    assert(earliest(assigned).len() == assigned.len());
    assert forall|i: int| 0 <= i < assigned.len() implies {
        &&& (#[trigger] positions[i]).topic@ == assigned[i].topic@
        &&& positions[i].partition == assigned[i].partition
        &&& positions[i].value == Position::Earliest
    } by {
        assert(said(positions)[i] == earliest(assigned)[i]);
    }
}

/// After joining, every assigned partition is sought, each once and at its place, from its
/// earliest event; where none is assigned, the stream of the subscription is opened at once.
pub proof fn law_join_leads_to_every_assigned_partition<F>(
    task: Task<F>,
    a: SubscriptionAssignment,
    next: Task<F>,
)
    requires
        stepped(task, Happened::Joined(Ok(a)), next),
    ensures
        a.assigned@.len() == 0 ==> next is Open && next->Open_0 == a.subscription_id,
        a.assigned@.len() > 0 ==> {
            &&& next is Seek
            &&& next->subscription_id == a.subscription_id
            &&& next->positions@.len() == a.assigned@.len()
            &&& forall|i: int|
                0 <= i < a.assigned@.len() ==> {
                    &&& (#[trigger] next->positions@[i]).topic@ == a.assigned@[i].topic@
                    &&& next->positions@[i].partition == a.assigned@[i].partition
                    &&& next->positions@[i].value == Position::Earliest
                }
        },
{
    if a.assigned@.len() > 0 {
        lemma_every_partition_is_said(a.assigned@, next->positions@);
    }
}

/// The run joined, and every partition that it was assigned was sought from its earliest event,
/// which the broker took.
pub open spec fn every_partition_sought<F>(
    tasks: Seq<Task<F>>,
    events: Seq<Happened<F>>,
) -> bool {
    &&& events.len() > 0
    &&& events[0] matches Happened::Joined(Ok(a))
    &&& forall|i: int|
        0 <= i < a.assigned@.len() ==> {
            &&& events.len() > 1
            &&& events[1] matches Happened::Sought(Ok(_))
            &&& tasks[1] is Seek
            &&& tasks[1]->subscription_id == a.subscription_id
            &&& i < tasks[1]->positions@.len()
            &&& tasks[1]->positions@[i].topic@ == (#[trigger] a.assigned@[i]).topic@
            &&& tasks[1]->positions@[i].partition == a.assigned@[i].partition
            &&& tasks[1]->positions@[i].value == Position::Earliest
        }
}

/// A run that is seeded sought every partition.
proof fn lemma_seeded_is_sought<F>(tasks: Seq<Task<F>>, events: Seq<Happened<F>>)
    requires
        seeded(tasks, events),
    ensures
        every_partition_sought(tasks, events),
{
    if let Happened::Joined(Ok(a)) = events[0] {
        if a.assigned@.len() > 0 {
            lemma_every_partition_is_said(a.assigned@, tasks[1]->positions@);
        }
    }
}

/// No task that has to do with a stream is reached unless every index of the assigned list was
/// sought, and the stream that is opened is that of the subscription that was joined with.
pub proof fn law_stream_follows_every_seek<F>(
    tasks: Seq<Task<F>>,
    events: Seq<Happened<F>>,
    k: int,
)
    requires
        tasks.len() == events.len() + 1,
        tasks[0] is Join,
        forall|i: int|
            0 <= i < events.len() ==> {
                &&& comes_of(tasks[i], #[trigger] events[i])
                &&& stepped(tasks[i], events[i], tasks[i + 1])
            },
        0 <= k < tasks.len(),
        tasks[k] is Open || tasks[k] is Await || tasks[k] is Show || tasks[k] is Report,
    ensures
        every_partition_sought(tasks, events),
        tasks[k] matches Task::Open(id) ==> id == events[0]->Joined_0->Ok_0.subscription_id,
{
    law_no_stream_before_every_partition_is_seeded(tasks, events, k);
    if k > 0 {
        lemma_tasks_keep_their_place(tasks, events, k - 1);
        assert(comes_of(tasks[k - 1], events[k - 1]));
        assert(stepped(tasks[k - 1], events[k - 1], tasks[k]));
        assert(comes_of(tasks[0], events[0]));
        assert(stepped(tasks[0], events[0], tasks[1]));
    }
}

/// Each task is answered by its own kind of event, and a command that is over by none.
pub proof fn law_tasks_are_answered_in_kind<F>(task: Task<F>, happened: Happened<F>)
    ensures
        comes_of(task, happened) <==> {
            ||| task is Join && happened is Joined
            ||| task is Seek && happened is Sought
            ||| task is Open && happened is Opened
            ||| task is Await && happened is Arrived
            ||| task is Show && happened is Shown
            ||| task is Report && happened is Reported
        },
{
}

/// A command goes on as long as its stream does: it succeeds only where the stream ended, or
/// broke and that was said; it fails only where a call failed, and with that failure.
pub proof fn law_command_ends_with_its_stream<F>(
    task: Task<F>,
    happened: Happened<F>,
    next: Task<F>,
)
    requires
        comes_of(task, happened),
        stepped(task, happened, next),
    ensures
        next is Finish && next->Finish_0 is Ok <==> happened is Reported || (happened is Arrived
            && happened->Arrived_0 is None),
        next is Finish && next->Finish_0 is Err ==> next->Finish_0->Err_0 is Broker,
        happened matches Happened::Joined(Err(e)) ==> next is Finish && next->Finish_0
            == Err::<(), Failure>(Failure::Broker(e)),
        happened matches Happened::Sought(Err(e)) ==> next is Finish && next->Finish_0
            == Err::<(), Failure>(Failure::Broker(e)),
        happened matches Happened::Opened(Err(e)) ==> next is Finish && next->Finish_0
            == Err::<(), Failure>(Failure::Broker(e)),
        next is Finish && next->Finish_0 is Err <==> {
            ||| happened is Joined && happened->Joined_0 is Err
            ||| happened is Sought && happened->Sought_0 is Err
            ||| happened is Opened && happened->Opened_0 is Err
        },
        next is Await <==> happened is Shown || (happened is Opened && happened->Opened_0 is Ok),
        happened matches Happened::Arrived(Some(Ok(frame))) ==> next is Show && next->Show_0
            == frame,
        happened matches Happened::Arrived(Some(Err(e))) ==> next is Report && next->Report_0 == e,
        next is Show <==> happened is Arrived && happened->Arrived_0 is Some
            && happened->Arrived_0->0 is Ok,
        next is Report <==> happened is Arrived && happened->Arrived_0 is Some
            && happened->Arrived_0->0 is Err,
        happened is Sought && happened->Sought_0 is Ok ==> next is Open && next->Open_0
            == task->subscription_id,
{
}

/// Data comes from where its argument says: `-` is standard input, `@` and a path is that file,
/// and any other text is the data itself, whatever was read. A source that could not be read is
/// named in what is said.
pub proof fn law_data_comes_from_its_source(
    arg: Seq<char>,
    path: Seq<char>,
    read: Result<String, String>,
)
    ensures
        read is Ok ==> data_text("-"@, read) == Ok::<Seq<char>, Seq<char>>(read->Ok_0@),
        read is Err ==> data_text("-"@, read) == Err::<Seq<char>, Seq<char>>(
            "reading stdin: "@ + read->Err_0@,
        ),
        read is Ok ==> data_text(seq!['@'] + path, read) == Ok::<Seq<char>, Seq<char>>(
            read->Ok_0@,
        ),
        read is Err ==> data_text(seq!['@'] + path, read) == Err::<Seq<char>, Seq<char>>(
            "reading "@ + path + (": "@ + read->Err_0@),
        ),
        arg != "-"@ && !(arg.len() > 0 && arg[0] == '@') ==> data_text(arg, read) == Ok::<
            Seq<char>,
            Seq<char>,
        >(arg),
        names_file(arg) <==> arg.len() > 0 && arg[0] == '@',
{
    reveal_strlit("-");
    let named = seq!['@'] + path;
    assert(named[0] == '@' && "-"@[0] == '-');
    assert(named.skip(1) =~= path);
}

/// Data that is JSON is what it reads as, and any other is refused with the reader's words.
pub proof fn law_data_is_what_it_reads_as(
    parsed: Result<serde_json::Value, Seq<char>>,
    r: Result<serde_json::Value, String>,
)
    requires
        data_parsed(parsed, r),
    ensures
        r is Ok <==> parsed is Ok,
        r is Ok ==> r->Ok_0 == parsed->Ok_0,
        r is Err ==> r->Err_0@ == "data is not valid JSON: "@ + parsed->Err_0,
{
}

/// A random uuid has its version and variant where they belong.
pub proof fn law_random_uuids_are_marked(id: u128)
    requires
        is_random_uuid(id),
    ensures
        id as int / 0x1000_0000_0000_0000_0000 % 16 == 4,
        id as int / 0x4000_0000_0000_0000 % 4 == 2,
{
    assert(pow(2, 19) == 0x8_0000) by {
        reveal_with_fuel(pow, 20);
    }
    assert(pow(2, 31) == 0x8000_0000) by {
        reveal_with_fuel(pow, 32);
    }
    lemma_pow_adds(2, 19, 19);
    lemma_pow_adds(2, 38, 38);
    lemma_pow_adds(2, 31, 31);
    assert(pow(2, 38) == 0x8_0000int * 0x8_0000int);
    assert(pow(2, 76) == 0x40_0000_0000int * 0x40_0000_0000int);
    assert(pow(2, 62) == 0x8000_0000int * 0x8000_0000int);
}

/// A principal that is given is kept, whatever was drawn; the rules are asked of exactly the
/// tenant, the principal and whether there is a token, and their refusal is told in their words.
pub proof fn law_given_principals_are_kept<S, B: Fn(u128, u128, bool) -> Result<(), String>>(
    judge: B,
    tenant: u128,
    principal: Option<u128>,
    drawn: u128,
    token: Option<S>,
    r: Result<SecurityContext<S>, String>,
)
    requires
        context_ruled_on(judge, tenant, principal, drawn, token, r),
    ensures
        r matches Ok(ctx) ==> {
            &&& ctx.subject_tenant_id == tenant
            &&& principal is Some ==> ctx.subject_id == principal->0
            &&& principal is None ==> ctx.subject_id == drawn
            &&& ctx.bearer_token == token
        },
        principal is Some ==> exists|verdict: Result<(), String>|
            {
                &&& #[trigger] call_ensures(
                    judge,
                    (tenant, principal->0, token is Some),
                    verdict,
                )
                &&& verdict is Ok <==> r is Ok
                &&& r is Err ==> r->Err_0@ == "building security context: "@ + verdict->Err_0@
            },
        principal is None ==> exists|verdict: Result<(), String>|
            {
                &&& #[trigger] call_ensures(judge, (tenant, drawn, token is Some), verdict)
                &&& verdict is Ok <==> r is Ok
                &&& r is Err ==> r->Err_0@ == "building security context: "@ + verdict->Err_0@
            },
        forall|subject: u128|
            principal is Some ==> (#[trigger] principal_of(principal, subject) <==> subject
                == principal->0),
        forall|subject: u128|
            principal is None ==> (#[trigger] principal_of(principal, subject) <==> is_random_uuid(
                subject,
            )),
{
    let subject = principal_drawn(principal, drawn);
    let verdict = choose|verdict: Result<(), String>|
        #[trigger] call_ensures(judge, (tenant, subject, token is Some), verdict)
            && context_judged(tenant, subject, token, verdict, r);
    assert(call_ensures(judge, (tenant, subject, token is Some), verdict));
}

/// A context that was judged says what was given, or why there is none.
pub proof fn law_judged_contexts_say_what_was_given<S>(
    tenant: u128,
    subject: u128,
    token: Option<S>,
    verdict: Result<(), String>,
    r: Result<SecurityContext<S>, String>,
)
    requires
        context_judged(tenant, subject, token, verdict, r),
    ensures
        r is Ok <==> verdict is Ok,
        r is Ok ==> r->Ok_0.subject_tenant_id == tenant && r->Ok_0.subject_id == subject
            && r->Ok_0.bearer_token == token,
        r is Err ==> r->Err_0@ == "building security context: "@ + verdict->Err_0@,
{
}

/// An event says what was asked, each thing in its own field, and leaves to the broker what the
/// broker assigns.
pub proof fn law_event_says_what_was_asked(
    id: u128,
    tenant: u128,
    args: ProduceArgs,
    occurred_at: Timestamp,
    data: serde_json::Value,
)
    ensures
        ({
            let event = described_event(id, tenant, args, occurred_at, data);
            &&& event.id == id
            &&& event.tenant_id == tenant
            &&& event.type_id == args.type_id
            &&& event.source == args.source
            &&& event.subject == args.subject
            &&& event.subject_type == args.subject_type
            &&& event.occurred_at == occurred_at
            &&& event.data == Some(data)
            &&& event.trace_parent is None
            &&& event.partition is None
            &&& event.sequence is None
            &&& event.sequence_time is None
            &&& event.meta is None
        }),
{
}

/// A framing that is asked for is the one that is used.
pub proof fn law_framing_is_the_one_asked_for(f: Framing)
    ensures
        <StreamTransport as vstd::std_specs::convert::FromSpec<Framing>>::from_spec(f)
            == StreamTransport::Multipart <==> f == Framing::Multipart,
        <StreamTransport as vstd::std_specs::convert::FromSpec<Framing>>::from_spec(f)
            == StreamTransport::Sse <==> f == Framing::Sse,
{
}

/// A client that was made stands at its address, with its HTTP client and framing.
pub proof fn law_client_is_where_it_was_put<H>(
    client: RestBroker<H>,
    http: H,
    broker: Seq<char>,
    framing: StreamTransport,
)
    requires
        client_at(client, http, broker, framing),
    ensures
        client.client() == http,
        client.base() == broker,
        client.transport() == framing,
{
}

/// A join request is for one interest, in the group that is named, under the client's own name
/// and without a timeout.
pub proof fn law_join_is_for_one_interest(
    req: JoinRequest,
    group: ConsumerGroupId,
    interest: SubscriptionInterest,
)
    requires
        joins(req, group, interest),
    ensures
        req.group == group,
        req.client_agent@ == "cf-evctl"@,
        req.interests@.len() == 1,
        req.interests@[0] == interest,
        req.session_timeout is None,
{
}

/// What `consume` starts with follows its arguments: a client with the framing that is asked for,
/// and a request to join the group that is named, for an interest that the rules made of the
/// topic, the tenant and the one type. It fails where the client cannot be made, where the group
/// is no anonymous one, or where the rules refuse, in this order, and nowhere else.
pub proof fn law_consume_starts_with_what_is_asked<H, B: Fn(String, u128, Vec<String>) -> Result<
    SubscriptionInterest,
    EventBrokerError,
>>(
    http: Result<H, String>,
    broker: Seq<char>,
    tenant: u128,
    args: ConsumeArgs,
    build: B,
    r: Result<(RestBroker<H>, JoinRequest), Failure>,
)
    requires
        consume_started(http, broker, tenant, args, build, r),
    ensures
        http matches Err(why) ==> r is Err && r->Err_0 is Broker && r->Err_0->Broker_0 is Transport
            && r->Err_0->Broker_0->Transport_0 == why,
        http is Ok && ConsumerGroupId::reading(args.group@) is None ==> r is Err
            && r->Err_0 is Message && r->Err_0->Message_0@
            == "group must be an anonymous consumer-group GTS id (gts.cf.core.events.consumer_group.v1~<uuid>)"@,
        http is Ok && ConsumerGroupId::reading(args.group@) is Some && r is Err
            ==> r->Err_0 is Broker && exists|types: Vec<String>|
            {
                &&& types@.len() == 1
                &&& types@[0] == args.type_id
                &&& #[trigger] call_ensures(
                    build,
                    (args.topic, tenant, types),
                    Err(r->Err_0->Broker_0),
                )
            },
        r is Ok ==> exists|types: Vec<String>|
            {
                &&& types@.len() == 1
                &&& types@[0] == args.type_id
                &&& #[trigger] call_ensures(
                    build,
                    (args.topic, tenant, types),
                    Ok(r->Ok_0.1.interests@[0]),
                )
            },
        r matches Ok((client, req)) ==> {
            &&& http is Ok
            &&& client.client() == http->Ok_0
            &&& client.base() == broker
            &&& args.framing is Multipart <==> client.transport() is Multipart
            &&& ConsumerGroupId::reading(args.group@) == Some(req.group)
            &&& req.client_agent@ == "cf-evctl"@
            &&& req.interests@.len() == 1
            &&& req.session_timeout is None
        },
{
}

/// What `produce` starts with follows its arguments: a multipart client at the broker, and an
/// event that says what was asked with the data that was read. It fails where the client cannot
/// be made, where the data cannot be had, or where it is no JSON, in this order, and nowhere
/// else.
pub proof fn law_produce_starts_with_what_is_asked<H>(
    http: Result<H, String>,
    broker: String,
    tenant: u128,
    args: ProduceArgs,
    occurred_at: Timestamp,
    read: Result<String, String>,
    r: Result<(RestBroker<H>, Event), Failure>,
)
    requires
        call_ensures(start_produce::<H>, (http, broker, tenant, args, occurred_at, read), r),
    ensures
        http matches Err(why) ==> r is Err && r->Err_0 is Broker && r->Err_0->Broker_0 is Transport
            && r->Err_0->Broker_0->Transport_0 == why,
        http is Ok && r is Err ==> r->Err_0 is Message,
        r is Ok ==> http is Ok && data_text(args.data@, read) is Ok && crate::outside::json_reading(
            data_text(args.data@, read)->Ok_0,
        ) is Ok,
        r matches Ok((client, event)) ==> {
            &&& client.client() == http->Ok_0
            &&& client.base() == broker@
            &&& client.transport() is Multipart
            &&& event.tenant_id == tenant
            &&& event.type_id == args.type_id
            &&& event.source == args.source
            &&& event.subject == args.subject
            &&& event.subject_type == args.subject_type
            &&& event.occurred_at == occurred_at
            &&& event.data == Some(
                crate::outside::json_reading(data_text(args.data@, read)->Ok_0)->Ok_0,
            )
            &&& event.trace_parent is None
            &&& event.partition is None
            &&& event.sequence is None
            &&& event.sequence_time is None
            &&& event.meta is None
            &&& is_random_uuid(event.id)
        },
{
}

} // verus!
