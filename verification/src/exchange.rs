//! One exchange with the broker: the request that goes out and the reply that comes back.
use vstd::prelude::*;

use crate::error::{to_transport, EventBrokerError};
use crate::text::joined;

verus! {

/// On whose behalf a call is made. `S` is the caller's type of secrets: a token is handed on
/// as it is, and only the transport reads it.
pub struct SecurityContext<S> {
    pub subject_tenant_id: u128,
    pub subject_id: u128,
    pub bearer_token: Option<S>,
}

impl<S> SecurityContext<S> {
    /// The bearer token, where there is one.
    pub open spec fn bearer(&self) -> Option<&S> {
        match self.bearer_token {
            Some(token) => Some(&token),
            None => None,
        }
    }
}

/// What a request does with its resource.
#[derive(Debug, Clone, Copy, PartialEq, Eq, Structural)]
pub enum Method {
    Get,
    Post,
    Delete,
}

/// A request that is ready to be sent. `B` is what its body is made of, `()` for none.
pub struct OutgoingRequest<'a, S, B> {
    pub method: Method,
    pub url: String,
    pub bearer: Option<&'a S>,
    pub headers: Vec<(String, String)>,
    pub body: B,
}

/// A request to `url` that carries nothing but its body yet.
pub fn bare_request<'a, S, B>(method: Method, url: String, body: B) -> (r: OutgoingRequest<
    'a,
    S,
    B,
>)
    ensures
        r.method == method,
        r.url == url,
        r.bearer is None,
        r.headers@.len() == 0,
        r.body == body,
{
    OutgoingRequest { method, url, bearer: None, headers: Vec::new(), body }
}

/// A status that says the broker did what it was asked.
pub open spec fn is_success_status(status: u16) -> bool {
    200 <= status < 300
}

/// Whether the broker did what it was asked.
pub fn is_success(status: u16) -> (r: bool)
    ensures
        r == is_success_status(status),
{
    200 <= status && status < 300
}

/// What the body of a refusal was found to be.
pub enum ProblemReading {
    /// No problem document.
    Unrecognized,
    /// A problem document, but none of the canonical problems.
    NotCanonical,
    /// A canonical problem, as the error that it stands for.
    Canonical(EventBrokerError),
}

/// The body of a reply, read as its status asks.
pub enum ReplyBody<T> {
    /// After success: what the body holds, or why it could not be read.
    Payload(Result<T, String>),
    /// After a refusal.
    Problem(ProblemReading),
}

/// A reply: its status as a number and as text (such as `404 Not Found`), and its body.
pub struct Reply<T> {
    pub status: u16,
    pub status_text: String,
    pub body: ReplyBody<T>,
}

impl<T> Reply<T> {
    /// The body was read as the status asks.
    pub open spec fn wf(self) -> bool {
        self.body is Payload <==> is_success_status(self.status)
    }
}

/// What came of sending a request: a reply, or the text of the transport's error.
pub type Sent<T> = Result<Reply<T>, String>;

/// A reply that came was read as its status asks.
pub open spec fn sent_wf<T>(sent: Sent<T>) -> bool {
    sent is Ok ==> sent->Ok_0.wf()
}

/// `e` is the error that a refusal stands for: the canonical problem in its body or, where
/// there is none, a transport error that names the status.
pub open spec fn refusal_error(
    status_text: Seq<char>,
    problem: ProblemReading,
    e: EventBrokerError,
) -> bool {
    match problem {
        ProblemReading::Canonical(error) => e == error,
        ProblemReading::NotCanonical => e.is_transport(
            "broker returned "@ + status_text + " with a problem body"@,
        ),
        ProblemReading::Unrecognized => e.is_transport(
            "broker returned "@ + status_text + " with an unrecognized body"@,
        ),
    }
}

/// Maps a refusal to its error.
pub fn error_from_response(status_text: &str, problem: ProblemReading) -> (r: EventBrokerError)
    ensures
        refusal_error(status_text@, problem, r),
{
    match problem {
        ProblemReading::Canonical(error) => error,
        ProblemReading::NotCanonical => to_transport(
            joined("broker returned ", status_text, " with a problem body"),
        ),
        ProblemReading::Unrecognized => to_transport(
            joined("broker returned ", status_text, " with an unrecognized body"),
        ),
    }
}

/// `r` is what a call for a body makes of what came back: the body after success, and an
/// error for a transport that failed, a body that cannot be read, or a refusal.
pub open spec fn json_outcome<T>(sent: Sent<T>, r: Result<T, EventBrokerError>) -> bool {
    match sent {
        Err(text) => r == Err::<T, _>(EventBrokerError::Transport(text)),
        Ok(reply) => match reply.body {
            ReplyBody::Payload(Ok(payload)) => r == Ok::<_, EventBrokerError>(payload),
            ReplyBody::Payload(Err(text)) => r == Err::<T, _>(EventBrokerError::Transport(text)),
            ReplyBody::Problem(problem) => {
                &&& r is Err
                &&& refusal_error(reply.status_text@, problem, r->Err_0)
            },
        },
    }
}

/// The body that came after success, if one came that could be read.
pub open spec fn payload_of<T>(sent: Sent<T>) -> Option<T> {
    match sent {
        Ok(reply) => match reply.body {
            ReplyBody::Payload(Ok(payload)) => Some(payload),
            _ => None,
        },
        Err(_) => None,
    }
}

/// `e` is why no body came.
pub open spec fn payload_missing<T>(sent: Sent<T>, e: EventBrokerError) -> bool {
    json_outcome(sent, Err(e))
}

/// What a call for a body gives its caller.
pub fn send_json<T>(sent: Sent<T>) -> (r: Result<T, EventBrokerError>)
    requires
        sent_wf(sent),
    ensures
        json_outcome(sent, r),
        match payload_of(sent) {
            Some(payload) => r == Ok::<_, EventBrokerError>(payload),
            None => r is Err && payload_missing(sent, r->Err_0),
        },
        r is Ok ==> is_success_status(sent->Ok_0.status),
{
    match sent {
        Err(text) => Err(to_transport(text)),
        Ok(reply) => match reply.body {
            ReplyBody::Payload(Ok(payload)) => Ok(payload),
            ReplyBody::Payload(Err(text)) => Err(to_transport(text)),
            ReplyBody::Problem(problem) => Err(
                error_from_response(reply.status_text.as_str(), problem),
            ),
        },
    }
}

/// `r` is what a call for a status makes of what came back: the status after success, whatever
/// the body holds, and an error otherwise.
pub open spec fn status_outcome<T>(sent: Sent<T>, r: Result<u16, EventBrokerError>) -> bool {
    match sent {
        Err(text) => r == Err::<u16, _>(EventBrokerError::Transport(text)),
        Ok(reply) => match reply.body {
            ReplyBody::Payload(_) => r == Ok::<_, EventBrokerError>(reply.status),
            ReplyBody::Problem(problem) => {
                &&& r is Err
                &&& refusal_error(reply.status_text@, problem, r->Err_0)
            },
        },
    }
}

/// The status of a success, if that is what came.
pub open spec fn success_of<T>(sent: Sent<T>) -> Option<u16> {
    match sent {
        Ok(reply) => match reply.body {
            ReplyBody::Payload(_) => Some(reply.status),
            _ => None,
        },
        Err(_) => None,
    }
}

/// `e` is why no success came.
pub open spec fn success_missing<T>(sent: Sent<T>, e: EventBrokerError) -> bool {
    status_outcome(sent, Err(e))
}

/// What a call for a status gives its caller.
pub fn send_status<T>(sent: Sent<T>) -> (r: Result<u16, EventBrokerError>)
    requires
        sent_wf(sent),
    ensures
        status_outcome(sent, r),
        match success_of(sent) {
            Some(status) => r == Ok::<_, EventBrokerError>(status),
            None => r is Err && success_missing(sent, r->Err_0),
        },
        r is Ok ==> is_success_status(r->Ok_0),
{
    match sent {
        Err(text) => Err(to_transport(text)),
        Ok(reply) => match reply.body {
            ReplyBody::Payload(_) => Ok(reply.status),
            ReplyBody::Problem(problem) => Err(
                error_from_response(reply.status_text.as_str(), problem),
            ),
        },
    }
}

/// A reply is never both: whatever a call for a body and a call for a status make of one
/// reply, the second fails only where the first does.
pub proof fn law_refusals_fail_both_calls<T>(
    sent: Sent<T>,
    body: Result<T, EventBrokerError>,
    status: Result<u16, EventBrokerError>,
)
    requires
        sent_wf(sent),
        json_outcome(sent, body),
        status_outcome(sent, status),
    ensures
        status is Err ==> body is Err,
        status is Ok <==> sent is Ok && is_success_status(sent->Ok_0.status),
{
}

/// A credential goes out exactly where there is one, and it is that one.
pub proof fn law_bearer_is_the_token<S>(ctx: SecurityContext<S>)
    ensures
        ctx.bearer() is Some <==> ctx.bearer_token is Some,
        ctx.bearer_token is Some ==> *ctx.bearer()->0 == ctx.bearer_token->0,
{
}

/// Success is every status from 200 to 299, and no other; a reply is well formed where it holds a
/// payload exactly then, and what failed to be sent always is.
pub proof fn law_success_is_two_hundred_and_something<T>(sent: Sent<T>)
    ensures
        forall|status: u16| #[trigger] is_success_status(status) <==> status / 100 == 2,
        sent_wf(sent) <==> (sent is Ok ==> (sent->Ok_0.body is Payload <==> sent->Ok_0.status / 100
            == 2)),
{
}

/// A call for a body gives the payload exactly where one came and was read, and tells every
/// failure by its own text.
pub proof fn law_bodies_come_from_payloads_alone<T>(sent: Sent<T>, r: Result<T, EventBrokerError>)
    requires
        json_outcome(sent, r),
    ensures
        r is Ok <==> sent is Ok && sent->Ok_0.body is Payload && sent->Ok_0.body->Payload_0 is Ok,
        r is Ok ==> r->Ok_0 == sent->Ok_0.body->Payload_0->Ok_0,
        sent is Err ==> r->Err_0 is Transport && r->Err_0->Transport_0 == sent->Err_0,
        sent is Ok && sent->Ok_0.body is Payload && r is Err ==> r->Err_0 is Transport
            && r->Err_0->Transport_0 == sent->Ok_0.body->Payload_0->Err_0,
        sent is Ok && sent->Ok_0.body is Problem ==> problem_told(
            sent->Ok_0.status_text@,
            sent->Ok_0.body->Problem_0,
            r->Err_0,
        ),
        payload_of(sent) == (match r {
            Ok(payload) => Some(payload),
            Err(_) => None,
        }),
        r is Err ==> payload_missing(sent, r->Err_0),
{
}

/// `e` is the canonical problem itself or, where there is none, says the status and what the body
/// was.
pub open spec fn problem_told(
    status_text: Seq<char>,
    problem: ProblemReading,
    e: EventBrokerError,
) -> bool {
    &&& problem matches ProblemReading::Canonical(error) ==> e == error
    &&& problem is NotCanonical ==> e is Transport && e->Transport_0@ == "broker returned "@
        + status_text + " with a problem body"@
    &&& problem is Unrecognized ==> e is Transport && e->Transport_0@ == "broker returned "@
        + status_text + " with an unrecognized body"@
}

/// Refusals are told by their problems.
pub proof fn law_refusals_are_told_by_their_problems(
    status_text: Seq<char>,
    problem: ProblemReading,
    e: EventBrokerError,
)
    requires
        refusal_error(status_text, problem, e),
    ensures
        problem matches ProblemReading::Canonical(error) ==> e == error,
        problem is NotCanonical ==> e is Transport && e->Transport_0@ == "broker returned "@
            + status_text + " with a problem body"@,
        problem is Unrecognized ==> e is Transport && e->Transport_0@ == "broker returned "@
            + status_text + " with an unrecognized body"@,
{
}

/// Why no body came is told by what came instead.
pub proof fn law_missing_bodies_are_told<T>(sent: Sent<T>, e: EventBrokerError)
    requires
        payload_missing(sent, e),
    ensures
        sent is Err ==> e is Transport && e->Transport_0 == sent->Err_0,
        sent is Ok && sent->Ok_0.body is Payload ==> sent->Ok_0.body->Payload_0 is Err
            && e is Transport && e->Transport_0 == sent->Ok_0.body->Payload_0->Err_0,
        sent is Ok && sent->Ok_0.body is Problem ==> problem_told(
            sent->Ok_0.status_text@,
            sent->Ok_0.body->Problem_0,
            e,
        ),
{
}

/// A call for a status gives the status of every success, whatever its body holds, and tells
/// every failure by its own text.
pub proof fn law_statuses_come_from_every_success<T>(
    sent: Sent<T>,
    r: Result<u16, EventBrokerError>,
)
    requires
        status_outcome(sent, r),
    ensures
        r is Ok <==> sent is Ok && sent->Ok_0.body is Payload,
        r is Ok ==> r->Ok_0 == sent->Ok_0.status,
        sent is Err ==> r->Err_0 is Transport && r->Err_0->Transport_0 == sent->Err_0,
        sent is Ok && sent->Ok_0.body is Problem ==> problem_told(
            sent->Ok_0.status_text@,
            sent->Ok_0.body->Problem_0,
            r->Err_0,
        ),
        success_of(sent) == (match r {
            Ok(status) => Some(status),
            Err(_) => None,
        }),
        r is Err ==> success_missing(sent, r->Err_0),
{
}

} // verus!
