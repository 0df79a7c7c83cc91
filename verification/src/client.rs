//! The client: where requests go, and on whose behalf.
use vstd::prelude::*;
use vstd::string::*;

use crate::error::EventBrokerError;
use crate::exchange::{OutgoingRequest, SecurityContext};
use crate::text::trim_trailing_slashes;

verus! {

/// The root of the broker's HTTP surface.
pub const V1: &'static str = "/event-broker/v1";

/// How frames are delimited on the delivery stream.
///
/// Both framings carry the same frames; they differ only in how a frame is delimited. Cloud
/// clients use multipart; browser clients use SSE.
#[derive(Debug, Clone, Copy, PartialEq, Eq, Structural)]
pub enum StreamTransport {
    /// `multipart/mixed` at `/events:stream`.
    Multipart,
    /// `text/event-stream` at `/events:sse`.
    Sse,
}

impl Default for StreamTransport {
    fn default() -> (r: Self)
        ensures
            r == StreamTransport::Multipart,
    {
        StreamTransport::Multipart
    }
}

impl StreamTransport {
    /// The media type of the delivery stream.
    pub open spec fn media_type_text(self) -> Seq<char> {
        match self {
            StreamTransport::Multipart => "multipart/mixed"@,
            StreamTransport::Sse => "text/event-stream"@,
        }
    }

    /// The endpoint of the delivery stream.
    pub open spec fn endpoint_text(self) -> Seq<char> {
        match self {
            StreamTransport::Multipart => "/events:stream"@,
            StreamTransport::Sse => "/events:sse"@,
        }
    }

    /// The media type of the delivery stream.
    pub fn media_type(&self) -> (r: &'static str)
        ensures
            r@ == self.media_type_text(),
    {
        match self {
            StreamTransport::Multipart => "multipart/mixed",
            StreamTransport::Sse => "text/event-stream",
        }
    }

    /// The endpoint of the delivery stream.
    pub fn endpoint(&self) -> (r: &'static str)
        ensures
            r@ == self.endpoint_text(),
    {
        match self {
            StreamTransport::Multipart => "/events:stream",
            StreamTransport::Sse => "/events:sse",
        }
    }
}

/// A client of the broker at one base URL. `H` is the caller's HTTP client.
pub struct RestBroker<H> {
    http: H,
    base_url: String,
    framing: StreamTransport,
}

/// The address of `path` at the broker at `base`.
pub open spec fn address(base: Seq<char>, path: Seq<char>) -> Seq<char> {
    crate::text::without_trailing_slashes(base) + path
}

/// Slashes at the end of the base URL make no difference to where requests go.
pub proof fn law_trailing_slashes_do_not_matter(base: Seq<char>, path: Seq<char>)
    ensures
        address(base.push('/'), path) == address(base, path),
{
    assert(base.push('/').drop_last() =~= base);
}

impl<H> RestBroker<H> {
    /// The base URL.
    pub closed spec fn base(&self) -> Seq<char> {
        self.base_url@
    }

    /// The HTTP client.
    pub closed spec fn client(&self) -> H {
        self.http
    }

    /// The framing of the delivery stream.
    pub closed spec fn transport(&self) -> StreamTransport {
        self.framing
    }

    /// Builds a client against `base_url` (for example `https://host:8080`) with multipart
    /// framing, or says why the HTTP client could not be made.
    pub fn new(base_url: String, http: Result<H, String>) -> (r: Result<Self, EventBrokerError>)
        ensures
            match http {
                Ok(http) => {
                    &&& r is Ok
                    &&& r->Ok_0.client() == http
                    &&& r->Ok_0.base() == base_url@
                    &&& r->Ok_0.transport() == StreamTransport::Multipart
                },
                Err(text) => r == Err::<Self, _>(EventBrokerError::Transport(text)),
            },
    {
        match http {
            Ok(http) => Ok(RestBroker { http, base_url, framing: StreamTransport::default() }),
            Err(text) => Err(EventBrokerError::Transport(text)),
        }
    }

    /// Selects the framing that this client opens streams with.
    #[must_use]
    pub fn with_stream_transport(self, framing: StreamTransport) -> (r: Self)
        ensures
            r.transport() == framing,
            r.client() == self.client(),
            r.base() == self.base(),
    {
        RestBroker { http: self.http, base_url: self.base_url, framing }
    }

    /// The HTTP client.
    pub fn http(&self) -> (r: &H)
        ensures
            *r == self.client(),
    {
        &self.http
    }

    /// The framing that this client opens streams with.
    pub fn framing(&self) -> (r: StreamTransport)
        ensures
            r == self.transport(),
    {
        self.framing
    }

    /// Joins the base URL with a path.
    pub fn url(&self, path: &str) -> (r: String)
        ensures
            r@ == address(self.base(), path@),
    {
        trim_trailing_slashes(self.base_url.as_str()).concat(path)
    }

    /// Attaches the caller's bearer credential, if there is one, so that the broker authorizes
    /// the request as that tenant. The credential is handed on unread.
    pub fn authed<'a, S, B>(
        &self,
        rb: OutgoingRequest<'a, S, B>,
        ctx: &'a SecurityContext<S>,
    ) -> (r: OutgoingRequest<'a, S, B>)
        ensures
            r.bearer == (if ctx.bearer_token is Some {
                ctx.bearer()
            } else {
                rb.bearer
            }),
            r.method == rb.method,
            r.url == rb.url,
            r.headers == rb.headers,
            r.body == rb.body,
    {
        match &ctx.bearer_token {
            Some(token) => OutgoingRequest {
                method: rb.method,
                url: rb.url,
                bearer: Some(token),
                headers: rb.headers,
                body: rb.body,
            },
            None => rb,
        }
    }
}

/// A request goes to the base URL without the slashes at its end, followed by the path as it is.
pub proof fn law_address_is_the_base_and_the_path(base: Seq<char>, path: Seq<char>) -> (kept: int)
    ensures
        0 <= kept <= base.len(),
        address(base, path) == base.take(kept) + path,
        kept > 0 ==> base[kept - 1] != '/',
        forall|i: int| kept <= i < base.len() ==> base[i] == '/',
{
    crate::text::law_trimming_takes_only_slashes(base);
    let trimmed = crate::text::without_trailing_slashes(base);
    assert(trimmed.len() > 0 ==> base[trimmed.len() - 1] == trimmed.last());
    trimmed.len() as int
}

/// Each framing has its own media type and endpoint.
pub proof fn law_framings_are_told_apart(framing: StreamTransport)
    ensures
        framing == StreamTransport::Multipart ==> {
            &&& framing.media_type_text() == "multipart/mixed"@
            &&& framing.endpoint_text() == "/events:stream"@
        },
        framing == StreamTransport::Sse ==> {
            &&& framing.media_type_text() == "text/event-stream"@
            &&& framing.endpoint_text() == "/events:sse"@
        },
{
}

/// A client is made exactly where its HTTP client was, keeps it and its base URL, and tells why
/// there is none; choosing a framing changes nothing else.
pub proof fn law_client_keeps_what_it_is_given<H>(
    url: String,
    http: Result<H, String>,
    made: Result<RestBroker<H>, EventBrokerError>,
    framing: StreamTransport,
    chosen: RestBroker<H>,
)
    requires
        call_ensures(RestBroker::<H>::new, (url, http), made),
        made is Ok ==> call_ensures(
            RestBroker::<H>::with_stream_transport,
            (made->Ok_0, framing),
            chosen,
        ),
    ensures
        made is Ok <==> http is Ok,
        made is Err ==> made->Err_0 is Transport && made->Err_0->Transport_0 == http->Err_0,
        made is Ok ==> {
            &&& made->Ok_0.client() == http->Ok_0
            &&& made->Ok_0.base() == url@
            &&& made->Ok_0.transport() is Multipart
            &&& chosen.client() == http->Ok_0
            &&& chosen.base() == url@
            &&& chosen.transport() == framing
        },
{
}

} // verus!
