//! What can go wrong between a caller and the broker.
use vstd::prelude::*;

verus! {

/// Why a call to the broker did not give its result.
#[derive(Debug)]
pub enum EventBrokerError {
    /// The exchange itself failed, or the broker answered something the client cannot read.
    Transport(String),
    /// The options of a producer cannot be used.
    InvalidProducerOptions { detail: String, instance: String },
    /// No event type has this id.
    EventTypeUnknown { type_id: String, detail: String, instance: String },
    /// The broker refused the call with a problem of its catalogue.
    Refused { code: String, detail: String, instance: String },
}

impl EventBrokerError {
    /// This is a transport error that says `text`.
    pub open spec fn is_transport(self, text: Seq<char>) -> bool {
        self matches EventBrokerError::Transport(message) && message@ == text
    }
}

/// A failure of the transport, by its text.
pub fn to_transport(text: String) -> (r: EventBrokerError)
    ensures
        r == EventBrokerError::Transport(text),
{
    EventBrokerError::Transport(text)
}

/// A transport error says one thing, and no other error is one.
pub proof fn law_transport_errors_say_their_text(e: EventBrokerError, text: Seq<char>)
    ensures
        e.is_transport(text) <==> e is Transport && e->Transport_0@ == text,
{
}

} // verus!
