//! What callers ask of the broker, and what they get.
use vstd::prelude::*;

use crate::ids::{ConsumerGroupId, SubscriptionId};
use crate::models::Timestamp;

verus! {

/// How far below its tenant an interest reaches.
#[derive(Debug, Clone, Copy, PartialEq, Eq, Structural)]
pub enum TenantTraversalDepth {
    /// The tenant alone.
    CurrentTenant,
    /// That many levels of descendants, at least one.
    Descendants(u32),
    /// All descendants.
    UnlimitedDescendants,
}

impl TenantTraversalDepth {
    /// A depth of descendants has at least one level.
    pub open spec fn wf(self) -> bool {
        self matches TenantTraversalDepth::Descendants(levels) ==> levels > 0
    }

    /// `levels` levels of descendants.
    pub fn descendants(levels: u32) -> (r: Self)
        requires
            levels > 0,
        ensures
            r == TenantTraversalDepth::Descendants(levels),
            r.wf(),
    {
        TenantTraversalDepth::Descendants(levels)
    }
}

/// Whether a traversal stops at tenants that hide themselves from their ancestors.
#[derive(Debug, Clone, Copy, PartialEq, Eq, Structural)]
pub enum BarrierMode {
    Respect,
    Ignore,
}

/// A server-side filter: an expression, and the engine that reads it.
#[derive(Debug)]
pub struct Filter {
    pub engine: String,
    pub expression: String,
}

/// What a member of a group wants to be sent.
#[derive(Debug)]
pub struct SubscriptionInterest {
    pub topic: String,
    pub tenant_id: u128,
    pub tenant_depth: TenantTraversalDepth,
    pub barrier_mode: BarrierMode,
    pub types: Vec<String>,
    pub filter: Option<Filter>,
}

/// How the broker orders and deduplicates what a producer publishes.
#[derive(Debug, Clone, Copy, PartialEq, Eq, Structural)]
pub enum ProducerMode {
    Chained,
    Monotonic,
    /// Neither: such a producer is not registered.
    Stateless,
}

/// What became of published events.
#[derive(Debug, Clone, Copy, PartialEq, Eq, Structural)]
pub enum IngestOutcome {
    /// They are stored.
    Persisted,
    /// They are taken and will be stored.
    Accepted,
    /// They had been published before. The broker's replies do not carry this.
    Duplicate,
}

/// A length of time, as seconds and the nanoseconds that follow them.
#[derive(Debug, Clone, Copy, PartialEq, Eq, Structural)]
pub struct SessionTimeout {
    pub secs: u64,
    pub nanos: u32,
}

/// A request to join a consumer group.
#[derive(Debug)]
pub struct JoinRequest {
    pub group: ConsumerGroupId,
    pub client_agent: String,
    pub interests: Vec<SubscriptionInterest>,
    pub session_timeout: Option<SessionTimeout>,
}

/// A partition that a member was given.
#[derive(Debug)]
pub struct AssignedPartition {
    pub topic: String,
    pub partition: u32,
}

/// What a member got when it joined.
#[derive(Debug)]
pub struct SubscriptionAssignment {
    pub subscription_id: SubscriptionId,
    pub topology_version: i64,
    pub expires_at: Timestamp,
    pub assigned: Vec<AssignedPartition>,
}

/// Where in a partition to read on.
#[derive(Debug, Clone, Copy, PartialEq, Eq, Structural)]
pub enum Position {
    /// At the first event that is still held.
    Earliest,
    /// At this offset.
    Offset(i64),
}

/// The position to take in one partition.
#[derive(Debug)]
pub struct SeekPosition {
    pub topic: String,
    pub partition: u32,
    pub value: Position,
}

/// Every depth is proper but one: no levels of descendants.
pub proof fn law_only_no_levels_are_improper(depth: TenantTraversalDepth)
    ensures
        !depth.wf() <==> depth == TenantTraversalDepth::Descendants(0),
{
}

} // verus!
