//! The broker's resources, as callers see them.
use vstd::prelude::*;

use crate::ids::{ConsumerGroupId, GtsInstanceId, GtsTypeId, SubscriptionId};

verus! {

/// A point in time: seconds since 1970-01-01T00:00:00Z, and the nanoseconds that follow them.
#[derive(Debug, Clone, Copy, PartialEq, Eq, Structural)]
pub struct Timestamp {
    pub seconds: i64,
    pub nanos: u32,
}

/// An event's place in its partition, as the broker assigned it.
#[derive(Debug, Clone, Copy, PartialEq, Eq, Structural)]
pub struct Sequence(pub i64);

impl Sequence {
    /// The sequence that the broker assigned.
    pub fn assigned(value: i64) -> (r: Self)
        ensures
            r == Sequence(value),
    {
        Sequence(value)
    }

    /// The sequence as a number.
    pub fn as_i64(&self) -> (r: i64)
        ensures
            r == self.0,
    {
        self.0
    }
}

/// How a consumer group is identified.
#[derive(Debug, Clone, Copy, PartialEq, Eq, Structural)]
pub enum ConsumerGroupKind {
    Anonymous,
    Named,
}

/// A consumer group.
#[derive(Debug)]
pub struct ConsumerGroup {
    pub id: ConsumerGroupId,
    pub tenant_id: u128,
    pub owner_principal_id: u128,
    pub kind: ConsumerGroupKind,
    pub description: Option<String>,
    pub created_at: Timestamp,
}

/// Which consumer groups to list, and in what order.
#[derive(Debug)]
pub struct ConsumerGroupQuery {
    pub limit: Option<u32>,
    pub cursor: Option<String>,
    pub filter: Option<String>,
    pub orderby: Option<String>,
}

/// One page of a list.
#[derive(Debug)]
pub struct Page<T> {
    pub items: Vec<T>,
    pub next_cursor: Option<String>,
    pub prev_cursor: Option<String>,
    pub limit: u32,
}

/// A partition that a subscription reads.
#[derive(Debug)]
pub struct PartitionAssignment {
    pub topic: GtsInstanceId,
    pub partition: u32,
}

/// A subscription of a consumer group's member.
#[derive(Debug)]
pub struct Subscription {
    pub id: SubscriptionId,
    pub consumer_group: ConsumerGroupId,
    pub assigned: Vec<PartitionAssignment>,
    pub topology_version: i64,
    pub expires_at: Timestamp,
}

/// A type of events.
pub struct EventType {
    pub id: GtsTypeId,
    pub topic: GtsInstanceId,
    pub description: Option<String>,
    pub allowed_subject_types: Vec<String>,
    pub partition_key: Option<String>,
    pub data_schema: Option<serde_json::Value>,
}

/// A topic; `D` is the caller's type of durations.
pub struct Topic<D> {
    pub id: GtsInstanceId,
    pub description: String,
    pub retention: Option<D>,
}

/// Which part of a partition to describe.
#[derive(Debug, Clone, Copy)]
pub struct PartitionRange {
    pub start_offset: Option<Sequence>,
    pub end_offset: Option<Sequence>,
    pub limit: u32,
}

/// The manifest of one partition of a topic; `G` is the caller's type of segments.
pub struct TopicSegment<G> {
    pub topic: String,
    pub partition: u32,
    pub start_sequence: Sequence,
    pub end_sequence: Sequence,
    pub start_time: Option<Timestamp>,
    pub end_time: Option<Timestamp>,
    pub segments: Vec<G>,
}

/// An event.
pub struct Event {
    pub id: u128,
    pub type_id: String,
    pub tenant_id: u128,
    pub source: String,
    pub subject: String,
    pub subject_type: String,
    pub occurred_at: Timestamp,
    pub trace_parent: Option<String>,
    pub data: Option<serde_json::Value>,
    pub partition: Option<u32>,
    pub sequence: Option<Sequence>,
    pub sequence_time: Option<Timestamp>,
    pub meta: Option<serde_json::Value>,
}

} // verus!
