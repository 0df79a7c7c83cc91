//! The bodies that requests and replies carry.
use vstd::prelude::*;

use crate::models::Timestamp;

verus! {

/// A producer mode that can be registered.
#[derive(Debug, Clone, Copy, PartialEq, Eq, Structural)]
pub enum ProducerModeWire {
    Chained,
    Monotonic,
}

/// Asks to register a producer.
#[derive(Debug)]
pub struct RegisterProducerWire {
    pub mode: ProducerModeWire,
    pub client_agent: String,
}

/// A registered producer's id.
#[derive(Debug, Clone, Copy, PartialEq, Eq, Structural)]
pub struct RegisterProducerResponseWire {
    pub id: u128,
}

/// How far an interest reaches: a number of levels, or all of them (`null`).
#[derive(Debug, Clone, Copy, PartialEq, Eq, Structural)]
pub enum MaxDepthWire {
    Levels(i32),
    Unlimited,
}

/// Whether an interest stops at barriers.
#[derive(Debug, Clone, Copy, PartialEq, Eq, Structural)]
pub enum BarrierModeWire {
    Respect,
    Ignore,
}

/// A filter.
#[derive(Debug)]
pub struct FilterSpecWire {
    pub engine: String,
    pub expression: String,
}

/// An interest, as it is asked for.
#[derive(Debug)]
pub struct InterestWire {
    pub topic: String,
    pub tenant_id: u128,
    pub max_depth: MaxDepthWire,
    pub barrier_mode: BarrierModeWire,
    pub types: Vec<String>,
    pub filter: Option<FilterSpecWire>,
}

/// An interest, as the broker echoes it: no `max_depth` means no limit.
#[derive(Debug)]
pub struct InterestResponseWire {
    pub topic: String,
    pub tenant_id: u128,
    pub max_depth: Option<i32>,
    pub barrier_mode: String,
    pub types: Vec<String>,
    pub filter: Option<FilterSpecWire>,
}

/// How a consumer group is identified.
#[derive(Debug, Clone, Copy, PartialEq, Eq, Structural)]
pub enum ConsumerGroupKindWire {
    Anonymous,
    Named,
}

/// A consumer group.
#[derive(Debug)]
pub struct ConsumerGroupWire {
    pub id: String,
    pub tenant_id: u128,
    pub owner_principal_id: u128,
    pub kind: ConsumerGroupKindWire,
    pub description: Option<String>,
    pub created_at: Timestamp,
}

/// Asks to join a consumer group.
#[derive(Debug)]
pub struct JoinSubscriptionWire {
    pub consumer_group: String,
    pub client_agent: String,
    pub interests: Vec<InterestWire>,
    pub session_timeout: Option<String>,
}

/// A partition that a subscription reads.
#[derive(Debug)]
pub struct AssignedPartitionWire {
    pub topic: String,
    pub partition: i32,
}

/// A subscription.
#[derive(Debug)]
pub struct SubscriptionWire {
    pub id: u128,
    pub consumer_group: String,
    pub client_agent: String,
    pub interests: Vec<InterestResponseWire>,
    pub assigned: Vec<AssignedPartitionWire>,
    pub topology_version: i64,
    pub expires_at: Timestamp,
}

/// An event type.
pub struct EventTypeWire {
    pub id: String,
    pub topic: String,
    pub description: Option<String>,
    pub allowed_subject_types: Vec<String>,
    pub partition_key: Option<String>,
    pub data_schema: Option<serde_json::Value>,
}

/// A topic.
#[derive(Debug)]
pub struct TopicWire {
    pub id: String,
    pub description: Option<String>,
    pub retention: Option<String>,
}

/// The manifest of one partition of a topic.
pub struct TopicSegmentsResponseWire<G> {
    pub topic: String,
    pub partition: i32,
    pub start_sequence: i64,
    pub end_sequence: i64,
    pub start_time: Option<Timestamp>,
    pub end_time: Option<Timestamp>,
    pub segments: Vec<G>,
}

/// Where a page stands in its list.
#[derive(Debug)]
pub struct PageInfoWire {
    pub next_cursor: Option<String>,
    pub prev_cursor: Option<String>,
    pub limit: u64,
}

/// One page of a list.
#[derive(Debug)]
pub struct PageWire<T> {
    pub items: Vec<T>,
    pub page_info: PageInfoWire,
}

} // verus!
