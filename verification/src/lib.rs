//! A typed client for an event broker's `/event-broker/v1` HTTP surface.
//!
//! The library plans each request and reads each reply; sending and receiving is left to a
//! transport that the caller brings. Uuids are held as their 128-bit value.
//!
//! Beside the client stand the decisions of two programs around the broker: the command-line
//! client ([`evctl`]), and the usage-type catalog of the collector ([`catalog`], [`refresh`],
//! [`live`]).
pub mod api;
pub mod catalog;
pub mod client;
pub mod convert;
pub mod endpoints;
pub mod error;
pub mod evctl;
pub mod exchange;
pub mod ids;
pub mod listing;
pub mod live;
pub mod models;
pub mod outside;
pub mod query;
pub mod refresh;
pub mod replies;
pub mod text;
pub mod uuids;
pub mod wire;
