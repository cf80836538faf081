//! The core of a bridge between a DDS bus and a zenoh overlay: what is
//! discovered on the bus becomes events, events open routes, each at most once
//! and under one key, and payloads pass through the coder of their route.

pub mod coders;
pub mod config;
pub mod config_tree;
pub mod discovery;
pub mod filter;
pub mod forward;
pub mod qos;
pub mod route;
pub mod text;

pub use discovery::MatchedEntity;
pub use qos::QosHolder;
