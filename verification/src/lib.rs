//! Entitlement resolution for a payment-platform proxy.
//!
//! Given a subscriber's billing record and an externally assigned tier
//! identifier, the library determines which product tiers the subscriber
//! holds, whether each holding belongs to a grandfathered legacy cohort,
//! and when each holding expires. It also declares the plain data shapes
//! used by the surrounding gateway (event payloads and snowflake ids).

pub mod entitlement;
pub mod events;
pub mod expiry;
pub mod model;
pub mod models;
pub mod snowflake;
pub mod tier;
pub mod timestamp;
