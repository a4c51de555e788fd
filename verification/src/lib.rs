//! A dual-sink publish coordinator.
//!
//! One logical publish request is driven through two independent backends — a
//! durable store and a message broker — with a fixed ordering (store first),
//! a short-circuit policy on store failure, and an accepted inconsistency
//! window when the broker publish fails after the store write committed.
//! A long-lived background pump drains the broker's event stream and stops
//! for good at the first polling error.
//!
//! The decisions are pure state machines verified here; the caller performs
//! the I/O each emitted action asks for and feeds the outcome back in.

pub mod broker;
pub mod coordinator;
pub mod messages;
pub mod pump;
pub mod store;
