//! Bounded subscription query engine for long-form articles on a relay-based
//! publish/subscribe network.
//!
//! The engine drives one subscription through its lifecycle: it races inbound
//! relay notifications against a wall-clock deadline, accumulates matching
//! results (deduplicated or relay-attributed), detects natural completion when
//! the relay signals the end of its stored events, and guarantees that the
//! subscription is released on every exit path. On top of the engine sit the
//! two request builders: a deletion request referencing every matched event
//! revision, and a per-relay listing of matched articles.

pub mod accumulator;
pub mod content;
pub mod coordinator;
pub mod deadline;
pub mod deletion;
pub mod listing;
pub mod matcher;
pub mod tags;
