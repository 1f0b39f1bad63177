//! Decision engine for emitting foreign-handle wrapper declarations.
//!
//! Given resolved metadata about a library type — its native handle name,
//! its memory-management strategy, its supertypes, its minimum supported
//! platform version and its discovered constructors — the crate decides
//! which declarations to produce, in what structural shape, and under what
//! conditional gates, and appends the resulting lines to a text sink.

pub mod general;
pub mod laws;
pub mod model;
pub mod sink;
pub mod text;
pub mod version;
