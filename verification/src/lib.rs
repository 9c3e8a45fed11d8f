//! A typed marshalling layer for particle-system plugins of a host game
//! engine.
//!
//! The host engine addresses plugin data with 32-bit integer tags,
//! nul-terminated byte strings and plain-data records.  This crate provides
//! the verified core of a plugin layer over that interface: a bidirectional
//! integer-tag codec, typed descriptors with conversions to and from the
//! host's record shapes, the buffer handoff discipline for descriptor lists,
//! and the dispatch table of recognized entry-point handler names.

pub mod dispatch;
pub mod entry;
pub mod sp;
pub mod tags;
pub mod usermod;
