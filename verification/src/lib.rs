//! A resource-safety layer between an extension's business logic and a
//! database engine's catalog-manipulation primitives.
//!
//! The layer opens and closes catalog relations under explicit lock modes,
//! builds and mutates catalog rows (tuples) that come either from a
//! system-level row cache or from freshly assembled data, and performs
//! catalog writes with index maintenance, while guaranteeing that every
//! engine resource acquired is released exactly once, through the release
//! path matching its provenance.
//!
//! The engine itself is represented by the explicit state model in
//! [`engine`]: every acquisition and release of an engine resource is
//! recorded there, so the exactly-once discipline of the handles in
//! [`catalog`] is stated in their contracts and checked by the verifier.

pub mod catalog;
pub mod engine;
