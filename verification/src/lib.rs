//! A verified boundary layer for a source-transformation engine.
//!
//! The engine itself (parse, transform, emit) is an external collaborator;
//! this crate owns everything around one invocation of it: decoding the
//! host's loosely typed option payloads into validated configuration,
//! registering source text with computed line offsets, establishing a fresh
//! call-scoped context, collecting diagnostics, and turning every outcome
//! into a single host-consumable value.

pub mod diag;
pub mod facade;
pub mod laws;
pub mod options;
pub mod registry;
pub mod scope;
pub mod task;
pub mod value;
