//! A synchronous, handle-based boundary layer for an embedded database
//! engine.
//!
//! The engine itself (connections, queries, replication) is an external
//! collaborator reached through asynchronous calls; this crate holds
//! the boundary protocol around it, verified end to end:
//!
//! - [`handles`]: the lifecycle of every opaque resource — a slot table
//!   with generation-checked handles, so stale and double frees are
//!   caught instead of being undefined;
//! - [`values`]: the five-kind typed value model and its wire codes;
//! - [`text`]: UTF-8 validation of every textual input, proved against
//!   the mathematical definition of the encoding;
//! - [`errors`]: the out-parameter error channel and its messages;
//! - [`params`]: the positional and named parameter accumulators;
//! - [`rows`]: the value marshaler — row snapshots, typed getters, and
//!   cursor column metadata;
//! - [`batch`]: the pull-based iterator over a batch's result sets;
//! - [`config`]: decoding of the configuration record and the other
//!   textual inputs, with the per-call status taxonomy;
//! - [`boundary`]: the completion protocol every entry point follows,
//!   and the consuming commit/rollback discipline;
//! - [`token`]: the packed 64-bit form a handle crosses the foreign
//!   boundary as, with zero reserved for the null handle;
//! - [`laws`]: the cross-cutting guarantees, stated over the models.
//!
//! The process-wide executor, the raw C surface and the engine calls
//! live outside, in the unverified shim that drives this crate.

pub mod batch;
pub mod boundary;
pub mod config;
pub mod errors;
pub mod handles;
pub mod laws;
pub mod params;
pub mod rows;
pub mod text;
pub mod token;
pub mod values;
