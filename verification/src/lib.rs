//! Reconciles the series of a Komga media library with the records of the
//! Bangumi metadata provider.
//!
//! The crate holds the decisions of the two-phase synchronisation: which
//! series a phase works on, how a series is resolved to a provider record,
//! how a provider record becomes catalog metadata, in which order a unit of
//! work makes its requests, and how many units may be in flight at once. Network traffic is left to the caller, which
//! performs the requests that the functions here hand out and reports what
//! came back.

pub mod batch;
pub mod bgm;
pub mod config;
pub mod fault;
pub mod komga;
pub mod sync;
pub mod text;
pub mod unit;
