//! Admission pipeline for an advertising bid-request ingestion gateway.
//!
//! An inbound bid request passes through three stages in strict order:
//! structural validation, business filtering, and serialization for the
//! downstream publish sink. Each stage is a pure function with a proved
//! contract; the surrounding HTTP server and queue client live outside
//! this crate and drive the pipeline through its public functions.

/// Typed representation of a bid request and its nested entities.
pub mod model;
/// Stage 1: structural admission checks.
pub mod validate;
/// Stage 2: business filtering rules.
pub mod filter;
/// Stage 3, serialization half: the canonical JSON payload.
pub mod serialize;
/// The orchestrator: stage order, terminal states, HTTP mapping.
pub mod pipeline;
/// The observability surface: per-outcome request counters.
pub mod metrics;
