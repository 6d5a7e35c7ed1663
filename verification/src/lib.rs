//! Verified core of a RAW-to-panorama batch pipeline.
//!
//! The library models the orchestration logic: partitioning inputs into
//! groups, the per-group pipeline state machine, the decoder resource
//! lifecycle, the external tool command lines, and output naming. The
//! thin unverified shell around it performs the actual process spawning
//! and filesystem work.

pub mod batch;
pub mod decimal;
pub mod hugin;
pub mod libraw;
pub mod naming;
pub mod paths;
pub mod pipeline;
