//! Batch photo post-processing core: geofencing against configured privacy
//! zones, GPS-derived timestamp correction, the per-file decision pipeline,
//! and success/failure accounting.
//!
//! Metadata access, directory traversal and the floating-point great-circle
//! distance live outside this crate; the decision logic here works on plain
//! values handed in by the surrounding program.

pub mod batch;
pub mod geo;
pub mod outcome;
pub mod pipeline;
