//! Identification reports for uploaded binary artifacts: size, type labels,
//! digests, a human-readable label and the outputs of delegated probes.

pub mod digest;
pub mod probe;
pub mod report;
pub mod size;
pub mod text;
