//! A batch JPEG re-compression pipeline.
//!
//! A run resolves a configuration into an immutable [`policy::RunPolicy`],
//! discovers candidate files, sends each through an ordered, individually
//! toggleable transform pipeline (resize, sharpen, brighten, contrast),
//! re-encodes it at the configured quality, and reports one outcome per
//! file: the compression ratio on success, the failure otherwise.

pub mod codec;
pub mod discover;
pub mod filters;
pub mod job;
pub mod outcome;
pub mod paths;
pub mod pixels;
pub mod policy;
pub mod report;
pub mod run;
pub mod transform;
