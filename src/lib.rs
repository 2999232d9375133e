//! A pipe has two ends and no middle.
//!
//! The library decides what one request for an anonymous pipe comes to: from
//! the status that the operating system returned, the two descriptors it filled
//! in and the error number it reported, either a matched pair of descriptors or
//! the OS error, passed through as it came.

pub mod endpoints;
pub mod laws;

pub use endpoints::{pipe_from_raw, OsError, PipeFds};
