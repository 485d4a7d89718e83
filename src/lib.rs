//! Derives a bounded, numeric version string from the nearest tag of a
//! repository, its commit count and the tag's creation time.

pub mod compose;
pub mod config;
pub mod decimal;
pub mod describe;
pub mod error;
pub mod laws;
