//! Live-stream site resolution and download planning.
//!
//! The library decides which platform a URL belongs to, extracts the
//! metadata a plugin needs from a landing page, composes default file names
//! and drives the byte-count of a stream copy. Network and file access are
//! left to the caller, who hands the results back as plain values.
pub mod decimal;
pub mod error;
pub mod pattern;
pub mod sites;
pub mod stream;
pub mod time;
pub mod xingyan2;
