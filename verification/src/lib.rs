//! Verified core of a tag-search archiver: it decomposes a calendar range
//! into monthly fetch windows, drives cursor pagination within each window,
//! builds the wire-format request strings, and accounts for token-bucket
//! rate limiting. All I/O (HTTP transport, file output, timers) lives
//! outside this crate and hands plain values in and out.

pub mod calendar;
pub mod config;
pub mod envelope;
pub mod rate;
pub mod window;
pub mod wire;
