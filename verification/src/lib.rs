//! Driver for the PM1006 particulate-matter sensor.
//!
//! The sensor answers a fixed five-byte query with a fixed-size response
//! frame carrying a PM2.5 concentration. This crate provides the frame
//! codec (validation, checksum, field extraction) and a small transaction
//! driver that performs one request/response exchange over an injected
//! byte-stream transport.

pub mod codec;
mod driver;
pub mod errors;

pub use codec::parse_response;
pub use driver::Pm1006;
pub use driver::Transport;
pub use errors::ChecksumMismatch;
