//! Error taxonomy of the driver.
//!
//! Every failure is surfaced immediately to the caller; nothing is retried
//! or downgraded inside the driver.

use vstd::prelude::*;

verus! {

/// The two sides of a failed checksum comparison: the trailing byte the
/// frame carried and the running sum the codec accumulated.
#[derive(Debug)]
pub struct ChecksumMismatch {
    pub expected: u8,
    pub calculated: u8,
}

/// Everything that can go wrong during one request/response transaction.
///
/// `E` is the transport's own error type; it is carried through unchanged
/// and never inspected.
#[derive(Debug)]
pub enum Error<E> {
    /// The response's first byte was not the response header `0x16`.
    InvalidHeader(u8),
    /// The CMD-echo byte of the response was not the query command `0x0b`.
    InvalidCommandResponse(u8),
    /// The running checksum did not zero out against the trailing byte.
    InvalidChecksum(ChecksumMismatch),
    /// The buffer is too short for the data-frame count its length byte
    /// declares, so decoding it would read out of range.
    MalformedLength,
    /// The transport failed while the response was being read.
    SerialReadFail(E),
    /// The transport failed while the request was being written.
    SerialWriteFail(E),
}

} // verus!
