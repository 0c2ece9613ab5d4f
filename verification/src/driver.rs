//! Transaction driver: one request/response exchange per call.
//!
//! The driver owns a fixed 20-byte response buffer and a handle to a
//! byte-stream transport. A call writes the constant request frame, reads
//! one response frame into the buffer, and hands the buffer to the codec.
//! Every failure is surfaced immediately; the caller owns any retry
//! policy.

use vstd::prelude::*;

use crate::codec::parse_response;
use crate::codec::spec_parse;
use crate::errors::Error;

verus! {

/// Blocking duplex byte-stream transport, supplied by the embedding
/// application (typically a serial port wired to the sensor).
///
/// Implementations are unverified; the driver assumes only what the
/// contracts below state: a successful `write` or `read` reports at most
/// as many bytes as were offered. Nothing is assumed about the bytes a
/// `read` deposits, so the driver validates every response in full.
pub trait Transport {
    /// The transport's own error type; carried through the driver's
    /// errors unchanged and never inspected.
    type TransportError;

    /// Write the bytes of `data` to the device, blocking until at least
    /// part of it is accepted or the transport fails. `Ok(n)` reports
    /// that the first `n` bytes were accepted.
    fn write(&mut self, data: &[u8]) -> (r: Result<usize, Self::TransportError>)
        ensures
            r matches Ok(n) ==> n <= data@.len(),
    ;

    /// Read from the device into `buf`, blocking until some bytes arrive
    /// or the transport fails. `Ok(n)` reports that the first `n` bytes
    /// of `buf` were filled; the rest keep their previous contents.
    fn read(&mut self, buf: &mut [u8; 20]) -> (r: Result<usize, Self::TransportError>)
        ensures
            r matches Ok(n) ==> n <= 20,
    ;
}

/// Driver for one PM1006 sensor on one transport.
///
/// Synchronous and single-threaded: one transaction at a time per
/// instance, the response buffer is overwritten on every call.
pub struct Pm1006<Uart> {
    uart: Uart,
    buffer: [u8; 20],
}

impl<Uart> Pm1006<Uart> {
    /// The driver's owned response buffer, as the sequence of bytes the
    /// codec would decode.
    pub closed spec fn response_bytes(&self) -> Seq<u8> {
        self.buffer@
    }
}

impl<Uart: Transport> Pm1006<Uart> {
    /// Take ownership of a transport and set up a driver with a zeroed
    /// response buffer.
    pub fn new(uart: Uart) -> (r: Self)
        ensures
            r.response_bytes().len() == 20,
            forall|i: int| 0 <= i < 20 ==> r.response_bytes()[i] == 0,
    {
        Self { uart, buffer: [0; 20] }
    }

    /// Perform one full transaction: send the query, read one response
    /// frame, decode it.
    ///
    /// The result is exactly the codec's verdict on the bytes the buffer
    /// holds after the call, unless the transport itself failed first: a
    /// write failure comes back as `SerialWriteFail` with the buffer
    /// untouched (no read is attempted), a read failure as
    /// `SerialReadFail`.
    pub fn read_pm25(&mut self) -> (r: Result<u16, Error<Uart::TransportError>>)
        ensures
            !(r matches Err(Error::SerialWriteFail(_)) || r matches Err(
                Error::SerialReadFail(_),
            )) ==> r == spec_parse::<Uart::TransportError>(final(self).response_bytes()),
            r matches Err(Error::SerialWriteFail(_)) ==> final(self).response_bytes() == old(
                self,
            ).response_bytes(),
    {
        match self.send_command() {
            Ok(_) => (),
            Err(e) => {
                return Err(e);
            },
        }
        match self.read_response() {
            Ok(_) => (),
            Err(e) => {
                return Err(e);
            },
        }

        parse_response::<Uart::TransportError>(self.buffer.as_slice())
    }

    /// Read one response frame from the transport into the owned buffer.
    /// A transport failure is wrapped as `SerialReadFail`.
    fn read_response(&mut self) -> (r: Result<usize, Error<Uart::TransportError>>)
        ensures
            match r {
                Ok(n) => n <= 20,
                Err(e) => e matches Error::SerialReadFail(_),
            },
    {
        match self.uart.read(&mut self.buffer) {
            Ok(n) => Ok(n),
            Err(e) => Err(Error::SerialReadFail(e)),
        }
    }

    /// Write the constant 5-byte request frame `11 02 0B 01 E1` to the
    /// transport. A transport failure is wrapped as `SerialWriteFail`;
    /// the response buffer is never touched here.
    fn send_command(&mut self) -> (r: Result<usize, Error<Uart::TransportError>>)
        ensures
            final(self).response_bytes() == old(self).response_bytes(),
            match r {
                Ok(n) => n <= 5,
                Err(e) => e matches Error::SerialWriteFail(_),
            },
    {
        let command: [u8; 5] = [0x11, 0x02, 0x0b, 0x01, 0xe1];
        match self.uart.write(command.as_slice()) {
            Ok(n) => Ok(n),
            Err(e) => Err(Error::SerialWriteFail(e)),
        }
    }
}

} // verus!
