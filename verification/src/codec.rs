//! Frame codec for the sensor's response protocol.
//!
//! A response frame is laid out as
//!
//! ```raw
//!   1 byte:   header, always 0x16
//!   1 byte:   length N of the following CMD + data-frame block
//!   N bytes:  CMD echo (0x0b) followed by data frames DF1..DF(N-1)
//!   1 byte:   checksum
//! ```
//!
//! The PM2.5 measurement is `DF3 * 256 + DF4` (data frames indexed from 1),
//! i.e. the bytes at offsets 5 and 6 of the frame. The checksum byte is
//! chosen so that all bytes of the frame sum to zero modulo 256.

use vstd::arithmetic::div_mod::lemma_add_mod_noop;
use vstd::arithmetic::div_mod::lemma_small_mod;
use vstd::prelude::*;

use crate::errors::ChecksumMismatch;
use crate::errors::Error;

verus! {

/// First byte of every response frame.
pub const RESPONSE_HEADER: u8 = 0x16;

/// Expected CMD-echo byte: the sensor restates the command it answers.
pub const CMD_ECHO: u8 = 0x0b;

/// Mathematical sum of the first `n` bytes of `s` (no wraparound).
pub open spec fn sum_bytes(s: Seq<u8>, n: int) -> int
    decreases n,
{
    if n <= 0 {
        0
    } else {
        sum_bytes(s, n - 1) + s[n - 1]
    }
}

/// The 8-bit running checksum the codec accumulates over header, length
/// byte and all data-frame bytes (everything before the trailing byte).
pub open spec fn running_checksum(s: Seq<u8>) -> u8 {
    (sum_bytes(s, 2 + s[1]) % 256) as u8
}

/// The buffer is long enough for the data-frame count its length byte
/// declares, plus the trailing checksum byte.
pub open spec fn well_sized(s: Seq<u8>) -> bool {
    s.len() >= 2 && s.len() > 2 + s[1]
}

/// All bytes of the frame, trailing checksum byte included, sum to zero
/// modulo 256.
pub open spec fn checksum_ok(s: Seq<u8>) -> bool {
    sum_bytes(s, 3 + s[1]) % 256 == 0
}

/// A frame that decodes successfully: well sized, correct header, correct
/// CMD echo (when a CMD byte is present at all) and a zeroing checksum.
pub open spec fn valid_response(s: Seq<u8>) -> bool {
    &&& well_sized(s)
    &&& s[0] == RESPONSE_HEADER
    &&& s[1] == 0 || s[2] == CMD_ECHO
    &&& checksum_ok(s)
}

/// The measurement carried by a frame: `DF3 * 256 + DF4`, where a data
/// frame outside the declared length contributes nothing.
pub open spec fn measurement(s: Seq<u8>) -> u16 {
    ((if s[1] > 3 {
        s[5] * 256
    } else {
        0
    }) + (if s[1] > 4 {
        s[6] as int
    } else {
        0
    })) as u16
}

/// Complete specification of [`parse_response`]: which value or which
/// error comes back for every possible buffer.
pub open spec fn spec_parse<E>(s: Seq<u8>) -> Result<u16, Error<E>> {
    if s.len() == 0 {
        Err(Error::MalformedLength)
    } else if s[0] != RESPONSE_HEADER {
        Err(Error::InvalidHeader(s[0]))
    } else if !well_sized(s) {
        Err(Error::MalformedLength)
    } else if s[1] >= 1 && s[2] != CMD_ECHO {
        Err(Error::InvalidCommandResponse(s[2]))
    } else if !checksum_ok(s) {
        Err(Error::InvalidChecksum(ChecksumMismatch {
            expected: s[2 + s[1]],
            calculated: running_checksum(s),
        }))
    } else {
        Ok(measurement(s))
    }
}

/// Accumulating one more byte into an 8-bit checksum and wrapping is the
/// same as reducing the full mathematical sum: sums beyond 255 wrap
/// around silently and never leave the byte range.
pub proof fn lemma_checksum_step(s: Seq<u8>, n: int)
    requires
        0 <= n,
    ensures
        (sum_bytes(s, n) % 256 + s[n]) % 256 == sum_bytes(s, n + 1) % 256,
{
    lemma_small_mod(s[n] as nat, 256);
    lemma_add_mod_noop(sum_bytes(s, n), s[n] as int, 256);
}

/// On every valid response — correct header, correct CMD echo, zeroing
/// checksum — parsing yields exactly `DF3 * 256 + DF4`, whatever the
/// unused data-frame bytes hold.
pub proof fn lemma_parse_valid_response<E>(s: Seq<u8>)
    requires
        valid_response(s),
    ensures
        spec_parse::<E>(s) == Ok::<u16, Error<E>>(measurement(s)),
{
}

/// On every response whose first byte is not the header `0x16`, parsing
/// fails with `InvalidHeader` carrying that exact byte.
pub proof fn lemma_parse_bad_header<E>(s: Seq<u8>)
    requires
        s.len() >= 1,
        s[0] != RESPONSE_HEADER,
    ensures
        spec_parse::<E>(s) == Err::<u16, Error<E>>(Error::InvalidHeader(s[0])),
{
}

/// On every well-sized response whose CMD-echo byte is not `0x0b`,
/// parsing fails with `InvalidCommandResponse` carrying that exact byte,
/// whether or not the checksum would have been satisfied.
pub proof fn lemma_parse_bad_cmd_echo<E>(s: Seq<u8>)
    requires
        well_sized(s),
        s[0] == RESPONSE_HEADER,
        s[1] >= 1,
        s[2] != CMD_ECHO,
    ensures
        spec_parse::<E>(s) == Err::<u16, Error<E>>(Error::InvalidCommandResponse(s[2])),
{
}

/// On every well-sized response that passes the header and CMD-echo
/// checks but whose bytes do not sum to zero modulo 256, parsing fails
/// with `InvalidChecksum` reporting both the trailing byte and the
/// calculated running sum.
pub proof fn lemma_parse_bad_checksum<E>(s: Seq<u8>)
    requires
        well_sized(s),
        s[0] == RESPONSE_HEADER,
        s[1] == 0 || s[2] == CMD_ECHO,
        !checksum_ok(s),
    ensures
        spec_parse::<E>(s) == Err::<u16, Error<E>>(
            Error::InvalidChecksum(
                ChecksumMismatch { expected: s[2 + s[1]], calculated: running_checksum(s) },
            ),
        ),
{
}

/// Parsing is a pure function of the buffer: two results obtained from
/// the same bytes — e.g. by calling [`parse_response`] twice on the same
/// immutable buffer — are identical.
pub proof fn lemma_parse_deterministic<E>(
    s: Seq<u8>,
    r1: Result<u16, Error<E>>,
    r2: Result<u16, Error<E>>,
)
    requires
        r1 == spec_parse::<E>(s),
        r2 == spec_parse::<E>(s),
    ensures
        r1 == r2,
{
}

/// Validate a raw response buffer and extract the PM2.5 measurement, or
/// classify exactly why validation failed.
///
/// The checks run in order: header byte, declared length against the
/// buffer's real length, CMD echo, checksum. A zero-length data-frame
/// block is not an error of its own: the loop runs zero times, the
/// measurement stays `0`, and the checksum byte is expected at offset 2.
pub fn parse_response<E>(response: &[u8]) -> (r: Result<u16, Error<E>>)
    ensures
        r == spec_parse::<E>(response@),
        r is Ok <==> valid_response(response@),
{
    if response.len() == 0 {
        return Err(Error::MalformedLength);
    }

    // Check header
    if response[0] != RESPONSE_HEADER {
        return Err(Error::InvalidHeader(response[0]));
    }

    if response.len() < 2 {
        return Err(Error::MalformedLength);
    }
    let length: u8 = response[1];
    if response.len() <= 2 + length as usize {
        return Err(Error::MalformedLength);
    }

    // Running checksum over header and length byte
    let mut checksum: u8 = response[0].wrapping_add(length);
    proof {
        assert(sum_bytes(response@, 0) == 0);
        assert(sum_bytes(response@, 1) == response@[0]);
        assert(sum_bytes(response@, 2) == response@[0] + response@[1]);
        lemma_small_mod(response@[0] as nat, 256);
        lemma_checksum_step(response@, 1);
    }

    // PM2.5 = DF3 * 256 + DF4 (indexed from 1)
    let mut result: u16 = 0;

    let mut i: usize = 0;
    while i < length as usize
        invariant
            response@.len() > 2 + length,
            response@[0] == RESPONSE_HEADER,
            response@[1] == length,
            i <= length,
            checksum as int == sum_bytes(response@, 2 + i) % 256,
            result as int == (if i > 3 {
                response@[5] * 256
            } else {
                0
            }) + (if i > 4 {
                response@[6] as int
            } else {
                0
            }),
            i >= 1 ==> response@[2] == CMD_ECHO,
        decreases length - i,
    {
        let byte: u8 = response[2 + i];
        if i == 0 {
            // CMD echo
            if byte != CMD_ECHO {
                return Err(Error::InvalidCommandResponse(byte));
            }
        } else if i == 3 {
            // DF3
            result = byte as u16 * 256;
        } else if i == 4 {
            // DF4
            result = result + byte as u16;
        }
        proof {
            lemma_checksum_step(response@, 2 + i);
        }
        checksum = checksum.wrapping_add(byte);
        i = i + 1;
    }

    let expected_checksum: u8 = response[2 + length as usize];
    let diff: u8 = expected_checksum.wrapping_add(checksum);
    proof {
        lemma_small_mod(expected_checksum as nat, 256);
        lemma_add_mod_noop(
            expected_checksum as int,
            sum_bytes(response@, 2 + length),
            256,
        );
    }
    if diff != 0 {
        return Err(Error::InvalidChecksum(ChecksumMismatch {
            expected: expected_checksum,
            calculated: checksum,
        }));
    }

    Ok(result)
}

} // verus!
