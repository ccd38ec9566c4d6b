//! The wire frame: a header of three little-endian 16-bit fields (code,
//! controller index, parameter length) followed by the parameters. A reply
//! echoes the operation code and adds a status byte before its payload.

use crate::error::Error;
use vstd::prelude::*;

verus! {

/// Bytes in a frame header.
pub const HEADER_LEN: usize = 6;

/// Where a reply echoes the operation code.
pub const REPLY_CODE_AT: usize = 6;

/// Where a reply holds its status byte.
pub const REPLY_STATUS_AT: usize = 8;

/// Where a reply's payload starts.
pub const REPLY_PAYLOAD_AT: usize = 9;

/// The controller index of a request that addresses no controller.
pub const NO_CONTROLLER: u16 = 0xFFFF;

/// The 16-bit number whose low byte is `low` and whose high byte is `high`.
pub open spec fn u16_le(low: u8, high: u8) -> u16 {
    (low + 256 * high) as u16
}

/// The two bytes of a 16-bit number, low byte first.
pub open spec fn le_pair(value: u16) -> Seq<u8> {
    seq![(value % 256) as u8, (value / 256) as u8]
}

/// The 16-bit field that a frame holds at `at`.
pub open spec fn field_at(frame: Seq<u8>, at: int) -> u16
    recommends
        0 <= at,
        at + 2 <= frame.len(),
{
    u16_le(frame[at], frame[at + 1])
}

/// The frame of a request.
pub open spec fn request_frame(code: u16, index: u16, params: Seq<u8>) -> Seq<u8>
    recommends
        params.len() <= u16::MAX,
{
    le_pair(code) + le_pair(index) + le_pair(params.len() as u16) + params
}

/// A request frame is six bytes longer than its parameters, and holds the
/// code, the index and the number of parameter bytes in its three header
/// fields and the parameters behind them.
pub proof fn lemma_request_frame_layout(code: u16, index: u16, params: Seq<u8>)
    requires
        params.len() <= u16::MAX,
    ensures
        request_frame(code, index, params).len() == 6 + params.len(),
        field_at(request_frame(code, index, params), 0) == code,
        field_at(request_frame(code, index, params), 2) == index,
        field_at(request_frame(code, index, params), 4) == params.len(),
        request_frame(code, index, params).skip(6) == params,
{
    let frame = request_frame(code, index, params);
    assert(frame.skip(6) =~= params);
}

/// Whether a frame echoes the operation `code`: it reaches to the end of the
/// echoed code, and that code is `code`. Nothing behind the code is looked at.
pub open spec fn echoes_code(frame: Seq<u8>, code: u16) -> bool {
    frame.len() >= 8 && field_at(frame, 6) == code
}

/// Whether a frame echoes the operation `code` and has a status byte.
pub open spec fn replies_to(frame: Seq<u8>, code: u16) -> bool {
    frame.len() >= 9 && field_at(frame, 6) == code
}

/// Why a stored reply yields no value, if it does not: nothing was stored,
/// the frame is cut short before its status byte, the status names an error,
/// or the frame is shorter than the `needed` bytes of a successful reply.
pub open spec fn reply_failure(frame: Seq<u8>, needed: int) -> Option<Error> {
    if frame.len() == 0 {
        Some(Error::NoResponse)
    } else if frame.len() < 9 {
        Some(Error::UnknownError)
    } else if frame[8] != 0 {
        Error::status_kind(frame[8])
    } else if frame.len() < needed {
        Some(Error::UnknownError)
    } else {
        None
    }
}

/// Splits a 16-bit number into its two bytes, low byte first.
pub fn split_u16(value: u16) -> (pair: (u8, u8))
    ensures
        seq![pair.0, pair.1] == le_pair(value),
        u16_le(pair.0, pair.1) == value,
{
    let low = (value & 0xff) as u8;
    let high = ((value >> 8) & 0xff) as u8;
    assert(value & 0xff == value % 256 && (value >> 8) & 0xff == value / 256) by (bit_vector);
    assert(seq![low, high] =~= le_pair(value));
    (low, high)
}

/// Joins two bytes into a 16-bit number, low byte first.
pub fn join_u16(low: u8, high: u8) -> (value: u16)
    ensures
        value == u16_le(low, high),
{
    let value = (low as u16) | ((high as u16) << 8);
    assert((low as u16) | ((high as u16) << 8) == low as u16 + 256 * (high as u16))
        by (bit_vector);
    value
}

/// Reads the 16-bit field at `at`.
pub(crate) fn read_field(frame: &[u8], at: usize) -> (value: u16)
    requires
        at + 2 <= frame@.len(),
    ensures
        value == field_at(frame@, at as int),
{
    join_u16(frame[at], frame[at + 1])
}

/// Looks at a stored reply before it is decoded.
pub fn check_reply(frame: &[u8], needed: usize) -> (failure: Option<Error>)
    ensures
        failure == reply_failure(frame@, needed as int),
{
    if frame.len() == 0 {
        Some(Error::NoResponse)
    } else if frame.len() < REPLY_PAYLOAD_AT {
        Some(Error::UnknownError)
    } else if frame[REPLY_STATUS_AT] != 0 {
        Error::from_status(frame[REPLY_STATUS_AT])
    } else if frame.len() < needed {
        Some(Error::UnknownError)
    } else {
        None
    }
}

/// Whether a frame echoes the operation `code`.
pub fn echoes(frame: &[u8], code: u16) -> (yes: bool)
    ensures
        yes == echoes_code(frame@, code),
{
    frame.len() >= REPLY_STATUS_AT && read_field(frame, REPLY_CODE_AT) == code
}

/// Serializes a request.
pub fn encode_request(code: u16, index: u16, params: &[u8]) -> (frame: Vec<u8>)
    requires
        params@.len() <= u16::MAX,
    ensures
        frame@ == request_frame(code, index, params@),
        frame@.len() == 6 + params@.len(),
{
    let code_bytes = split_u16(code);
    let index_bytes = split_u16(index);
    let length_bytes = split_u16(params.len() as u16);
    let mut frame: Vec<u8> = Vec::new();
    frame.push(code_bytes.0);
    frame.push(code_bytes.1);
    frame.push(index_bytes.0);
    frame.push(index_bytes.1);
    frame.push(length_bytes.0);
    frame.push(length_bytes.1);
    assert(frame@ =~= le_pair(code) + le_pair(index) + le_pair(params@.len() as u16));
    let mut at: usize = 0;
    while at < params.len()
        invariant
            at <= params@.len(),
            frame@ == (le_pair(code) + le_pair(index) + le_pair(params@.len() as u16))
                + params@.subrange(0, at as int),
        decreases params@.len() - at,
    {
        frame.push(params[at]);
        at += 1;
        assert(params@.subrange(0, at as int) =~= params@.subrange(0, at - 1).push(
            params@[at - 1],
        ));
        assert(frame@ =~= (le_pair(code) + le_pair(index) + le_pair(params@.len() as u16))
            + params@.subrange(0, at as int));
    }
    assert(params@.subrange(0, at as int) =~= params@);
    frame
}

} // verus!
