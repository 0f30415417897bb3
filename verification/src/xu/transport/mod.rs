//! Addressing constants of the Tiny 2 vendor XU and the rules the
//! `UVCIOC_CTRL_QUERY` transport applies around each ioctl: the size
//! field of a query, the length reply of `GET_LEN`, the zero-padding of
//! a `SET_CUR` payload to the selector length, and the exact-length
//! check of a `GET_CUR` buffer. The ioctl itself is issued by the
//! program around the library.

use vstd::prelude::*;

use crate::error::invalid_input_error;
use crate::text::{push_decimal, push_str};
use crate::xu::errors::XuError;

pub mod uvc;

verus! {

/// XU unit ID for the Tiny 2 family vendor Extension Unit.
pub const BUNIT_ID: u8 = 0x02;

/// Selector `0x06`: opcode-multiplexed `[op, len, payload]` block;
/// returns the 60-byte status struct on `GET_CUR`.
pub const SELECTOR_OPCODE: u8 = 0x06;

/// Selector `0x02`: structured 36-byte frames.
pub const SELECTOR_FRAME: u8 = 0x02;

/// The `size` field of a query over a buffer of `len` bytes.
///
/// The field is 16 bits wide: a longer buffer is rejected with an
/// `InvalidInput` [`XuError::Io`].
pub fn query_size(len: usize) -> (r: Result<u16, XuError>)
    ensures
        r is Ok <==> len <= u16::MAX,
        r matches Ok(size) ==> size == len,
        r matches Err(e) ==> e is Io,
{
    if len <= 0xffff {
        Ok(len as u16)
    } else {
        let mut msg = String::new();
        push_str(&mut msg, "xu_query payload too large: ");
        push_decimal(&mut msg, len as u64);
        push_str(&mut msg, " bytes");
        Err(XuError::Io(invalid_input_error(msg.as_str())))
    }
}

/// Decode the little-endian 2-byte `GET_LEN` reply.
pub fn selector_len_from_reply(reply: [u8; 2]) -> (len: u16)
    ensures
        len == reply[0] + 256 * reply[1],
{
    (reply[0] as u16) + (reply[1] as u16) * 256
}

/// `count` zero bytes.
pub open spec fn zero_bytes(count: int) -> Seq<u8> {
    Seq::new(if count > 0 { count as nat } else { 0 }, |i: int| 0u8)
}

/// The buffer a `SET_CUR` sends for `payload` on a selector declaring
/// `selector_len` bytes: the payload zero-padded to that length.
///
/// A payload longer than the selector is rejected with
/// [`XuError::LengthMismatch`].
pub fn set_cur_buffer(unit: u8, selector: u8, payload: &[u8], selector_len: u16) -> (r: Result<
    Vec<u8>,
    XuError,
>)
    ensures
        r is Ok <==> payload@.len() <= selector_len,
        r matches Ok(buf) ==> buf@ == payload@ + zero_bytes(selector_len - payload@.len()),
        r matches Err(e) ==> e == (XuError::LengthMismatch {
            unit,
            selector,
            payload_len: payload@.len() as usize,
            selector_len,
        }),
{
    let len = selector_len as usize;
    if payload.len() > len {
        return Err(
            XuError::LengthMismatch { unit, selector, payload_len: payload.len(), selector_len },
        );
    }
    let mut buf: Vec<u8> = Vec::new();
    let mut i: usize = 0;
    while i < payload.len()
        invariant
            i <= payload@.len(),
            buf@ == payload@.subrange(0, i as int),
        decreases payload@.len() - i,
    {
        buf.push(payload[i]);
        assert(buf@ =~= payload@.subrange(0, i + 1));
        i = i + 1;
    }
    while i < len
        invariant
            payload@.len() <= i <= len,
            buf@ == payload@ + zero_bytes(i - payload@.len()),
        decreases len - i,
    {
        buf.push(0u8);
        assert(buf@ =~= payload@ + zero_bytes(i + 1 - payload@.len()));
        i = i + 1;
    }
    Ok(buf)
}

/// The check a `GET_CUR` makes before reading into a buffer of
/// `buf_len` bytes: the buffer must be exactly as long as the selector.
pub fn check_get_cur_len(unit: u8, selector: u8, buf_len: usize, selector_len: u16) -> (r: Result<
    (),
    XuError,
>)
    ensures
        r is Ok <==> buf_len == selector_len,
        r matches Err(e) ==> e == (XuError::LengthMismatch {
            unit,
            selector,
            payload_len: buf_len,
            selector_len,
        }),
{
    if selector_len as usize != buf_len {
        Err(XuError::LengthMismatch { unit, selector, payload_len: buf_len, selector_len })
    } else {
        Ok(())
    }
}

/// The padding of a `SET_CUR` buffer is `count` zero bytes (none for a
/// count below one).
pub proof fn lemma_zero_padding(count: int)
    ensures
        count >= 0 ==> zero_bytes(count).len() == count,
        count < 0 ==> zero_bytes(count).len() == 0,
        forall|i: int| 0 <= i < zero_bytes(count).len() ==> #[trigger] zero_bytes(count)[i] == 0u8,
{
}

} // verus!
