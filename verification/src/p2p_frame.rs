//! Framing of peer-to-peer messages on a unidirectional stream: a sender
//! writes the payload length as a 4-byte big-endian number followed by the
//! payload; a receiver reads the 4 bytes back and refuses lengths above
//! [`MAX_MESSAGE_LEN`] before reading the payload.
use vstd::prelude::*;

verus! {

/// The largest payload, in bytes, that a receiver accepts.
pub const MAX_MESSAGE_LEN: usize = 1_000_000;

/// Why a received length prefix was refused.
#[derive(Clone, Copy, Debug, PartialEq, Eq, Structural)]
pub enum FrameError {
    /// The announced payload is larger than [`MAX_MESSAGE_LEN`].
    MessageTooLarge,
}

impl FrameError {
    /// The text of the error, as a receiver reports it.
    pub fn message(&self) -> (r: &'static str)
        ensures
            r@ == "Message too large"@,
    {
        "Message too large"
    }
}

/// The 4 big-endian bytes of the 32-bit number `v`.
pub open spec fn be_bytes_u32(v: nat) -> Seq<u8>
    recommends
        v < 0x1_0000_0000,
{
    seq![
        ((v / 0x100_0000) % 0x100) as u8,
        ((v / 0x1_0000) % 0x100) as u8,
        ((v / 0x100) % 0x100) as u8,
        (v % 0x100) as u8,
    ]
}

/// The number that 4 big-endian bytes stand for.
pub open spec fn be_value_u32(b: Seq<u8>) -> nat
    recommends
        b.len() == 4,
{
    (b[0] * 0x100_0000 + b[1] * 0x1_0000 + b[2] * 0x100 + b[3]) as nat
}

/// The length prefix that a sender writes for a payload of `len` bytes: the
/// length is cut to 32 bits.
pub open spec fn length_prefix(len: nat) -> Seq<u8> {
    be_bytes_u32(len % 0x1_0000_0000)
}

/// What a receiver makes of a length prefix.
pub open spec fn decoded_length(prefix: Seq<u8>) -> Result<nat, FrameError> {
    if be_value_u32(prefix) > MAX_MESSAGE_LEN {
        Err(FrameError::MessageTooLarge)
    } else {
        Ok(be_value_u32(prefix))
    }
}

/// Returns the 4-byte big-endian length prefix that precedes a payload of
/// `len` bytes.
pub fn message_length_prefix(len: usize) -> (r: [u8; 4])
    ensures
        r@ == length_prefix(len as nat),
{
    let v: u32 = len as u32;
    assert(v == (len as u64) % 0x1_0000_0000u64) by (bit_vector)
        requires
            v == len as u32,
    ;
    let b0: u8 = (v >> 24u32) as u8;
    let b1: u8 = ((v >> 16u32) & 0xff) as u8;
    let b2: u8 = ((v >> 8u32) & 0xff) as u8;
    let b3: u8 = (v & 0xff) as u8;
    assert(b0 == (v / 0x100_0000) % 0x100 && b1 == (v / 0x1_0000) % 0x100 && b2 == (v / 0x100)
        % 0x100 && b3 == v % 0x100) by (bit_vector)
        requires
            b0 == (v >> 24u32) as u8,
            b1 == ((v >> 16u32) & 0xff) as u8,
            b2 == ((v >> 8u32) & 0xff) as u8,
            b3 == (v & 0xff) as u8,
    ;
    let r = [b0, b1, b2, b3];
    assert(r@ =~= length_prefix(len as nat));
    r
}

/// Reads the payload length from a received 4-byte big-endian prefix, and
/// refuses it when it is above [`MAX_MESSAGE_LEN`].
pub fn decode_message_length(prefix: [u8; 4]) -> (r: Result<usize, FrameError>)
    ensures
        match (r, decoded_length(prefix@)) {
            (Ok(n), Ok(m)) => n == m,
            (Err(e), Err(f)) => e == f,
            _ => false,
        },
{
    let b0 = prefix[0];
    let b1 = prefix[1];
    let b2 = prefix[2];
    let b3 = prefix[3];
    let v: u32 = ((b0 as u32) << 24u32) | ((b1 as u32) << 16u32) | ((b2 as u32) << 8u32) | (b3 as u32);
    assert(v == b0 * 0x100_0000 + b1 * 0x1_0000 + b2 * 0x100 + b3) by (bit_vector)
        requires
            v == ((b0 as u32) << 24u32) | ((b1 as u32) << 16u32) | ((b2 as u32) << 8u32) | (
            b3 as u32),
    ;
    let len: usize = v as usize;
    if MAX_MESSAGE_LEN < len {
        Err(FrameError::MessageTooLarge)
    } else {
        Ok(len)
    }
}

/// What a receiver reads from the prefix that a sender wrote is the payload
/// length when the payload is at most [`MAX_MESSAGE_LEN`] bytes, and a
/// refusal when it is longer (and still fits in 32 bits).
pub proof fn law_length_prefix_round_trip(len: nat)
    requires
        len < 0x1_0000_0000,
    ensures
        length_prefix(len).len() == 4,
        len <= MAX_MESSAGE_LEN ==> decoded_length(length_prefix(len)) == Ok::<nat, FrameError>(len),
        len > MAX_MESSAGE_LEN ==> decoded_length(length_prefix(len)) == Err::<nat, FrameError>(
            FrameError::MessageTooLarge,
        ),
{
    let p = length_prefix(len);
    assert(len % 0x1_0000_0000 == len);
    assert(be_value_u32(p) == len) by (nonlinear_arith)
        requires
            len < 0x1_0000_0000,
            p[0] == ((len / 0x100_0000) % 0x100) as u8,
            p[1] == ((len / 0x1_0000) % 0x100) as u8,
            p[2] == ((len / 0x100) % 0x100) as u8,
            p[3] == (len % 0x100) as u8,
            be_value_u32(p) == p[0] * 0x100_0000 + p[1] * 0x1_0000 + p[2] * 0x100 + p[3],
    ;
}

/// A receiver reads back every 32-bit length prefix exactly: encoding the
/// number that 4 bytes stand for gives the same 4 bytes.
pub proof fn law_prefix_bytes_round_trip(prefix: Seq<u8>)
    requires
        prefix.len() == 4,
    ensures
        length_prefix(be_value_u32(prefix)) == prefix,
{
    let v = be_value_u32(prefix);
    let (a, b, c, d) = (prefix[0], prefix[1], prefix[2], prefix[3]);
    assert(v < 0x1_0000_0000 && (v / 0x100_0000) % 0x100 == a && (v / 0x1_0000) % 0x100 == b && (v
        / 0x100) % 0x100 == c && v % 0x100 == d) by (nonlinear_arith)
        requires
            v == a * 0x100_0000 + b * 0x1_0000 + c * 0x100 + d,
            a < 256,
            b < 256,
            c < 256,
            d < 256,
    ;
    assert(length_prefix(v) =~= prefix);
}

/// A receiver accepts a payload length exactly when it is at most one
/// million bytes, and then reads back the number the four bytes stand for,
/// most significant byte first.
pub proof fn law_receiver_limit_is_one_million(prefix: Seq<u8>)
    requires
        prefix.len() == 4,
    ensures
        MAX_MESSAGE_LEN == 1_000_000,
        decoded_length(prefix) is Err <==> prefix[0] * 16777216 + prefix[1] * 65536 + prefix[2]
            * 256 + prefix[3] > 1_000_000,
        decoded_length(prefix) matches Ok(n) ==> n == prefix[0] * 16777216 + prefix[1] * 65536
            + prefix[2] * 256 + prefix[3],
{
}

/// The length prefix holds the length's four bytes, most significant first:
/// byte `i` is the length divided by `256^(3 - i)`, modulo 256.
pub proof fn law_prefix_is_big_endian(len: nat)
    requires
        len < 0x1_0000_0000,
    ensures
        length_prefix(len).len() == 4,
        length_prefix(len)[0] == len / 16777216,
        length_prefix(len)[1] == (len / 65536) % 256,
        length_prefix(len)[2] == (len / 256) % 256,
        length_prefix(len)[3] == len % 256,
{
}

} // verus!
