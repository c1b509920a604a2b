//! Borsh decodings, read from the front of a byte slice.

use crate::types::{OutPoint, Txid};
use super::borsh_io::{read_byte_array_u32, IoError, IoErrorKind};
use super::serialize::{outpoint_encoding, u32_le_bytes};
use vstd::prelude::*;

verus! {

/// The `u32` whose little-endian bytes are the first 4 of `bytes`.
pub open spec fn u32_from_le_bytes(bytes: Seq<u8>) -> u32 {
    (bytes[0] + bytes[1] * 0x100 + bytes[2] * 0x1_0000 + bytes[3] * 0x100_0000) as u32
}

/// The outpoint that the first 36 bytes encode: the transaction id's 32
/// bytes, then the output index from 4 little-endian bytes.
pub open spec fn outpoint_decoding(bytes: Seq<u8>) -> (Seq<u8>, u32) {
    (bytes.subrange(0, 32), u32_from_le_bytes(bytes.subrange(32, 36)))
}

/// Reads an outpoint from the front of `reader` and moves `reader` past
/// it. Fails, with an error of kind `InvalidData`, exactly when fewer than
/// 36 bytes are left.
pub fn bitcoin_outpoint(reader: &mut &[u8]) -> (r: Result<OutPoint, IoError>)
    ensures
        r is Ok <==> old(reader)@.len() >= 36,
        r matches Ok(outpoint) ==> {
            &&& outpoint@ == outpoint_decoding(old(reader)@)
            &&& final(reader)@ == old(reader)@.subrange(36, old(reader)@.len() as int)
        },
        r matches Err(e) ==> e.kind == IoErrorKind::InvalidData,
{
    let (txid, vout) = read_byte_array_u32(reader)?;
    Ok(OutPoint { txid: Txid(txid), vout })
}

/// Reading back the little-endian bytes of `n` gives `n`.
pub proof fn lemma_u32_from_le_bytes_of_le_bytes(n: u32)
    ensures
        u32_le_bytes(n).len() == 4,
        u32_from_le_bytes(u32_le_bytes(n)) == n,
{
    let b = u32_le_bytes(n);
    assert(b[0] == n % 0x100 && b[1] == n / 0x100 % 0x100 && b[2] == n / 0x1_0000 % 0x100
        && b[3] == n / 0x100_0000);
    assert(n % 0x100 + (n / 0x100 % 0x100) * 0x100 + (n / 0x1_0000 % 0x100) * 0x1_0000 + (n
        / 0x100_0000) * 0x100_0000 == n) by (nonlinear_arith);
}

/// Writing the `u32` read from 4 bytes gives back those bytes.
pub proof fn lemma_u32_le_bytes_of_from_le_bytes(bytes: Seq<u8>)
    requires
        bytes.len() == 4,
    ensures
        u32_le_bytes(u32_from_le_bytes(bytes)) == bytes,
{
    let (b0, b1, b2, b3) = (bytes[0] as int, bytes[1] as int, bytes[2] as int, bytes[3] as int);
    let n = b0 + b1 * 0x100 + b2 * 0x1_0000 + b3 * 0x100_0000;
    assert(0 <= n < 0x1_0000_0000) by (nonlinear_arith)
        requires
            0 <= b0 < 0x100,
            0 <= b1 < 0x100,
            0 <= b2 < 0x100,
            0 <= b3 < 0x100,
            n == b0 + b1 * 0x100 + b2 * 0x1_0000 + b3 * 0x100_0000,
    ;
    assert(n % 0x100 == b0 && n / 0x100 % 0x100 == b1 && n / 0x1_0000 % 0x100 == b2 && n
        / 0x100_0000 == b3) by (nonlinear_arith)
        requires
            0 <= b0 < 0x100,
            0 <= b1 < 0x100,
            0 <= b2 < 0x100,
            0 <= b3 < 0x100,
            n == b0 + b1 * 0x100 + b2 * 0x1_0000 + b3 * 0x100_0000,
    ;
    assert(u32_le_bytes(u32_from_le_bytes(bytes)) =~= bytes);
}

/// Reading an outpoint from its encoding, followed by any bytes, succeeds,
/// gives back the same outpoint and leaves exactly the bytes that followed.
pub proof fn lemma_outpoint_decode_encode(outpoint: OutPoint, rest: Seq<u8>)
    ensures
        (outpoint_encoding(outpoint@) + rest).len() >= 36,
        outpoint_decoding(outpoint_encoding(outpoint@) + rest) == outpoint@,
        (outpoint_encoding(outpoint@) + rest).subrange(
            36,
            (outpoint_encoding(outpoint@) + rest).len() as int,
        ) == rest,
{
    lemma_u32_from_le_bytes_of_le_bytes(outpoint.vout);
    let bytes = outpoint_encoding(outpoint@) + rest;
    assert(outpoint.txid@.len() == 32);
    assert(bytes.subrange(0, 32) =~= outpoint.txid@);
    assert(bytes.subrange(32, 36) =~= u32_le_bytes(outpoint.vout));
    assert(bytes.subrange(36, bytes.len() as int) =~= rest);
}

/// Encoding the outpoint read from at least 36 bytes gives back those 36
/// bytes.
pub proof fn lemma_outpoint_encode_decode(bytes: Seq<u8>)
    requires
        bytes.len() >= 36,
    ensures
        outpoint_encoding(outpoint_decoding(bytes)) == bytes.subrange(0, 36),
{
    lemma_u32_le_bytes_of_from_le_bytes(bytes.subrange(32, 36));
    assert(outpoint_encoding(outpoint_decoding(bytes)) =~= bytes.subrange(0, 36));
}

} // verus!
