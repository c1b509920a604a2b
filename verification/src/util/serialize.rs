//! Borsh encodings of block hashes, outpoints and Utreexo nodes, each
//! appended to a byte buffer.

use crate::types::{BlockHash, OutPoint, UtreexoNodeHash};
use super::borsh_io::{write_byte_array, write_byte_array_slice, write_byte_array_u32, IoError, IoErrorKind};
use super::deserialize::lemma_u32_from_le_bytes_of_le_bytes;
use vstd::prelude::*;

verus! {

/// The 4 little-endian bytes of `n`: least significant first.
pub open spec fn u32_le_bytes(n: u32) -> Seq<u8> {
    seq![
        (n % 0x100) as u8,
        (n / 0x100 % 0x100) as u8,
        (n / 0x1_0000 % 0x100) as u8,
        (n / 0x100_0000) as u8,
    ]
}

/// The encoding of a 32-byte hash: its bytes, with no length prefix.
pub open spec fn hash_encoding(bytes: Seq<u8>) -> Seq<u8> {
    bytes
}

/// The encoding of an outpoint: the transaction id's 32 bytes, then the
/// output index as 4 little-endian bytes.
pub open spec fn outpoint_encoding(outpoint: (Seq<u8>, u32)) -> Seq<u8> {
    hash_encoding(outpoint.0) + u32_le_bytes(outpoint.1)
}

/// The encoding of a list of Utreexo roots: the number of roots as 4
/// little-endian bytes, then each root encoded as a single node hash.
pub open spec fn roots_encoding(roots: Seq<UtreexoNodeHash>) -> Seq<u8> {
    u32_le_bytes(roots.len() as u32)
        + roots.map_values(|root: UtreexoNodeHash| hash_encoding(root@)).flatten()
}

/// Appends the encoding of a block hash.
pub fn bitcoin_block_hash(block_hash: &BlockHash, writer: &mut Vec<u8>) -> (r: Result<(), std::io::Error>)
    ensures
        r is Ok,
        final(writer)@ == old(writer)@ + hash_encoding(block_hash@),
        final(writer)@ == old(writer)@ + block_hash.0@,
{
    write_byte_array(&block_hash.0, writer)
}

/// Appends the encoding of an outpoint.
pub fn bitcoin_outpoint(outpoint: &OutPoint, writer: &mut Vec<u8>) -> (r: Result<(), std::io::Error>)
    ensures
        r is Ok,
        final(writer)@ == old(writer)@ + outpoint_encoding(outpoint@),
        final(writer)@ == old(writer)@ + outpoint.txid.0@ + u32_le_bytes(outpoint.vout),
{
    let OutPoint { txid, vout } = outpoint;
    write_byte_array_u32(&txid.0, vout, writer)
}

/// Appends the encoding of a Utreexo node hash.
pub fn utreexo_node_hash(node_hash: &UtreexoNodeHash, writer: &mut Vec<u8>) -> (r: Result<(), std::io::Error>)
    ensures
        r is Ok,
        final(writer)@ == old(writer)@ + hash_encoding(node_hash@),
        final(writer)@ == old(writer)@ + node_hash@,
{
    write_byte_array(node_hash, writer)
}

/// Appends the encoding of a list of Utreexo roots. A list whose length
/// does not fit in 4 bytes cannot be encoded: then the call fails with an
/// error of kind `InvalidData` and writes nothing.
pub fn utreexo_roots(roots: &[UtreexoNodeHash], writer: &mut Vec<u8>) -> (r: Result<(), IoError>)
    ensures
        r is Ok <==> roots@.len() <= u32::MAX,
        r is Ok ==> final(writer)@ == old(writer)@ + roots_encoding(roots@),
        r is Ok ==> final(writer)@ == old(writer)@ + u32_le_bytes(roots@.len() as u32)
            + roots@.map_values(|root: UtreexoNodeHash| root@).flatten(),
        r matches Err(e) ==> e.kind == IoErrorKind::InvalidData && final(writer)@ == old(writer)@,
{
    let r = write_byte_array_slice(roots, writer);
    assert(roots@.map_values(|a: [u8; 32]| a@) =~= roots@.map_values(
        |root: UtreexoNodeHash| hash_encoding(root@),
    ));
    r
}

/// A hash is written as its bytes, unchanged and with nothing added.
pub proof fn lemma_hash_written_unchanged(bytes: Seq<u8>)
    ensures
        hash_encoding(bytes) == bytes,
{
}

/// A block hash is written as its 32 bytes, unchanged.
pub proof fn lemma_block_hash_written_unchanged(block_hash: BlockHash)
    ensures
        hash_encoding(block_hash@) == block_hash.0@,
        hash_encoding(block_hash@).len() == 32,
{
}

/// An outpoint is written as 36 bytes: the transaction id's 32 bytes as
/// they are, then 4 bytes that, least significant first, make up the
/// output index itself.
pub proof fn lemma_outpoint_written_as_txid_then_index(outpoint: OutPoint)
    ensures
        outpoint_encoding(outpoint@).len() == 36,
        outpoint_encoding(outpoint@).subrange(0, 32) == outpoint.txid.0@,
        outpoint_encoding(outpoint@)[32] + outpoint_encoding(outpoint@)[33] * 0x100
            + outpoint_encoding(outpoint@)[34] * 0x1_0000 + outpoint_encoding(outpoint@)[35]
            * 0x100_0000 == outpoint.vout,
{
    lemma_u32_from_le_bytes_of_le_bytes(outpoint.vout);
    let e = outpoint_encoding(outpoint@);
    assert(e.subrange(0, 32) =~= outpoint.txid.0@);
    let b = u32_le_bytes(outpoint.vout);
    assert(e[32] == b[0] && e[33] == b[1] && e[34] == b[2] && e[35] == b[3]);
}

/// Concatenating blocks of 32 bytes puts byte `k` of block `i` at
/// `32 * i + k`.
proof fn lemma_flatten_blocks(blocks: Seq<Seq<u8>>)
    requires
        forall|i: int| 0 <= i < blocks.len() ==> (#[trigger] blocks[i]).len() == 32,
    ensures
        blocks.flatten().len() == 32 * blocks.len(),
        forall|i: int, k: int|
            0 <= i < blocks.len() && 0 <= k < 32 ==> blocks.flatten()[32 * i + k] == #[trigger] blocks[i][k],
    decreases blocks.len(),
{
    if blocks.len() > 0 {
        let rest = blocks.drop_first();
        lemma_flatten_blocks(rest);
        assert(blocks.flatten() == blocks.first() + rest.flatten());
        assert forall|i: int, k: int| 0 <= i < blocks.len() && 0 <= k < 32 implies blocks.flatten()[32
            * i + k] == #[trigger] blocks[i][k] by {
            if i > 0 {
                assert(rest[i - 1] == blocks[i]);
                assert(32 * i + k == 32 + (32 * (i - 1) + k));
            }
        }
    }
}

/// A list of `n` roots is written as `4 + 32 * n` bytes: first 4 bytes
/// that, least significant first, make up `n`, then the roots in order,
/// byte `k` of root `i` at `4 + 32 * i + k`.
pub proof fn lemma_roots_written_as_count_then_roots(roots: Seq<UtreexoNodeHash>)
    requires
        roots.len() <= u32::MAX,
    ensures
        roots_encoding(roots).len() == 4 + 32 * roots.len(),
        roots_encoding(roots)[0] + roots_encoding(roots)[1] * 0x100 + roots_encoding(roots)[2]
            * 0x1_0000 + roots_encoding(roots)[3] * 0x100_0000 == roots.len(),
        forall|i: int, k: int|
            0 <= i < roots.len() && 0 <= k < 32 ==> roots_encoding(roots)[4 + 32 * i + k]
                == #[trigger] roots[i][k],
{
    let n = roots.len() as u32;
    lemma_u32_from_le_bytes_of_le_bytes(n);
    let blocks = roots.map_values(|root: UtreexoNodeHash| hash_encoding(root@));
    assert forall|i: int| 0 <= i < blocks.len() implies (#[trigger] blocks[i]).len() == 32 by {
        assert(blocks[i] == roots[i]@);
    }
    lemma_flatten_blocks(blocks);
    let e = roots_encoding(roots);
    let b = u32_le_bytes(n);
    assert(e[0] == b[0] && e[1] == b[1] && e[2] == b[2] && e[3] == b[3]);
    assert forall|i: int, k: int| 0 <= i < roots.len() && 0 <= k < 32 implies e[4 + 32 * i + k]
        == #[trigger] roots[i][k] by {
        assert(blocks[i] == roots[i]@);
        assert(blocks.flatten()[32 * i + k] == blocks[i][k]);
    }
}

} // verus!
