//! Plain-value models of the hashes, identifiers and addresses that the
//! encodings and error messages read.

use vstd::prelude::*;

verus! {

/// A node of the Utreexo accumulator forest: a 32-byte hash.
pub type UtreexoNodeHash = [u8; 32];

/// A Bitcoin block hash, held as its 32 bytes in internal byte order.
#[derive(Clone, Copy, Debug, PartialEq, Eq, Hash)]
pub struct BlockHash(pub [u8; 32]);

impl View for BlockHash {
    type V = Seq<u8>;

    open spec fn view(&self) -> Seq<u8> {
        self.0@
    }
}

/// A Bitcoin transaction id, held as its 32 bytes in internal byte order.
#[derive(Clone, Copy, Debug, PartialEq, Eq, Hash)]
pub struct Txid(pub [u8; 32]);

impl View for Txid {
    type V = Seq<u8>;

    open spec fn view(&self) -> Seq<u8> {
        self.0@
    }
}

/// A reference to an output of a Bitcoin transaction.
#[derive(Clone, Copy, Debug, PartialEq, Eq, Hash)]
pub struct OutPoint {
    /// The transaction that holds the output.
    pub txid: Txid,
    /// The index of the output in that transaction.
    pub vout: u32,
}

impl View for OutPoint {
    /// The transaction id's bytes and the output index.
    type V = (Seq<u8>, u32);

    open spec fn view(&self) -> (Seq<u8>, u32) {
        (self.txid@, self.vout)
    }
}

/// A sidechain address: the 20-byte hash of a verifying key.
#[derive(Clone, Copy, Debug, PartialEq, Eq, Hash)]
pub struct Address(pub [u8; 20]);

impl View for Address {
    type V = Seq<u8>;

    open spec fn view(&self) -> Seq<u8> {
        self.0@
    }
}

/// The base58 digit of `d`, for `0 <= d < 58`, in the alphabet
/// `123456789ABCDEFGHJKLMNPQRSTUVWXYZabcdefghijkmnopqrstuvwxyz`
/// (no `0`, `O`, `I` or `l`).
pub open spec fn base58_digit(d: nat) -> char {
    if d < 9 {
        (('1' as int) + d) as char
    } else if d < 17 {
        (('A' as int) + d - 9) as char
    } else if d < 22 {
        (('J' as int) + d - 17) as char
    } else if d < 33 {
        (('P' as int) + d - 22) as char
    } else if d < 44 {
        (('a' as int) + d - 33) as char
    } else {
        (('m' as int) + d - 44) as char
    }
}

/// The number that `data` writes in base 256, most significant byte first.
pub open spec fn big_endian_value(data: Seq<u8>) -> nat
    decreases data.len(),
{
    if data.len() == 0 {
        0
    } else {
        (big_endian_value(data.drop_last()) * 256 + data.last()) as nat
    }
}

/// The base58 digits of `v`, most significant first; none for zero.
pub open spec fn base58_digits(v: nat) -> Seq<char>
    decreases v,
{
    if v == 0 {
        seq![]
    } else {
        base58_digits(v / 58) + seq![base58_digit(v % 58)]
    }
}

/// The number of zero bytes at the front of `data`.
pub open spec fn leading_zero_bytes(data: Seq<u8>) -> nat
    decreases data.len(),
{
    if data.len() > 0 && data[0] == 0 {
        1 + leading_zero_bytes(data.drop_first())
    } else {
        0
    }
}

/// The base58 text of `data`, without a checksum: a `1` for each leading
/// zero byte, then the base58 digits of the number that `data` writes.
pub open spec fn base58_encoding(data: Seq<u8>) -> Seq<char> {
    Seq::new(leading_zero_bytes(data), |i: int| '1') + base58_digits(big_endian_value(data))
}

/// Calls `bitcoin::base58::encode`, which writes bytes in base58 without
/// a checksum: it counts the leading zero bytes, converts the bytes, read
/// as a big-endian number, to base-58 digits, and writes a `1` for each
/// leading zero byte before those digits. Claimed: the result is
/// `base58_encoding` of the bytes.
#[verifier::external_body]
fn base58_encode(data: &[u8]) -> (r: String)
    ensures
        r@ == base58_encoding(data@),
{
    bitcoin::base58::encode(data)
}

impl Address {
    /// The address's text form: its 20 bytes in base58.
    pub fn to_base58(&self) -> (r: String)
        ensures
            r@ == base58_encoding(self@),
    {
        base58_encode(self.0.as_slice())
    }
}

} // verus!
