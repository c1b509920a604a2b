//! The calls into `borsh` that the encodings make, and the error that a
//! failed call gives.

use borsh::{BorshDeserialize, BorshSerialize};
use super::deserialize::u32_from_le_bytes;
use super::serialize::u32_le_bytes;
use vstd::prelude::*;

verus! {

/// `std::io::Error`, the error type of `borsh`'s readers and writers.
#[verifier::external_type_specification]
#[verifier::external_body]
pub struct ExIoError(std::io::Error);

/// The kind of an I/O error, as far as the encodings tell kinds apart.
#[derive(Clone, Copy, Debug, PartialEq, Eq)]
pub enum IoErrorKind {
    /// `std::io::ErrorKind::InvalidData`.
    InvalidData,
    /// `std::io::ErrorKind::UnexpectedEof`.
    UnexpectedEof,
    /// Any other `std::io::ErrorKind`.
    Other,
}

/// An I/O error from `borsh`, with its kind.
#[derive(Debug)]
pub struct IoError {
    /// The kind of `error`.
    pub kind: IoErrorKind,
    /// The error itself.
    pub error: std::io::Error,
}

/// Calls `BorshSerialize::serialize` on a `[u8; 32]` with a `Vec<u8>` as
/// the writer. Borsh writes a byte array as its bytes, with no length
/// prefix, through one `write_all`; a `Vec<u8>` takes every write by
/// appending to itself. Claimed: the call succeeds and appends the 32 bytes.
#[verifier::external_body]
pub(crate) fn write_byte_array(bytes: &[u8; 32], writer: &mut Vec<u8>) -> (r: Result<(), std::io::Error>)
    ensures
        r is Ok,
        final(writer)@ == old(writer)@ + bytes@,
{
    BorshSerialize::serialize(bytes, writer)
}

/// Calls `BorshSerialize::serialize` on a pair `(&[u8; 32], &u32)` with a
/// `Vec<u8>` as the writer. Borsh writes a tuple's fields in order: the
/// array as its bytes, then the integer as its 4 little-endian bytes.
/// Claimed: the call succeeds and appends those 36 bytes.
#[verifier::external_body]
pub(crate) fn write_byte_array_u32(
    bytes: &[u8; 32],
    n: &u32,
    writer: &mut Vec<u8>,
) -> (r: Result<(), std::io::Error>)
    ensures
        r is Ok,
        final(writer)@ == old(writer)@ + bytes@ + u32_le_bytes(*n),
{
    BorshSerialize::serialize(&(bytes, n), writer)
}

/// Calls `BorshSerialize::serialize` on a slice of `[u8; 32]` with a
/// `Vec<u8>` as the writer, and gives a failure with its kind. Borsh first
/// turns the slice's length into a `u32`, failing with `InvalidData`
/// before writing anything where it does not fit, then writes that length
/// as 4 little-endian bytes, then each array as its bytes. Claimed:
/// exactly that.
#[verifier::external_body]
pub(crate) fn write_byte_array_slice(arrays: &[[u8; 32]], writer: &mut Vec<u8>) -> (r: Result<(), IoError>)
    ensures
        arrays@.len() <= u32::MAX ==> {
            &&& r is Ok
            &&& final(writer)@ == old(writer)@ + u32_le_bytes(arrays@.len() as u32)
                + arrays@.map_values(|a: [u8; 32]| a@).flatten()
        },
        arrays@.len() > u32::MAX ==> r is Err && final(writer)@ == old(writer)@,
        r matches Err(e) ==> e.kind == IoErrorKind::InvalidData,
{
    match BorshSerialize::serialize(arrays, writer) {
        Ok(()) => Ok(()),
        Err(error) => {
            let kind = match error.kind() {
                std::io::ErrorKind::InvalidData => IoErrorKind::InvalidData,
                std::io::ErrorKind::UnexpectedEof => IoErrorKind::UnexpectedEof,
                _ => IoErrorKind::Other,
            };
            Err(IoError { kind, error })
        },
    }
}

/// Calls `BorshDeserialize::deserialize_reader` for `([u8; 32], u32)` on a
/// byte-slice reader, and gives a failure with its kind. Borsh reads the
/// tuple's fields in order with `read_exact`: 32 bytes, then 4 bytes read
/// as a little-endian `u32`; a `&[u8]` reader gives out its first bytes and
/// advances past them, and fails with `UnexpectedEof` when fewer bytes are
/// left than asked for, which borsh turns into `InvalidData`. Claimed: the
/// call succeeds exactly when at least 36 bytes are there, and then returns
/// them as described and leaves the reader after them; otherwise the error
/// is of kind `InvalidData`. Where the reader stands after a failure is
/// left unsaid.
#[verifier::external_body]
pub(crate) fn read_byte_array_u32(reader: &mut &[u8]) -> (r: Result<([u8; 32], u32), IoError>)
    ensures
        r is Ok <==> old(reader)@.len() >= 36,
        r matches Ok((bytes, n)) ==> {
            &&& bytes@ == old(reader)@.subrange(0, 32)
            &&& n == u32_from_le_bytes(old(reader)@.subrange(32, 36))
            &&& final(reader)@ == old(reader)@.subrange(36, old(reader)@.len() as int)
        },
        r matches Err(e) ==> e.kind == IoErrorKind::InvalidData,
{
    match <([u8; 32], u32) as BorshDeserialize>::deserialize_reader(reader) {
        Ok(value) => Ok(value),
        Err(error) => {
            let kind = match error.kind() {
                std::io::ErrorKind::InvalidData => IoErrorKind::InvalidData,
                std::io::ErrorKind::UnexpectedEof => IoErrorKind::UnexpectedEof,
                _ => IoErrorKind::Other,
            };
            Err(IoError { kind, error })
        },
    }
}

} // verus!
