//! Bytes written as hex text for human-readable formats (such as JSON) and
//! as they are for the others (such as bincode).
//!
//! A serde adapter asks its serializer or deserializer whether the format
//! is human-readable and hands the answer here. [`serialize`] decides what
//! is written; [`deserialize`] turns what was read back into bytes.

use hex::{FromHex, ToHex};
use vstd::prelude::*;
use vstd::slice::slice_to_vec;
use vstd::utf8::{encode_utf8, is_ascii_chars, is_ascii_chars_encode_utf8};

verus! {

/// Why text could not be read as hex.
#[derive(Clone, Copy, Debug, PartialEq, Eq)]
pub enum FromHexError {
    /// The byte at `index`, read as a character, is not a hex digit.
    InvalidHexCharacter { c: char, index: usize },
    /// The text has an odd number of bytes.
    OddLength,
    /// The text has the wrong length for a container of fixed size.
    InvalidStringLength,
}

/// What the adapter writes: hex text, or the bytes for the format to
/// write as it writes any bytes.
#[derive(Debug)]
pub enum Representation {
    /// Lower-case hex text, two digits per byte.
    Hex(String),
    /// The bytes themselves.
    Raw(Vec<u8>),
}

/// The lower-case hex digit of `v`, for `0 <= v < 16`.
pub open spec fn hex_digit(v: u8) -> char {
    if v < 10 {
        (('0' as int) + v) as char
    } else {
        (('a' as int) + v - 10) as char
    }
}

/// The lower-case hex text of `data`: for each byte, its high then its
/// low half as a digit.
pub open spec fn hex_lower(data: Seq<u8>) -> Seq<char> {
    Seq::new(
        2 * data.len(),
        |i: int|
            if i % 2 == 0 {
                hex_digit(data[i / 2] / 16)
            } else {
                hex_digit(data[i / 2] % 16)
            },
    )
}

/// The value of a hex digit, upper or lower case; `None` for a byte that
/// is not one.
pub open spec fn hex_value(b: u8) -> Option<u8> {
    if 48 <= b <= 57 {
        Some((b - 48) as u8)
    } else if 97 <= b <= 102 {
        Some((b - 87) as u8)
    } else if 65 <= b <= 70 {
        Some((b - 55) as u8)
    } else {
        None
    }
}

/// Byte `i` is the first that is not a hex digit.
pub open spec fn first_non_digit(bytes: Seq<u8>, i: int) -> bool {
    &&& 0 <= i < bytes.len()
    &&& hex_value(bytes[i]) is None
    &&& forall|j: int| 0 <= j < i ==> hex_value(#[trigger] bytes[j]) is Some
}

/// The bytes that hex text (as bytes) stands for, read into a container
/// of any length (`None`) or of exactly `expected_len` bytes: an odd length
/// is refused first, then a length that does not fit the container, then
/// the first byte that is not a hex digit; otherwise each pair of digits,
/// high half first, makes one byte.
pub open spec fn hex_decoding(bytes: Seq<u8>, expected_len: Option<usize>) -> Result<Seq<u8>, FromHexError> {
    if bytes.len() % 2 != 0 {
        Err(FromHexError::OddLength)
    } else if expected_len matches Some(n) && bytes.len() / 2 != n {
        Err(FromHexError::InvalidStringLength)
    } else if exists|i: int| 0 <= i < bytes.len() && hex_value(#[trigger] bytes[i]) is None {
        let i = choose|i: int| first_non_digit(bytes, i);
        Err(FromHexError::InvalidHexCharacter { c: bytes[i] as char, index: i as usize })
    } else {
        Ok(
            Seq::new(
                bytes.len() / 2,
                |k: int|
                    (hex_value(bytes[2 * k]).unwrap() * 16 + hex_value(
                        bytes[2 * k + 1],
                    ).unwrap()) as u8,
            ),
        )
    }
}

/// What a representation reads back as, for a container of any length
/// (`None`) or of exactly `expected_len` bytes: hex text is decoded from
/// its UTF-8 bytes; raw bytes are taken as they are.
pub open spec fn decoded(repr: Representation, expected_len: Option<usize>) -> Result<Seq<u8>, FromHexError> {
    match repr {
        Representation::Hex(s) => hex_decoding(encode_utf8(s@), expected_len),
        Representation::Raw(v) => Ok(v@),
    }
}

/// `repr` is what [`serialize`] makes of `data` for a format that is, or
/// is not, human-readable.
pub open spec fn is_representation_of(repr: Representation, data: Seq<u8>, human_readable: bool) -> bool {
    match repr {
        Representation::Hex(s) => human_readable && s@ == hex_lower(data),
        Representation::Raw(v) => !human_readable && v@ == data,
    }
}

/// Calls `ToHex::encode_hex::<String>` from `hex`, which writes each byte
/// as two lower-case hex digits, high half first. Claimed: exactly that.
#[verifier::external_body]
fn encode_hex(data: &[u8]) -> (r: String)
    ensures
        r@ == hex_lower(data@),
{
    data.encode_hex::<String>()
}

/// Calls `<Vec<u8> as FromHex>::from_hex` from `hex` and gives its error
/// as this crate's `FromHexError`, variant for variant. `from_hex` refuses
/// an odd length first, then reads the digits pairwise from the front and
/// stops at the first byte that is not a digit of either case, reporting
/// it as a character with its index. Claimed: the result is
/// `hex_decoding` of the bytes for a container of any length.
#[verifier::external_body]
fn decode_hex(bytes: &[u8]) -> (r: Result<Vec<u8>, FromHexError>)
    ensures
        (match r {
            Ok(v) => hex_decoding(bytes@, None) == Ok::<Seq<u8>, FromHexError>(v@),
            Err(e) => hex_decoding(bytes@, None) == Err::<Seq<u8>, FromHexError>(e),
        }),
{
    match Vec::<u8>::from_hex(bytes) {
        Ok(v) => Ok(v),
        Err(hex::FromHexError::InvalidHexCharacter { c, index }) => Err(
            FromHexError::InvalidHexCharacter { c, index },
        ),
        Err(hex::FromHexError::OddLength) => Err(FromHexError::OddLength),
        Err(hex::FromHexError::InvalidStringLength) => Err(FromHexError::InvalidStringLength),
    }
}

/// Calls `hex::decode_to_slice` with a buffer of `len` bytes and gives its
/// error as this crate's `FromHexError`, variant for variant. It is what
/// `FromHex` does for byte arrays: `decode_to_slice` refuses an odd length
/// first, then a length that is not twice the buffer's, then reads the
/// digits pairwise from the front and stops at the first byte that is not
/// a digit of either case. Claimed: the result is `hex_decoding` of the
/// bytes for a container of `len` bytes. A buffer must fit in `isize`.
#[verifier::external_body]
fn decode_hex_exact(bytes: &[u8], len: usize) -> (r: Result<Vec<u8>, FromHexError>)
    requires
        len <= isize::MAX,
    ensures
        (match r {
            Ok(v) => hex_decoding(bytes@, Some(len)) == Ok::<Seq<u8>, FromHexError>(v@),
            Err(e) => hex_decoding(bytes@, Some(len)) == Err::<Seq<u8>, FromHexError>(e),
        }),
{
    let mut out = vec![0u8; len];
    match hex::decode_to_slice(bytes, &mut out) {
        Ok(()) => Ok(out),
        Err(hex::FromHexError::InvalidHexCharacter { c, index }) => Err(
            FromHexError::InvalidHexCharacter { c, index },
        ),
        Err(hex::FromHexError::OddLength) => Err(FromHexError::OddLength),
        Err(hex::FromHexError::InvalidStringLength) => Err(FromHexError::InvalidStringLength),
    }
}

/// What to write for `data`: lower-case hex text for a human-readable
/// format, the bytes themselves for the others.
pub fn serialize(data: &[u8], human_readable: bool) -> (r: Representation)
    ensures
        is_representation_of(r, data@, human_readable),
        r is Hex <==> human_readable,
        r matches Representation::Hex(text) ==> text@ == hex_lower(data@),
        r matches Representation::Raw(bytes) ==> bytes@ == data@,
{
    if human_readable {
        Representation::Hex(encode_hex(data))
    } else {
        Representation::Raw(slice_to_vec(data))
    }
}

/// The bytes that what was read stands for, for a target of any length
/// (`None`, such as a `Vec<u8>`) or of exactly `expected_len` bytes (such as
/// a byte array): hex text (either case) is decoded, raw bytes are kept.
/// A fixed length must fit in `isize`, as the size of any Rust value does.
pub fn deserialize(repr: Representation, expected_len: Option<usize>) -> (r: Result<Vec<u8>, FromHexError>)
    requires
        expected_len matches Some(n) ==> n <= isize::MAX,
    ensures
        (match r {
            Ok(v) => decoded(repr, expected_len) == Ok::<Seq<u8>, FromHexError>(v@),
            Err(e) => decoded(repr, expected_len) == Err::<Seq<u8>, FromHexError>(e),
        }),
        repr matches Representation::Hex(text) ==> (match r {
            Ok(v) => hex_decoding(encode_utf8(text@), expected_len) == Ok::<Seq<u8>, FromHexError>(v@),
            Err(e) => hex_decoding(encode_utf8(text@), expected_len) == Err::<Seq<u8>, FromHexError>(e),
        }),
        repr matches Representation::Raw(bytes) ==> (r matches Ok(v) && v@ == bytes@),
{
    match repr {
        Representation::Hex(s) => match expected_len {
            None => decode_hex(s.as_str().as_bytes()),
            Some(n) => decode_hex_exact(s.as_str().as_bytes(), n),
        },
        Representation::Raw(v) => Ok(v),
    }
}

proof fn lemma_hex_digit(v: u8)
    requires
        0 <= v < 16,
    ensures
        '\0' <= hex_digit(v) <= '\u{7f}',
        hex_value(hex_digit(v) as u8) == Some(v),
{
}

/// Hex text written by the adapter reads back as the bytes it was written
/// from, into a container of any length or of exactly their length.
pub proof fn lemma_hex_roundtrip(data: Seq<u8>, expected_len: Option<usize>)
    requires
        expected_len matches Some(n) ==> n == data.len(),
    ensures
        hex_decoding(encode_utf8(hex_lower(data)), expected_len) == Ok::<Seq<u8>, FromHexError>(data),
{
    let chars = hex_lower(data);
    assert forall|i: int| 0 <= i < chars.len() implies '\0' <= #[trigger] chars[i] <= '\u{7f}'
        && hex_value(chars[i] as u8) is Some by {
        if i % 2 == 0 {
            lemma_hex_digit(data[i / 2] / 16);
        } else {
            lemma_hex_digit(data[i / 2] % 16);
        }
    }
    assert(is_ascii_chars(chars));
    is_ascii_chars_encode_utf8(chars);
    let bytes = encode_utf8(chars);
    assert(bytes.len() == 2 * data.len());
    assert(!exists|i: int| 0 <= i < bytes.len() && hex_value(#[trigger] bytes[i]) is None) by {
        assert forall|i: int| 0 <= i < bytes.len() implies hex_value(#[trigger] bytes[i]) is Some by {
            assert(chars[i] as u8 == bytes[i]);
        }
    }
    assert forall|k: int| 0 <= k < data.len() implies (hex_value(bytes[2 * k]).unwrap() * 16
        + hex_value(bytes[2 * k + 1]).unwrap()) as u8 == data[k] by {
        assert(chars[2 * k] as u8 == bytes[2 * k]);
        assert(chars[2 * k + 1] as u8 == bytes[2 * k + 1]);
        assert((2 * k) / 2 == k && (2 * k + 1) / 2 == k && (2 * k) % 2 == 0 && (2 * k + 1) % 2 == 1);
        lemma_hex_digit(data[k] / 16);
        lemma_hex_digit(data[k] % 16);
    }
    assert(hex_decoding(bytes, expected_len) =~= Ok::<Seq<u8>, FromHexError>(data)) by {
        assert(Seq::new(
            bytes.len() / 2,
            |k: int|
                (hex_value(bytes[2 * k]).unwrap() * 16 + hex_value(bytes[2 * k + 1]).unwrap()) as u8,
        ) =~= data);
    }
}

/// Whatever [`serialize`] writes for some bytes, [`deserialize`] reads
/// back as those bytes, for human-readable formats and the others alike,
/// into a target of any length or of exactly their length.
pub proof fn lemma_serialize_deserialize(
    repr: Representation,
    data: Seq<u8>,
    human_readable: bool,
    expected_len: Option<usize>,
)
    requires
        is_representation_of(repr, data, human_readable),
        expected_len matches Some(n) ==> n == data.len(),
    ensures
        decoded(repr, expected_len) == Ok::<Seq<u8>, FromHexError>(data),
{
    if let Representation::Hex(s) = repr {
        lemma_hex_roundtrip(data, expected_len);
    }
}

/// The value of a hex digit written in lower case, `None` for any other
/// character.
pub open spec fn lower_hex_digit_value(c: char) -> Option<int> {
    if '0' <= c <= '9' {
        Some(c as int - '0' as int)
    } else if 'a' <= c <= 'f' {
        Some(c as int - 'a' as int + 10)
    } else {
        None
    }
}

/// The value of a hex digit written in either case, `None` for any other
/// character.
pub open spec fn hex_digit_value(c: char) -> Option<int> {
    if 'A' <= c <= 'F' {
        Some(c as int - 'A' as int + 10)
    } else {
        lower_hex_digit_value(c)
    }
}

/// For a human-readable format, and for any bytes, the adapter writes text
/// of two lower-case hex digits per byte, the high half first; for the
/// others it writes the bytes themselves. Which one depends on the format
/// alone.
pub proof fn lemma_serialize_writes_lower_hex_for_human_readable(
    repr: Representation,
    data: Seq<u8>,
    human_readable: bool,
)
    requires
        is_representation_of(repr, data, human_readable),
    ensures
        repr is Hex <==> human_readable,
        repr matches Representation::Raw(bytes) ==> bytes@ == data,
        repr matches Representation::Hex(text) ==> {
            &&& text@.len() == 2 * data.len()
            &&& forall|i: int|
                0 <= i < data.len() ==> lower_hex_digit_value(#[trigger] text@[2 * i]) == Some(
                    (data[i] / 16) as int,
                ) && lower_hex_digit_value(text@[2 * i + 1]) == Some((data[i] % 16) as int)
        },
{
    if let Representation::Hex(text) = repr {
        assert forall|i: int| 0 <= i < data.len() implies lower_hex_digit_value(
            #[trigger] text@[2 * i],
        ) == Some((data[i] / 16) as int) && lower_hex_digit_value(text@[2 * i + 1]) == Some(
            (data[i] % 16) as int,
        ) by {
            assert((2 * i) / 2 == i && (2 * i + 1) / 2 == i && (2 * i) % 2 == 0 && (2 * i + 1) % 2
                == 1);
        }
    }
}

/// Hex text of even length made only of digits, of either case, reads back
/// (into a container of any length, or of exactly half the text's length)
/// as one byte per pair of digits, the first digit giving the high half:
/// an upper-case digit counts as its lower-case one.
pub proof fn lemma_hex_text_reads_back_digitwise(text: String, expected_len: Option<usize>)
    requires
        text@.len() % 2 == 0,
        forall|j: int| 0 <= j < text@.len() ==> hex_digit_value(#[trigger] text@[j]) is Some,
        expected_len matches Some(n) ==> 2 * n == text@.len(),
    ensures
        decoded(Representation::Hex(text), expected_len) matches Ok(bytes) && {
            &&& bytes.len() == text@.len() / 2
            &&& forall|k: int|
                0 <= k < bytes.len() ==> #[trigger] bytes[k] == hex_digit_value(text@[2 * k]).unwrap()
                    * 16 + hex_digit_value(text@[2 * k + 1]).unwrap()
        },
{
    let chars = text@;
    assert forall|j: int| 0 <= j < chars.len() implies '\0' <= #[trigger] chars[j] <= '\u{7f}' by {
        assert(hex_digit_value(chars[j]) is Some);
    }
    assert(is_ascii_chars(chars));
    is_ascii_chars_encode_utf8(chars);
    let bytes = encode_utf8(chars);
    assert forall|j: int| 0 <= j < bytes.len() implies hex_value(#[trigger] bytes[j]) is Some
        && hex_value(bytes[j]).unwrap() == hex_digit_value(chars[j]).unwrap() by {
        assert(chars[j] as u8 == bytes[j]);
        assert(hex_digit_value(chars[j]) is Some);
    }
    assert(!exists|i: int| 0 <= i < bytes.len() && hex_value(#[trigger] bytes[i]) is None);
    let out = Seq::new(
        bytes.len() / 2,
        |k: int| (hex_value(bytes[2 * k]).unwrap() * 16 + hex_value(bytes[2 * k + 1]).unwrap()) as u8,
    );
    assert(hex_decoding(bytes, expected_len) == Ok::<Seq<u8>, FromHexError>(out));
    assert forall|k: int| 0 <= k < out.len() implies #[trigger] out[k] == hex_digit_value(
        chars[2 * k],
    ).unwrap() * 16 + hex_digit_value(chars[2 * k + 1]).unwrap() by {
        assert(hex_value(bytes[2 * k]).unwrap() == hex_digit_value(chars[2 * k]).unwrap());
        assert(hex_value(bytes[2 * k + 1]).unwrap() == hex_digit_value(chars[2 * k + 1]).unwrap());
        assert(hex_value(bytes[2 * k]).unwrap() < 16 && hex_value(bytes[2 * k + 1]).unwrap() < 16);
    }
}

/// Changing the case of hex digits does not change what hex text reads
/// back as.
pub proof fn lemma_hex_case_does_not_matter(text: String, other: String, expected_len: Option<usize>)
    requires
        text@.len() % 2 == 0,
        other@.len() == text@.len(),
        forall|j: int| 0 <= j < text@.len() ==> hex_digit_value(#[trigger] text@[j]) is Some,
        forall|j: int| 0 <= j < text@.len() ==> hex_digit_value(#[trigger] other@[j]) == hex_digit_value(text@[j]),
        expected_len matches Some(n) ==> 2 * n == text@.len(),
    ensures
        decoded(Representation::Hex(text), expected_len) == decoded(Representation::Hex(other), expected_len),
{
    lemma_hex_text_reads_back_digitwise(text, expected_len);
    assert forall|j: int| 0 <= j < other@.len() implies hex_digit_value(#[trigger] other@[j]) is Some by {
        assert(hex_digit_value(text@[j]) is Some);
    }
    lemma_hex_text_reads_back_digitwise(other, expected_len);
    let a = decoded(Representation::Hex(text), expected_len)->Ok_0;
    let b = decoded(Representation::Hex(other), expected_len)->Ok_0;
    assert forall|k: int| 0 <= k < a.len() implies a[k] == b[k] by {
        assert(hex_digit_value(other@[2 * k]) == hex_digit_value(text@[2 * k]));
        assert(hex_digit_value(other@[2 * k + 1]) == hex_digit_value(text@[2 * k + 1]));
    }
    assert(a =~= b);
}

} // verus!
