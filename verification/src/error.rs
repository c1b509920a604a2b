//! Error types, each with the message that describes it.

use crate::text::{decimal, push_decimal};
use crate::types::{base58_encoding, Address};
use vstd::prelude::*;
use vstd::string::StringExecFns;

verus! {

/// `bitcoin::base58::InvalidCharacterError`: a byte outside the base58
/// alphabet was found while decoding.
#[verifier::external_type_specification]
#[verifier::external_body]
pub struct ExInvalidCharacterError(bitcoin::base58::InvalidCharacterError);

/// A Bitcoin amount computation went above the largest amount.
#[derive(Debug)]
pub struct AmountOverflow;

impl AmountOverflow {
    /// The error's message.
    pub fn to_string(&self) -> (s: String)
        ensures
            s@ == "Bitcoin amount overflow"@,
    {
        "Bitcoin amount overflow".to_owned()
    }
}

/// A Bitcoin amount computation went below zero.
#[derive(Debug)]
pub struct AmountUnderflow;

impl AmountUnderflow {
    /// The error's message.
    pub fn to_string(&self) -> (s: String)
        ensures
            s@ == "Bitcoin amount underflow"@,
    {
        "Bitcoin amount underflow".to_owned()
    }
}

/// Signing with a FIPS 205 (SLH-DSA) key failed, for the given reason.
#[derive(Debug)]
pub struct Fips205Signing(pub &'static str);

impl Fips205Signing {
    /// The error's message: the reason, quoted.
    pub open spec fn message(&self) -> Seq<char> {
        "fips205 signing error: `"@ + self.0@ + "`"@
    }

    /// The error's message.
    pub fn to_string(&self) -> (s: String)
        ensures
            s@ == self.message(),
    {
        let mut s = "fips205 signing error: `".to_owned();
        s.append(self.0);
        s.append("`");
        s
    }
}

/// A signing key could not be decoded from bytes, for the given reason.
#[derive(Debug)]
pub struct DecodeSigningKey(pub &'static str);

impl DecodeSigningKey {
    /// The error's message: the reason, quoted.
    pub open spec fn message(&self) -> Seq<char> {
        "failed to decode signing key from bytes: `"@ + self.0@ + "`"@
    }

    /// The error's message.
    pub fn to_string(&self) -> (s: String)
        ensures
            s@ == self.message(),
    {
        let mut s = "failed to decode signing key from bytes: `".to_owned();
        s.append(self.0);
        s.append("`");
        s
    }
}

/// Why a transaction's authorizations were refused.
#[derive(Debug)]
pub enum Authorization {
    /// Encoding a value to be signed failed.
    BorshSerialize(std::io::Error),
    /// A signature does not verify.
    InvalidSignature,
    /// Fewer authorizations than inputs.
    NotEnoughAuthorizations,
    /// Signing failed.
    Signing(Fips205Signing),
    /// More authorizations than inputs.
    TooManyAuthorizations,
    /// The verifying key does not hash to the address it spends from.
    WrongKeyForAddress { address: Address, hash_verifying_key: Address },
}

impl Authorization {
    /// The error's message. A signing failure is described by its own
    /// message, unchanged.
    pub open spec fn message(&self) -> Seq<char> {
        match self {
            Authorization::BorshSerialize(_) => "borsh serialization error"@,
            Authorization::InvalidSignature => "invalid signature"@,
            Authorization::NotEnoughAuthorizations => "not enough authorizations"@,
            Authorization::Signing(e) => e.message(),
            Authorization::TooManyAuthorizations => "too many authorizations"@,
            Authorization::WrongKeyForAddress { address, hash_verifying_key } =>
                "wrong key for address: address = "@ + base58_encoding(address@)
                    + ",\n             hash(verifying_key) = "@
                    + base58_encoding(hash_verifying_key@),
        }
    }

    /// The error's message.
    pub fn to_string(&self) -> (s: String)
        ensures
            s@ == self.message(),
    {
        match self {
            Authorization::BorshSerialize(_) => "borsh serialization error".to_owned(),
            Authorization::InvalidSignature => "invalid signature".to_owned(),
            Authorization::NotEnoughAuthorizations => "not enough authorizations".to_owned(),
            Authorization::Signing(e) => e.to_string(),
            Authorization::TooManyAuthorizations => "too many authorizations".to_owned(),
            Authorization::WrongKeyForAddress { address, hash_verifying_key } => {
                let mut s = "wrong key for address: address = ".to_owned();
                s.append(address.to_base58().as_str());
                s.append(",\n             hash(verifying_key) = ");
                s.append(hash_verifying_key.to_base58().as_str());
                s
            },
        }
    }
}

impl Authorization {
    /// The error that caused this one, if one did: the encoding failure.
    /// A signing failure stands for itself and has none.
    pub fn source(&self) -> (r: Option<&std::io::Error>)
        ensures
            r == (match self {
                Authorization::BorshSerialize(e) => Some(e),
                _ => None,
            }),
    {
        match self {
            Authorization::BorshSerialize(e) => Some(e),
            _ => None,
        }
    }
}

impl From<std::io::Error> for Authorization {
    fn from(e: std::io::Error) -> (r: Self) {
        Authorization::BorshSerialize(e)
    }
}

impl vstd::std_specs::convert::FromSpecImpl<std::io::Error> for Authorization {
    open spec fn obeys_from_spec() -> bool {
        true
    }

    open spec fn from_spec(e: std::io::Error) -> Self {
        Authorization::BorshSerialize(e)
    }
}

impl From<Fips205Signing> for Authorization {
    fn from(e: Fips205Signing) -> (r: Self) {
        Authorization::Signing(e)
    }
}

impl vstd::std_specs::convert::FromSpecImpl<Fips205Signing> for Authorization {
    open spec fn obeys_from_spec() -> bool {
        true
    }

    open spec fn from_spec(e: Fips205Signing) -> Self {
        Authorization::Signing(e)
    }
}

/// Why the fee of a transaction could not be computed.
#[derive(Debug)]
pub enum ComputeFee {
    /// The inputs hold less value than the outputs.
    Underfunded,
    /// The sum of the inputs' values overflowed.
    ValueInOverflow(AmountOverflow),
    /// The sum of the outputs' values overflowed.
    ValueOutOverflow(AmountOverflow),
}

impl ComputeFee {
    /// The error's message.
    pub open spec fn message(&self) -> Seq<char> {
        match self {
            ComputeFee::Underfunded => "underfunded (value in < value out)"@,
            ComputeFee::ValueInOverflow(_) => "value in overflow"@,
            ComputeFee::ValueOutOverflow(_) => "value out overflow"@,
        }
    }

    /// The error's message.
    pub fn to_string(&self) -> (s: String)
        ensures
            s@ == self.message(),
    {
        match self {
            ComputeFee::Underfunded => "underfunded (value in < value out)".to_owned(),
            ComputeFee::ValueInOverflow(_) => "value in overflow".to_owned(),
            ComputeFee::ValueOutOverflow(_) => "value out overflow".to_owned(),
        }
    }

    /// The overflow that caused this error, if one did.
    pub fn source(&self) -> (r: Option<&AmountOverflow>)
        ensures
            r == (match self {
                ComputeFee::Underfunded => None,
                ComputeFee::ValueInOverflow(e) => Some(e),
                ComputeFee::ValueOutOverflow(e) => Some(e),
            }),
    {
        match self {
            ComputeFee::Underfunded => None,
            ComputeFee::ValueInOverflow(e) => Some(e),
            ComputeFee::ValueOutOverflow(e) => Some(e),
        }
    }
}

/// Why text could not be read as an address.
#[derive(Debug)]
pub enum ParseAddress {
    /// The text is not base58.
    Bs58(bitcoin::base58::InvalidCharacterError),
    /// The text decodes to this many bytes, not the 20 of an address.
    WrongLength(usize),
}

impl ParseAddress {
    /// The error's message.
    pub open spec fn message(&self) -> Seq<char> {
        match self {
            ParseAddress::Bs58(_) => "bs58 error"@,
            ParseAddress::WrongLength(n) => "wrong address length "@ + decimal(*n as nat) + " != 20"@,
        }
    }

    /// The error's message.
    pub fn to_string(&self) -> (s: String)
        ensures
            s@ == self.message(),
    {
        match self {
            ParseAddress::Bs58(_) => "bs58 error".to_owned(),
            ParseAddress::WrongLength(n) => {
                let mut s = "wrong address length ".to_owned();
                push_decimal(*n, &mut s);
                s.append(" != 20");
                s
            },
        }
    }
}

impl From<bitcoin::base58::InvalidCharacterError> for ParseAddress {
    fn from(e: bitcoin::base58::InvalidCharacterError) -> (r: Self) {
        ParseAddress::Bs58(e)
    }
}

impl vstd::std_specs::convert::FromSpecImpl<bitcoin::base58::InvalidCharacterError> for ParseAddress {
    open spec fn obeys_from_spec() -> bool {
        true
    }

    open spec fn from_spec(e: bitcoin::base58::InvalidCharacterError) -> Self {
        ParseAddress::Bs58(e)
    }
}

/// The Utreexo accumulator refused an operation, for the given reason.
#[derive(Debug)]
pub struct Utreexo(pub String);

impl Utreexo {
    /// The error's message: the reason, in parentheses.
    pub open spec fn message(&self) -> Seq<char> {
        "utreexo error ("@ + self.0@ + ")"@
    }

    /// The error's message.
    pub fn to_string(&self) -> (s: String)
        ensures
            s@ == self.message(),
    {
        let mut s = "utreexo error (".to_owned();
        s.append(self.0.as_str());
        s.append(")");
        s
    }
}

} // verus!
