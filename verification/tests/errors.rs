use photon_types::error::{
    AmountOverflow, AmountUnderflow, Authorization, ComputeFee, DecodeSigningKey, Fips205Signing,
    ParseAddress, Utreexo,
};
use photon_types::types::Address;

#[test]
fn amount_messages() {
    assert_eq!(AmountOverflow.to_string(), "Bitcoin amount overflow");
    assert_eq!(AmountUnderflow.to_string(), "Bitcoin amount underflow");
}

#[test]
fn quoted_reasons() {
    assert_eq!(Fips205Signing("bad key").to_string(), "fips205 signing error: `bad key`");
    assert_eq!(
        DecodeSigningKey("too short").to_string(),
        "failed to decode signing key from bytes: `too short`"
    );
}

#[test]
fn authorization_messages() {
    assert_eq!(Authorization::InvalidSignature.to_string(), "invalid signature");
    assert_eq!(Authorization::NotEnoughAuthorizations.to_string(), "not enough authorizations");
    assert_eq!(Authorization::TooManyAuthorizations.to_string(), "too many authorizations");
    let io = std::io::Error::new(std::io::ErrorKind::Other, "disk");
    assert_eq!(Authorization::BorshSerialize(io).to_string(), "borsh serialization error");
}

#[test]
fn signing_failure_is_described_by_itself() {
    let e = Authorization::Signing(Fips205Signing("rng"));
    assert_eq!(e.to_string(), Fips205Signing("rng").to_string());
    assert!(e.source().is_none());
}

#[test]
fn wrong_key_names_both_addresses_in_base58() {
    let mut last_one = [0u8; 20];
    last_one[19] = 1;
    let e = Authorization::WrongKeyForAddress {
        address: Address([0u8; 20]),
        hash_verifying_key: Address(last_one),
    };
    assert_eq!(
        e.to_string(),
        "wrong key for address: address = 11111111111111111111,\n             \
         hash(verifying_key) = 11111111111111111112"
    );
}

#[test]
fn address_base58() {
    let mut bytes = [0u8; 20];
    bytes[19] = 58;
    assert_eq!(Address(bytes).to_base58(), "111111111111111111121");
}

#[test]
fn authorization_conversions() {
    let e: Authorization = Fips205Signing("x").into();
    assert!(matches!(e, Authorization::Signing(Fips205Signing("x"))));
    let e: Authorization = std::io::Error::new(std::io::ErrorKind::InvalidData, "y").into();
    assert!(matches!(e, Authorization::BorshSerialize(_)));
    assert_eq!(e.source().unwrap().kind(), std::io::ErrorKind::InvalidData);
}

#[test]
fn compute_fee_messages_and_sources() {
    assert_eq!(ComputeFee::Underfunded.to_string(), "underfunded (value in < value out)");
    assert_eq!(ComputeFee::ValueInOverflow(AmountOverflow).to_string(), "value in overflow");
    assert_eq!(ComputeFee::ValueOutOverflow(AmountOverflow).to_string(), "value out overflow");
    assert!(ComputeFee::Underfunded.source().is_none());
    assert!(ComputeFee::ValueInOverflow(AmountOverflow).source().is_some());
    assert!(ComputeFee::ValueOutOverflow(AmountOverflow).source().is_some());
}

#[test]
fn wrong_length_is_written_in_decimal() {
    assert_eq!(ParseAddress::WrongLength(0).to_string(), "wrong address length 0 != 20");
    assert_eq!(ParseAddress::WrongLength(7).to_string(), "wrong address length 7 != 20");
    assert_eq!(ParseAddress::WrongLength(21).to_string(), "wrong address length 21 != 20");
    assert_eq!(ParseAddress::WrongLength(1000).to_string(), "wrong address length 1000 != 20");
    assert_eq!(
        ParseAddress::WrongLength(usize::MAX).to_string(),
        format!("wrong address length {} != 20", usize::MAX)
    );
}

#[test]
fn bad_base58_character() {
    let invalid = bitcoin::base58::decode("0OIl").unwrap_err();
    let e: ParseAddress = invalid.into();
    assert_eq!(e.to_string(), "bs58 error");
}

#[test]
fn utreexo_message() {
    assert_eq!(Utreexo("no such leaf".to_string()).to_string(), "utreexo error (no such leaf)");
}

#[test]
fn address_base58_of_a_larger_number() {
    let mut bytes = [0u8; 20];
    bytes[18] = 1;
    assert_eq!(Address(bytes).to_base58(), "1111111111111111115R");
}
