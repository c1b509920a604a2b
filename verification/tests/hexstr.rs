use photon_types::util::hexstr_human_readable::{deserialize, serialize, FromHexError, Representation};

#[test]
fn human_readable_is_lower_case_hex() {
    match serialize(&[0x00, 0x0f, 0xa0, 0xff, 0x48], true) {
        Representation::Hex(s) => assert_eq!(s, "000fa0ff48"),
        Representation::Raw(_) => panic!("expected hex text"),
    }
}

#[test]
fn hex_of_nothing_is_empty() {
    match serialize(&[], true) {
        Representation::Hex(s) => assert_eq!(s, ""),
        Representation::Raw(_) => panic!("expected hex text"),
    }
}

#[test]
fn other_formats_get_the_bytes() {
    match serialize(&[1, 2, 3], false) {
        Representation::Raw(v) => assert_eq!(v, vec![1, 2, 3]),
        Representation::Hex(_) => panic!("expected raw bytes"),
    }
}

#[test]
fn hex_of_either_case_is_decoded() {
    let r = deserialize(Representation::Hex("0aFf10Bc".to_string()), None);
    assert_eq!(r, Ok(vec![0x0a, 0xff, 0x10, 0xbc]));
}

#[test]
fn raw_bytes_are_kept() {
    assert_eq!(deserialize(Representation::Raw(vec![9, 8]), None), Ok(vec![9, 8]));
}

#[test]
fn odd_length_is_refused_first() {
    assert_eq!(deserialize(Representation::Hex("abc".to_string()), None), Err(FromHexError::OddLength));
    assert_eq!(deserialize(Representation::Hex("zzz".to_string()), None), Err(FromHexError::OddLength));
}

#[test]
fn first_non_digit_is_reported() {
    assert_eq!(
        deserialize(Representation::Hex("66g6 x".to_string()), None),
        Err(FromHexError::InvalidHexCharacter { c: 'g', index: 2 })
    );
    assert_eq!(
        deserialize(Representation::Hex("0123456 ".to_string()), None),
        Err(FromHexError::InvalidHexCharacter { c: ' ', index: 7 })
    );
}

#[test]
fn hex_reads_back_as_written() {
    let data: Vec<u8> = (0u8..=255).collect();
    for human_readable in [true, false] {
        assert_eq!(deserialize(serialize(&data, human_readable), None), Ok(data.clone()));
    }
}

#[test]
fn fixed_length_is_checked_before_the_digits() {
    assert_eq!(
        deserialize(Representation::Hex("zzzzzzzzzz".to_string()), Some(4)),
        Err(FromHexError::InvalidStringLength)
    );
    assert_eq!(
        deserialize(Representation::Hex("0a0b".to_string()), Some(3)),
        Err(FromHexError::InvalidStringLength)
    );
    assert_eq!(
        deserialize(Representation::Hex("0a0".to_string()), Some(2)),
        Err(FromHexError::OddLength)
    );
    assert_eq!(
        deserialize(Representation::Hex("0aXb".to_string()), Some(2)),
        Err(FromHexError::InvalidHexCharacter { c: 'X', index: 2 })
    );
}

#[test]
fn fixed_length_hex_is_decoded() {
    assert_eq!(deserialize(Representation::Hex("0A0b".to_string()), Some(2)), Ok(vec![10, 11]));
    assert_eq!(deserialize(Representation::Hex(String::new()), Some(0)), Ok(vec![]));
}

#[test]
fn fixed_length_reads_back_as_written() {
    let data: Vec<u8> = (0u8..32).map(|b| b.wrapping_mul(29)).collect();
    for human_readable in [true, false] {
        assert_eq!(deserialize(serialize(&data, human_readable), Some(32)), Ok(data.clone()));
    }
}
