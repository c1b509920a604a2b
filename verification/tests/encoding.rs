use photon_types::types::{BlockHash, OutPoint, Txid, UtreexoNodeHash};
use photon_types::util::borsh_io::IoErrorKind;
use photon_types::util::deserialize;
use photon_types::util::serialize;

fn counting_bytes(start: u8) -> [u8; 32] {
    let mut bytes = [0u8; 32];
    for (i, b) in bytes.iter_mut().enumerate() {
        *b = start.wrapping_add(i as u8);
    }
    bytes
}

#[test]
fn node_hash_is_written_as_its_bytes() {
    let hash: UtreexoNodeHash = counting_bytes(1);
    let mut out = vec![0xaa];
    assert!(serialize::utreexo_node_hash(&hash, &mut out).is_ok());
    let mut expected = vec![0xaa];
    expected.extend_from_slice(&hash);
    assert_eq!(out, expected);
}

#[test]
fn block_hash_is_written_as_its_bytes() {
    let hash = BlockHash(counting_bytes(100));
    let mut out = Vec::new();
    assert!(serialize::bitcoin_block_hash(&hash, &mut out).is_ok());
    assert_eq!(out, counting_bytes(100).to_vec());
}

#[test]
fn outpoint_is_txid_then_little_endian_vout() {
    let outpoint = OutPoint { txid: Txid(counting_bytes(7)), vout: 0x0102_0304 };
    let mut out = Vec::new();
    assert!(serialize::bitcoin_outpoint(&outpoint, &mut out).is_ok());
    let mut expected = counting_bytes(7).to_vec();
    expected.extend_from_slice(&[4, 3, 2, 1]);
    assert_eq!(out, expected);
}

#[test]
fn roots_are_counted_then_written_one_by_one() {
    let roots: Vec<UtreexoNodeHash> = vec![counting_bytes(0), counting_bytes(50), counting_bytes(200)];
    let mut out = vec![9];
    assert!(serialize::utreexo_roots(&roots, &mut out).is_ok());
    let mut expected = vec![9, 3, 0, 0, 0];
    for root in &roots {
        expected.extend_from_slice(root);
    }
    assert_eq!(out, expected);
    assert_eq!(out.len(), 1 + 4 + 3 * 32);
}

#[test]
fn no_roots_is_a_zero_count() {
    let roots: Vec<UtreexoNodeHash> = Vec::new();
    let mut out = Vec::new();
    assert!(serialize::utreexo_roots(&roots, &mut out).is_ok());
    assert_eq!(out, vec![0, 0, 0, 0]);
}

#[test]
fn roots_match_node_hashes_written_in_turn() {
    let roots: Vec<UtreexoNodeHash> = vec![counting_bytes(3), counting_bytes(4)];
    let mut whole = Vec::new();
    assert!(serialize::utreexo_roots(&roots, &mut whole).is_ok());
    let mut piecewise = vec![2, 0, 0, 0];
    for root in &roots {
        assert!(serialize::utreexo_node_hash(root, &mut piecewise).is_ok());
    }
    assert_eq!(whole, piecewise);
}

#[test]
fn outpoint_is_read_from_the_front() {
    let mut bytes = counting_bytes(20).to_vec();
    bytes.extend_from_slice(&[0xff, 0, 0, 0x80, 5, 6]);
    let mut reader: &[u8] = &bytes;
    let outpoint = deserialize::bitcoin_outpoint(&mut reader).unwrap();
    assert_eq!(outpoint.txid, Txid(counting_bytes(20)));
    assert_eq!(outpoint.vout, 0x8000_00ff);
    assert_eq!(reader, &[5u8, 6][..]);
}

#[test]
fn outpoint_needs_thirty_six_bytes() {
    let bytes = [1u8; 35];
    let mut reader: &[u8] = &bytes;
    let err = deserialize::bitcoin_outpoint(&mut reader).unwrap_err();
    assert_eq!(err.kind, IoErrorKind::InvalidData);
    assert_eq!(err.error.kind(), std::io::ErrorKind::InvalidData);
    let empty: [u8; 0] = [];
    let mut reader: &[u8] = &empty;
    let err = deserialize::bitcoin_outpoint(&mut reader).unwrap_err();
    assert_eq!(err.kind, IoErrorKind::InvalidData);
    assert_eq!(err.error.to_string(), "Unexpected length of input");
    let exact = [2u8; 36];
    let mut reader: &[u8] = &exact;
    let outpoint = deserialize::bitcoin_outpoint(&mut reader).unwrap();
    assert_eq!(outpoint.vout, 0x0202_0202);
    assert!(reader.is_empty());
}

#[test]
fn outpoint_reads_back_what_was_written() {
    let outpoint = OutPoint { txid: Txid(counting_bytes(77)), vout: u32::MAX - 5 };
    let mut bytes = Vec::new();
    assert!(serialize::bitcoin_outpoint(&outpoint, &mut bytes).is_ok());
    bytes.extend_from_slice(b"tail");
    let mut reader: &[u8] = &bytes;
    let back = deserialize::bitcoin_outpoint(&mut reader).unwrap();
    assert_eq!(back, outpoint);
    assert_eq!(reader, b"tail");
}

#[test]
fn read_bytes_write_back_unchanged() {
    let bytes: Vec<u8> = (0u8..36).map(|b| b.wrapping_mul(37)).collect();
    let mut reader: &[u8] = &bytes;
    let outpoint = deserialize::bitcoin_outpoint(&mut reader).unwrap();
    let mut again = Vec::new();
    assert!(serialize::bitcoin_outpoint(&outpoint, &mut again).is_ok());
    assert_eq!(again, bytes);
}
