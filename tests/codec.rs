use ledger_tendermint::apdu::{ApduAnswer, ApduCommand};
use ledger_tendermint::chunks::{build_chunks, build_chunks_with, count_chunks};
use ledger_tendermint::error::LedgerError;
use ledger_tendermint::path::encode_derivation_path;
use ledger_tendermint::protocol::{ProtocolConfig, StatusPolicy, CLA, INS_SIGN_ED25519, SW_OK};
use ledger_tendermint::validate::{parse_public_key, parse_signature, parse_version};

fn message_of(len: usize) -> Vec<u8> {
    (0..len).map(|i| (i * 31 % 256) as u8).collect()
}

fn check_plan(len: usize, expected_chunks: usize) {
    let m = message_of(len);
    let frames = build_chunks(&m).unwrap();
    assert_eq!(frames.len(), expected_chunks);
    let mut joined = Vec::new();
    for (k, f) in frames.iter().enumerate() {
        assert_eq!(f.cla, CLA);
        assert_eq!(f.ins, INS_SIGN_ED25519);
        assert_eq!(f.p1 as usize, k + 1);
        assert_eq!(f.p2 as usize, expected_chunks);
        assert!(f.data.len() <= 250 && !f.data.is_empty());
        joined.extend_from_slice(&f.data);
    }
    assert_eq!(joined, m);
}

#[test]
fn chunks_reassemble_the_message() {
    check_plan(1, 1);
    check_plan(249, 1);
    check_plan(250, 1);
    check_plan(251, 2);
    check_plan(500, 2);
    check_plan(501, 3);
    check_plan(255 * 250, 255);
}

#[test]
fn empty_message_gives_no_chunks() {
    assert_eq!(build_chunks(b""), Err(LedgerError::EmptyMessage));
}

#[test]
fn message_needing_256_chunks_is_too_large() {
    let m = vec![0u8; 255 * 250 + 1];
    assert_eq!(build_chunks(&m), Err(LedgerError::MessageTooLarge));
}

#[test]
fn chunks_after_path_frame_start_at_two() {
    let m = message_of(260);
    let frames = build_chunks_with(&ProtocolConfig::with_path_frame(), &m).unwrap();
    assert_eq!(frames.len(), 2);
    assert_eq!((frames[0].p1, frames[0].p2), (2, 3));
    assert_eq!((frames[1].p1, frames[1].p2), (3, 3));
    assert_eq!(frames[1].data, m[250..].to_vec());
    let m = vec![0u8; 254 * 250];
    assert_eq!(build_chunks_with(&ProtocolConfig::with_path_frame(), &m).unwrap().len(), 254);
    let m = vec![0u8; 254 * 250 + 1];
    assert_eq!(
        build_chunks_with(&ProtocolConfig::with_path_frame(), &m),
        Err(LedgerError::MessageTooLarge)
    );
}

#[test]
fn chunk_count_is_ceiling() {
    assert_eq!(count_chunks(0), 0);
    assert_eq!(count_chunks(1), 1);
    assert_eq!(count_chunks(250), 1);
    assert_eq!(count_chunks(251), 2);
    assert_eq!(count_chunks(usize::MAX), usize::MAX / 250 + 1);
}

#[test]
fn path_encoding_single_component() {
    assert_eq!(encode_derivation_path(&[1]).unwrap(), vec![0x01, 0x01, 0x00, 0x00, 0x00]);
}

#[test]
fn path_encoding_keeps_length_and_order() {
    let b = encode_derivation_path(&[44, 60, 0, 0, 0]).unwrap();
    assert_eq!(b.len(), 21);
    assert_eq!(b[0], 5);
    assert_eq!(&b[1..9], &[44, 0, 0, 0, 60, 0, 0, 0]);
    let b = encode_derivation_path(&[0x0102_0304, 0x0a0b_0c0d]).unwrap();
    assert_eq!(b, vec![2, 4, 3, 2, 1, 0x0d, 0x0c, 0x0b, 0x0a]);
    assert_eq!(encode_derivation_path(&[]).unwrap(), vec![0]);
    assert_eq!(encode_derivation_path(&[7; 10]).unwrap().len(), 41);
}

#[test]
fn path_encoding_keeps_hardening_bit() {
    let b = encode_derivation_path(&[0x8000_0044]).unwrap();
    assert_eq!(b, vec![1, 0x44, 0x00, 0x00, 0x80]);
    let b = encode_derivation_path(&[44, 0x8000_0076]).unwrap();
    assert_eq!(b[8] & 0x80, 0x80);
    assert_eq!(b[4] & 0x80, 0);
}

#[test]
fn path_with_eleven_components_is_refused() {
    assert_eq!(encode_derivation_path(&[0; 11]), Err(LedgerError::InvalidDerivationPath));
}

#[test]
fn public_key_of_wrong_length_is_refused() {
    for len in [0usize, 1, 31, 33, 64] {
        let a = ApduAnswer { data: vec![9; len], retcode: SW_OK };
        assert_eq!(parse_public_key(StatusPolicy::Advisory, &a), Err(LedgerError::InvalidPK));
    }
    let key: Vec<u8> = (0..32u8).collect();
    let a = ApduAnswer { data: key.clone(), retcode: SW_OK };
    assert_eq!(parse_public_key(StatusPolicy::Advisory, &a).unwrap().to_vec(), key);
}

#[test]
fn signature_of_wrong_length_is_refused() {
    let empty = ApduAnswer { data: vec![], retcode: SW_OK };
    assert_eq!(parse_signature(StatusPolicy::Advisory, &empty), Err(LedgerError::NoSignature));
    let empty_bad = ApduAnswer { data: vec![], retcode: 0x6985 };
    assert_eq!(parse_signature(StatusPolicy::Required, &empty_bad), Err(LedgerError::NoSignature));
    for len in [1usize, 32, 63, 65] {
        let a = ApduAnswer { data: vec![9; len], retcode: SW_OK };
        assert_eq!(parse_signature(StatusPolicy::Advisory, &a), Err(LedgerError::InvalidSignature));
    }
    let sig: Vec<u8> = (0..64u8).collect();
    let a = ApduAnswer { data: sig.clone(), retcode: SW_OK };
    assert_eq!(parse_signature(StatusPolicy::Advisory, &a).unwrap().to_vec(), sig);
    let bad = ApduAnswer { data: sig, retcode: 0x6985 };
    assert_eq!(parse_signature(StatusPolicy::Required, &bad), Err(LedgerError::InvalidSignature));
}

#[test]
fn version_needs_four_bytes() {
    let a = ApduAnswer { data: vec![1, 2, 3], retcode: SW_OK };
    assert_eq!(parse_version(StatusPolicy::Advisory, &a), Err(LedgerError::InvalidVersion));
    let a = ApduAnswer { data: vec![0, 2, 5, 9, 77], retcode: SW_OK };
    let v = parse_version(StatusPolicy::Advisory, &a).unwrap();
    assert_eq!((v.mode, v.major, v.minor, v.patch), (0, 2, 5, 9));
    let a = ApduAnswer { data: vec![0, 2, 5, 9], retcode: 0x6e00 };
    assert_eq!(parse_version(StatusPolicy::Required, &a), Err(LedgerError::InvalidVersion));
}

#[test]
fn command_serializes_with_length_byte() {
    let c = ApduCommand { cla: CLA, ins: 2, p1: 1, p2: 3, data: vec![0xaa, 0xbb] };
    assert_eq!(c.length(), 2);
    assert_eq!(c.serialize(), vec![0x56, 2, 1, 3, 2, 0xaa, 0xbb]);
    let empty = ApduCommand { cla: CLA, ins: 0, p1: 0, p2: 0, data: vec![] };
    assert_eq!(empty.serialize(), vec![0x56, 0, 0, 0, 0]);
}
