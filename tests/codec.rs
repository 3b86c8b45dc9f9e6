use chain_gateway::codec::{DecodeError, ProofInstruction, STORE_PROOF_TAG};

fn sample() -> ProofInstruction {
    ProofInstruction::store_proof("https://x.test", "deadbeef", 42)
}

fn sample_bytes() -> Vec<u8> {
    let mut expected = vec![0u8, 14, 0, 0, 0];
    expected.extend_from_slice(b"https://x.test");
    expected.extend_from_slice(&[8, 0, 0, 0]);
    expected.extend_from_slice(b"deadbeef");
    expected.extend_from_slice(&[42, 0, 0, 0, 0, 0, 0, 0]);
    expected
}

#[test]
fn encodes_store_proof_layout() {
    assert_eq!(sample().try_to_vec(), Ok(sample_bytes()));
}

#[test]
fn encoding_matches_borsh_layout() {
    let fields = (0u8, "https://x.test".to_string(), "deadbeef".to_string(), 42u64);
    let reference = borsh::to_vec(&fields).unwrap();
    assert_eq!(sample().try_to_vec().unwrap(), reference);
}

#[test]
fn encoding_is_deterministic() {
    let a = sample().try_to_vec().unwrap();
    let b = sample().try_to_vec().unwrap();
    assert_eq!(a, b);
}

#[test]
fn first_byte_is_variant_tag() {
    let bytes = ProofInstruction::store_proof("", "", 0).try_to_vec().unwrap();
    assert_eq!(bytes[0], STORE_PROOF_TAG);
    assert_eq!(sample().tag(), 0);
    assert_eq!(bytes, vec![0u8; 17]);
}

#[test]
fn encodes_multibyte_utf8_by_bytes() {
    let bytes = ProofInstruction::store_proof("é", "", u64::MAX).try_to_vec().unwrap();
    assert_eq!(bytes, vec![0, 2, 0, 0, 0, 0xc3, 0xa9, 0, 0, 0, 0, 255, 255, 255, 255, 255, 255, 255, 255]);
}

#[test]
fn round_trip_gives_back_instruction() {
    let bytes = sample().try_to_vec().unwrap();
    match ProofInstruction::try_from_slice(&bytes) {
        Ok(ProofInstruction::StoreProof { url, content_hash, content_length }) => {
            assert_eq!(url, "https://x.test");
            assert_eq!(content_hash, "deadbeef");
            assert_eq!(content_length, 42);
        }
        Err(e) => panic!("decode failed: {:?}", e),
    }
}

#[test]
fn decode_rejects_empty() {
    assert!(matches!(ProofInstruction::try_from_slice(&[]), Err(DecodeError::Empty)));
}

#[test]
fn decode_rejects_unknown_variant() {
    let mut bytes = sample_bytes();
    bytes[0] = 1;
    assert!(matches!(ProofInstruction::try_from_slice(&bytes), Err(DecodeError::UnknownVariant)));
}

#[test]
fn decode_rejects_truncated() {
    let bytes = sample_bytes();
    for cut in [1usize, 4, 10, 19, 23, 31, 38] {
        assert!(matches!(ProofInstruction::try_from_slice(&bytes[..cut]), Err(DecodeError::Truncated)));
    }
}

#[test]
fn decode_rejects_trailing_bytes() {
    let mut bytes = sample_bytes();
    bytes.push(7);
    assert!(matches!(ProofInstruction::try_from_slice(&bytes), Err(DecodeError::TrailingBytes)));
}

#[test]
fn decode_rejects_invalid_utf8() {
    let bytes = vec![0u8, 1, 0, 0, 0, 0xff, 0, 0, 0, 0, 1, 0, 0, 0, 0, 0, 0, 0];
    assert!(matches!(ProofInstruction::try_from_slice(&bytes), Err(DecodeError::InvalidUtf8)));
}

#[test]
fn round_trip_keeps_non_ascii_text() {
    let instruction = ProofInstruction::store_proof("https://例え.テスト/ü", "ß∂ƒ", 7);
    let bytes = instruction.try_to_vec().unwrap();
    match ProofInstruction::try_from_slice(&bytes).unwrap() {
        ProofInstruction::StoreProof { url, content_hash, content_length } => {
            assert_eq!(url, "https://例え.テスト/ü");
            assert_eq!(content_hash, "ß∂ƒ");
            assert_eq!(content_length, 7);
        }
    }
}
