use alethea_oracle::hash::{commitment_hash, commitment_preimage, simple_hash, verify_commitment};
use alethea_oracle::voter_contract::VoterChainContract;

fn preimage_bytes(outcome_index: usize, salt: &[u8; 32]) -> [u8; 40] {
    let mut data = [0u8; 40];
    data[..8].copy_from_slice(&(outcome_index as u64).to_le_bytes());
    data[8..40].copy_from_slice(salt);
    data
}

#[test]
fn lib_test_simple_hash_deterministic() {
    let data = b"test data";
    let hash1 = simple_hash(data);
    let hash2 = simple_hash(data);
    assert_eq!(hash1, hash2);
}

#[test]
fn test_hash_consistency() {
    let data = b"test data";
    let hash1 = simple_hash(data);
    let hash2 = simple_hash(data);
    assert_eq!(hash1, hash2, "same input, same digest");
}

#[test]
fn test_hash_large_data() {
    let large_data = vec![0u8; 100_000];
    let hash = simple_hash(&large_data);
    assert_eq!(hash.len(), 32);
}

#[test]
fn contract_test_simple_hash_deterministic() {
    let data = b"same input";
    let hash1 = VoterChainContract::simple_hash(data);
    let hash2 = VoterChainContract::simple_hash(data);
    assert_eq!(hash1, hash2);
}

#[test]
fn test_simple_hash_different_inputs() {
    let hash1 = VoterChainContract::simple_hash(b"input1");
    let hash2 = VoterChainContract::simple_hash(b"input2");
    assert_ne!(hash1, hash2);
}

#[test]
fn test_verify_commitment() {
    let outcome_index = 1;
    let salt = [42u8; 32];
    let data = preimage_bytes(outcome_index, &salt);
    let hash = VoterChainContract::simple_hash(&data);
    assert!(VoterChainContract::verify_commitment(&hash, outcome_index, &salt));
    let wrong_salt = [43u8; 32];
    assert!(!VoterChainContract::verify_commitment(&hash, outcome_index, &wrong_salt));
}

#[test]
fn test_hash_empty_data() {
    let hash = VoterChainContract::simple_hash(&[]);
    assert_eq!(hash, [0u8; 32]);
}

#[test]
fn digest_of_three_bytes() {
    let mut expected = [0u8; 32];
    expected[0] = 2;
    expected[1] = 2;
    expected[2] = 3;
    expected[25] = 2;
    expected[26] = 2;
    expected[27] = 3;
    assert_eq!(simple_hash(&[1, 2, 3]), expected);
}

#[test]
fn digest_ignores_bytes_past_the_cap() {
    let mut a = vec![7u8; 10_005];
    let b = a.clone();
    a[10_002] = 9;
    assert_eq!(simple_hash(&a), simple_hash(&b));
    let mut c = b.clone();
    c[9_999] = 9;
    assert_ne!(simple_hash(&c), simple_hash(&b));
}

#[test]
fn digest_encodes_the_length() {
    assert_ne!(simple_hash(&[0u8; 1]), simple_hash(&[0u8; 2]));
    assert_ne!(simple_hash(&[0u8; 1]), [0u8; 32]);
}

#[test]
fn preimage_layout() {
    let salt = [5u8; 32];
    let data = commitment_preimage(0x0102, &salt);
    assert_eq!(data, preimage_bytes(0x0102, &salt));
    assert_eq!(data[0], 2);
    assert_eq!(data[1], 1);
    assert_eq!(data[8], 5);
}

#[test]
fn commitment_round_trip() {
    let salt = [9u8; 32];
    for outcome in 0..4usize {
        let hash = commitment_hash(outcome, &salt);
        assert_eq!(hash, simple_hash(&preimage_bytes(outcome, &salt)));
        assert!(verify_commitment(&hash, outcome, &salt));
        assert!(!verify_commitment(&hash, outcome + 1, &salt));
        let mut other = salt;
        other[31] ^= 1;
        assert!(!verify_commitment(&hash, outcome, &other));
    }
}

#[test]
fn digest_uses_the_capped_length() {
    let long = vec![3u8; 10_001];
    assert_eq!(simple_hash(&long), simple_hash(&long[..10_000]));
    let longer = vec![0u8; 100_000];
    assert_eq!(simple_hash(&longer), simple_hash(&longer[..10_000]));
}
