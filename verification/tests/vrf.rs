use vrf_oracle::vrf::{compute_randomness, signed_message, vrf_input_bytes};

#[test]
fn deterministic_for_same_inputs() {
    let secret = b"test-secret";
    let seed = [1u8; 32];

    let r1 = compute_randomness(secret, &seed, 100, 0);
    let r2 = compute_randomness(secret, &seed, 100, 0);
    assert_eq!(r1, r2);
}

#[test]
fn different_for_different_slots() {
    let secret = b"test-secret";
    let seed = [1u8; 32];

    let r1 = compute_randomness(secret, &seed, 100, 0);
    let r2 = compute_randomness(secret, &seed, 101, 0);
    assert_ne!(r1, r2);
}

#[test]
fn different_for_different_ids() {
    let secret = b"test-secret";
    let seed = [1u8; 32];

    let r1 = compute_randomness(secret, &seed, 100, 0);
    let r2 = compute_randomness(secret, &seed, 100, 1);
    assert_ne!(r1, r2);
}

#[test]
fn different_for_different_seeds_and_secrets() {
    let r = compute_randomness(b"test-secret", &[1u8; 32], 100, 0);
    let mut seed = [1u8; 32];
    seed[31] = 0;
    assert_ne!(r, compute_randomness(b"test-secret", &seed, 100, 0));
    assert_ne!(r, compute_randomness(b"test-secres", &[1u8; 32], 100, 0));
    assert_ne!(r, compute_randomness(b"", &[1u8; 32], 100, 0));
}

#[test]
fn randomness_matches_known_vector() {
    let r = compute_randomness(b"test-secret", &[0x11u8; 32], 100, 42);
    assert_eq!(
        r,
        [
            194, 87, 235, 254, 5, 31, 32, 186, 60, 153, 2, 92, 124, 37, 121, 248, 235, 29, 56, 211, 33,
            255, 132, 57, 175, 234, 169, 17, 43, 130, 234, 254
        ]
    );
}

#[test]
fn randomness_is_not_the_input() {
    let seed = [0x11u8; 32];
    let r = compute_randomness(b"k", &seed, 1, 2);
    assert_ne!(r, seed);
    assert_ne!(r, [0u8; 32]);
}

#[test]
fn mac_input_is_seed_slot_id() {
    let input = vrf_input_bytes(&[0x11u8; 32], 100, 42);
    let mut expected = vec![0x11u8; 32];
    expected.extend_from_slice(&[100, 0, 0, 0, 0, 0, 0, 0]);
    expected.extend_from_slice(&[42, 0, 0, 0, 0, 0, 0, 0]);
    assert_eq!(input, expected);
    let big = vrf_input_bytes(&[0u8; 32], u64::MAX, 0x0102030405060708);
    assert_eq!(&big[32..40], &[0xFF; 8]);
    assert_eq!(&big[40..48], &[8, 7, 6, 5, 4, 3, 2, 1]);
}

#[test]
fn signed_message_is_id_then_randomness() {
    let randomness = [9u8; 32];
    let m = signed_message(42, &randomness);
    assert_eq!(m.len(), 40);
    assert_eq!(&m[..8], &42u64.to_le_bytes());
    assert_eq!(&m[8..], &randomness);
}
