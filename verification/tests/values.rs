use account_api::types::AccountHash;
use account_api::types::Amount;
use account_api::types::PublicKey;
use account_api::types::Weight;

#[test]
fn weight_wraps_its_byte() {
    let w = Weight::new(3);
    assert_eq!(w.value(), 3);
    assert_eq!(w, Weight::new(3));
    assert_ne!(w, Weight::new(4));
}

#[test]
fn account_hash_keeps_its_bytes() {
    let mut raw = [0u8; 32];
    raw[0] = 0xDE;
    raw[31] = 0xAD;
    let h = AccountHash::new(raw);
    assert_eq!(h.bytes(), raw);
    assert_eq!(h, AccountHash::new(raw));
    let mut other = raw;
    other[15] = 1;
    assert_ne!(h, AccountHash::new(other));
}

#[test]
fn public_key_equality_is_by_algorithm_and_bytes() {
    let a = PublicKey::Ed25519(vec![7u8; 32]);
    assert_eq!(a, PublicKey::Ed25519(vec![7u8; 32]));
    assert_ne!(a, PublicKey::Ed25519(vec![8u8; 32]));
    assert_ne!(a, PublicKey::Secp256k1(vec![7u8; 32]));
    assert_ne!(a, PublicKey::System);
    assert_eq!(PublicKey::System, PublicKey::System);
}

#[test]
fn amount_from_u64_keeps_small_values() {
    let a = Amount::from_u64(500_000_000_000);
    assert_eq!(a.limbs(), &vec![500_000_000_000u64]);
    assert_eq!(a, Amount::from_u64(500_000_000_000));
    assert_ne!(a, Amount::from_u64(500_000_000_001));
}

#[test]
fn amount_limbs_carry_wide_values() {
    // Two limbs: value is low + 2^64 * high, far beyond one machine word.
    let a = Amount::from_limbs(vec![1, 9]);
    assert_eq!(a.limbs(), &vec![1u64, 9u64]);
    assert_ne!(a, Amount::from_limbs(vec![1, 8]));
    assert_ne!(a, Amount::from_u64(1));
}
