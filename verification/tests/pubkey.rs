use lpfinance::pubkey::{keys_from_bytes, list_contains, zero_pubkey, Pubkey};

#[test]
fn keys_compare_by_bytes() {
    let a = Pubkey::new_from_array([1u8; 32]);
    let mut bytes = [1u8; 32];
    assert!(a.key_eq(&Pubkey::new_from_array(bytes)));
    bytes[31] = 2;
    assert!(!a.key_eq(&Pubkey::new_from_array(bytes)));
}

#[test]
fn list_membership() {
    let a = Pubkey::new_from_array([1u8; 32]);
    let b = Pubkey::new_from_array([2u8; 32]);
    assert!(list_contains(&[b, a], &a));
    assert!(!list_contains(&[b], &a));
    assert!(!list_contains(&[], &a));
}

#[test]
fn zero_key_is_all_zero() {
    assert_eq!(zero_pubkey().bytes, [0u8; 32]);
}

#[test]
fn keys_read_back_to_back() {
    let mut data = vec![1u8; 32];
    data.extend_from_slice(&[2u8; 32]);
    data.extend_from_slice(&[3u8; 5]);
    let keys = keys_from_bytes(&data);
    assert_eq!(keys.len(), 2);
    assert_eq!(keys[0].bytes, [1u8; 32]);
    assert_eq!(keys[1].bytes, [2u8; 32]);
    assert!(keys_from_bytes(&[]).is_empty());
}
