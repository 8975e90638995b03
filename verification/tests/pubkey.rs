use dao::Pubkey;

#[test]
fn pubkey_keeps_its_bytes() {
    let mut bytes = [0u8; 32];
    bytes[0] = 7;
    bytes[31] = 9;
    let key = Pubkey::new_from_array(bytes);
    assert_eq!(key.to_bytes(), bytes);
}

#[test]
fn pubkey_same_compares_every_byte() {
    let a = Pubkey::new_from_array([1u8; 32]);
    let b = Pubkey::new_from_array([1u8; 32]);
    let mut other = [1u8; 32];
    other[31] = 2;
    let c = Pubkey::new_from_array(other);
    assert!(a.same(&b));
    assert!(!a.same(&c));
    assert!(!c.same(&a));
    assert_eq!(a, b);
    assert_ne!(a, c);
}
