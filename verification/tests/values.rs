use english_auction::{Address, Uint256};

#[test]
fn zero_address_is_twenty_zero_bytes() {
    assert_eq!(Address::zero().bytes, [0u8; 20]);
    assert!(Address::zero().is_zero());
    assert!(Address { bytes: [0u8; 20] }.is_zero());
}

#[test]
fn address_with_any_byte_set_is_not_zero() {
    for i in 0..20 {
        let mut bytes = [0u8; 20];
        bytes[i] = 1;
        assert!(!Address { bytes }.is_zero());
    }
}

#[test]
fn addresses_are_equal_when_all_bytes_are() {
    let a = Address { bytes: [7u8; 20] };
    let b = Address { bytes: [7u8; 20] };
    assert!(a == b);
    for i in 0..20 {
        let mut bytes = [7u8; 20];
        bytes[i] = 8;
        assert!(a != Address { bytes });
    }
}

#[test]
fn zero_has_no_limb_set() {
    assert_eq!(Uint256::zero().limbs, [0, 0, 0, 0]);
    assert_eq!(Uint256::zero(), Uint256::from_u64(0));
}

#[test]
fn from_u64_fills_the_lowest_limb() {
    assert_eq!(Uint256::from_u64(42).limbs, [42, 0, 0, 0]);
    assert_eq!(Uint256::from_u64(u64::MAX).limbs, [u64::MAX, 0, 0, 0]);
}
