use english_auction::{Address, RefundLedger, Uint256};

fn who(n: u8) -> Address {
    let mut bytes = [0u8; 20];
    bytes[7] = n;
    Address { bytes }
}

#[test]
fn new_ledger_owes_nothing() {
    let ledger = RefundLedger::new();
    assert_eq!(ledger.balance_of(who(1)), Uint256::zero());
    assert_eq!(ledger.balance_of(Address::zero()), Uint256::zero());
}

#[test]
fn credit_adds_to_what_is_owed() {
    let mut ledger = RefundLedger::new();
    ledger.credit(who(1), Uint256::from_u64(10));
    assert_eq!(ledger.balance_of(who(1)), Uint256::from_u64(10));
    ledger.credit(who(1), Uint256::from_u64(32));
    assert_eq!(ledger.balance_of(who(1)), Uint256::from_u64(42));
    assert_eq!(ledger.balance_of(who(2)), Uint256::zero());
}

#[test]
fn credit_keeps_bidders_apart() {
    let mut ledger = RefundLedger::new();
    ledger.credit(who(1), Uint256::from_u64(10));
    ledger.credit(who(2), Uint256::from_u64(20));
    ledger.credit(who(3), Uint256::from_u64(30));
    ledger.credit(who(2), Uint256::from_u64(5));
    assert_eq!(ledger.balance_of(who(1)), Uint256::from_u64(10));
    assert_eq!(ledger.balance_of(who(2)), Uint256::from_u64(25));
    assert_eq!(ledger.balance_of(who(3)), Uint256::from_u64(30));
}

#[test]
fn credit_of_zero_changes_nothing() {
    let mut ledger = RefundLedger::new();
    ledger.credit(who(1), Uint256::zero());
    assert_eq!(ledger.balance_of(who(1)), Uint256::zero());
    ledger.credit(who(1), Uint256::from_u64(9));
    ledger.credit(who(1), Uint256::zero());
    assert_eq!(ledger.balance_of(who(1)), Uint256::from_u64(9));
}

#[test]
fn credit_carries_into_the_next_limb() {
    let mut ledger = RefundLedger::new();
    ledger.credit(who(1), Uint256 { limbs: [u64::MAX, u64::MAX, 0, 0] });
    ledger.credit(who(1), Uint256::from_u64(1));
    assert_eq!(ledger.balance_of(who(1)), Uint256 { limbs: [0, 0, 1, 0] });
}

#[test]
fn credit_wraps_at_the_top() {
    let mut ledger = RefundLedger::new();
    ledger.credit(who(1), Uint256 { limbs: [u64::MAX; 4] });
    ledger.credit(who(1), Uint256::from_u64(3));
    assert_eq!(ledger.balance_of(who(1)), Uint256::from_u64(2));
}

#[test]
fn take_returns_and_clears_what_is_owed() {
    let mut ledger = RefundLedger::new();
    ledger.credit(who(1), Uint256::from_u64(10));
    ledger.credit(who(2), Uint256::from_u64(20));
    assert_eq!(ledger.take(who(1)), Uint256::from_u64(10));
    assert_eq!(ledger.balance_of(who(1)), Uint256::zero());
    assert_eq!(ledger.balance_of(who(2)), Uint256::from_u64(20));
    assert_eq!(ledger.take(who(1)), Uint256::zero());
    ledger.credit(who(1), Uint256::from_u64(4));
    assert_eq!(ledger.balance_of(who(1)), Uint256::from_u64(4));
}

#[test]
fn take_from_a_stranger_returns_zero() {
    let mut ledger = RefundLedger::new();
    ledger.credit(who(1), Uint256::from_u64(10));
    assert_eq!(ledger.take(who(9)), Uint256::zero());
    assert_eq!(ledger.balance_of(who(1)), Uint256::from_u64(10));
}
