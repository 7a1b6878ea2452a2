use private_pass::balance::{BalanceState, MAX_PENDING_CREDITS};

fn funded(public: u64) -> BalanceState {
    BalanceState { public, pending: 0, available: 0, pending_credits: 0 }
}

#[test]
fn deposit_moves_public_to_pending() {
    let mut s = funded(150);
    assert!(s.deposit(100));
    assert_eq!(s, BalanceState { public: 50, pending: 100, available: 0, pending_credits: 1 });
}

#[test]
fn deposit_of_whole_public_balance() {
    let mut s = funded(100);
    assert!(s.deposit(100));
    assert_eq!(s.public, 0);
    assert_eq!(s.pending, 100);
}

#[test]
fn deposit_beyond_public_balance_is_illegal() {
    let mut s = funded(99);
    assert!(!s.deposit(100));
    assert_eq!(s, funded(99));
}

#[test]
fn deposit_beyond_credit_bound_is_illegal() {
    let mut s = BalanceState { public: 10, pending: 0, available: 0, pending_credits: MAX_PENDING_CREDITS };
    assert!(!s.deposit(1));
}

#[test]
fn apply_moves_pending_to_available() {
    let mut s = funded(100);
    assert!(s.deposit(60));
    assert!(s.apply_pending());
    assert_eq!(s, BalanceState { public: 40, pending: 0, available: 60, pending_credits: 0 });
}

#[test]
fn apply_without_credits_is_a_no_op() {
    let mut s = BalanceState { public: 1, pending: 0, available: 5, pending_credits: 0 };
    assert!(!s.apply_pending());
    assert_eq!(s, BalanceState { public: 1, pending: 0, available: 5, pending_credits: 0 });
}

#[test]
fn transfer_credits_recipient_pending() {
    let mut a = BalanceState { public: 0, pending: 0, available: 80, pending_credits: 0 };
    let mut b = funded(0);
    assert!(a.transfer(&mut b, 30));
    assert_eq!(a.available, 50);
    assert_eq!(b, BalanceState { public: 0, pending: 30, available: 0, pending_credits: 1 });
    assert!(!a.transfer(&mut b, 51));
    assert_eq!(a.available, 50);
}

#[test]
fn withdraw_moves_available_to_public() {
    let mut s = BalanceState { public: 5, pending: 0, available: 20, pending_credits: 0 };
    assert!(s.withdraw(20));
    assert_eq!(s, BalanceState { public: 25, pending: 0, available: 0, pending_credits: 0 });
    assert!(!s.withdraw(1));
}
