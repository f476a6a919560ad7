use lending::error::LendingError;
use lending::ratio::{is_liquidatable, is_solvent, meets_ratio};
use lending::{borrow, deposit, liquidate, repay, withdraw, UserAccount};

fn pos(deposits: u64, borrowed: u64) -> UserAccount {
    UserAccount::new(deposits, borrowed)
}

#[test]
fn deposit_borrow_scenario() {
    let mut a = UserAccount::empty();
    assert_eq!(deposit(&mut a, 1000), Ok(()));
    assert_eq!((a.deposits, a.borrowed), (1000, 0));
    assert_eq!(borrow(&mut a, 600), Ok(()));
    assert_eq!((a.deposits, a.borrowed), (1000, 600));
    assert_eq!(borrow(&mut a, 100), Err(LendingError::CollateralNotSufficient));
    assert_eq!((a.deposits, a.borrowed), (1000, 600));
}

#[test]
fn withdraw_scenario() {
    let mut a = pos(1000, 600);
    assert_eq!(withdraw(&mut a, 350), Err(LendingError::CollateralNotSufficient));
    assert_eq!((a.deposits, a.borrowed), (1000, 600));
    assert_eq!(withdraw(&mut a, 100), Ok(()));
    assert_eq!((a.deposits, a.borrowed), (900, 600));
}

#[test]
fn liquidation_scenario() {
    let mut a = pos(500, 500);
    assert!(is_liquidatable(500, 500));
    assert_eq!(liquidate(&mut a, 200), Ok(()));
    assert_eq!((a.deposits, a.borrowed), (300, 300));
    assert!(is_liquidatable(a.deposits, a.borrowed));
}

#[test]
fn borrow_and_withdraw_leave_solvent() {
    let mut a = pos(1500, 0);
    assert_eq!(borrow(&mut a, 1000), Ok(()));
    assert!(is_solvent(a.deposits, a.borrowed));
    assert_eq!(borrow(&mut a, 1), Err(LendingError::CollateralNotSufficient));
    let mut b = pos(3000, 1000);
    assert_eq!(withdraw(&mut b, 1500), Ok(()));
    assert!(is_solvent(b.deposits, b.borrowed));
    assert_eq!(withdraw(&mut b, 1), Err(LendingError::CollateralNotSufficient));
}

#[test]
fn liquidate_needs_eligibility() {
    // Not eligible is reported before the amount is looked at.
    let mut z = pos(600, 500);
    assert_eq!(liquidate(&mut z, 0), Err(LendingError::CollateralNotSufficient));
    // 110% exactly is not below the threshold.
    let mut a = pos(1100, 1000);
    assert_eq!(liquidate(&mut a, 100), Err(LendingError::CollateralNotSufficient));
    assert_eq!((a.deposits, a.borrowed), (1100, 1000));
    // Stressed but not liquidatable: fails the collateral ratio only.
    let mut b = pos(1200, 1000);
    assert!(!is_solvent(1200, 1000));
    assert_eq!(liquidate(&mut b, 100), Err(LendingError::CollateralNotSufficient));
    let mut c = pos(1099, 1000);
    assert_eq!(liquidate(&mut c, 100), Ok(()));
    assert_eq!((c.deposits, c.borrowed), (999, 900));
}

#[test]
fn repay_then_borrow_round_trip() {
    let mut a = pos(1000, 600);
    assert_eq!(repay(&mut a, 250), Ok(()));
    assert_eq!(a.borrowed, 350);
    assert_eq!(borrow(&mut a, 250), Ok(()));
    assert_eq!(a, pos(1000, 600));
}

#[test]
fn deposit_then_withdraw_round_trip() {
    let mut a = pos(900, 600);
    assert_eq!(deposit(&mut a, 77), Ok(()));
    assert_eq!(a.deposits, 977);
    assert_eq!(withdraw(&mut a, 77), Ok(()));
    assert_eq!(a, pos(900, 600));
}

#[test]
fn deposit_overflow_refused() {
    let mut a = pos(u64::MAX - 5, 0);
    assert_eq!(deposit(&mut a, 6), Err(LendingError::Overflow));
    assert_eq!(a.deposits, u64::MAX - 5);
    assert_eq!(deposit(&mut a, 5), Ok(()));
    assert_eq!(a.deposits, u64::MAX);
}

#[test]
fn borrow_overflow_refused() {
    let mut a = pos(u64::MAX, u64::MAX - 1);
    assert_eq!(borrow(&mut a, 2), Err(LendingError::Overflow));
    assert_eq!(a.borrowed, u64::MAX - 1);
}

#[test]
fn large_balances_compare_without_overflow() {
    assert!(meets_ratio(u64::MAX, u64::MAX, 100, 100));
    assert!(!meets_ratio(u64::MAX - 1, u64::MAX, 100, 100));
    assert!(is_solvent(u64::MAX, u64::MAX / 3 * 2));
    assert!(!is_solvent(u64::MAX, u64::MAX));
}

#[test]
fn zero_amounts_refused() {
    let mut a = pos(1000, 100);
    assert_eq!(deposit(&mut a, 0), Err(LendingError::InvalidArgument));
    assert_eq!(borrow(&mut a, 0), Err(LendingError::InvalidArgument));
    assert_eq!(repay(&mut a, 0), Err(LendingError::InvalidArgument));
    assert_eq!(withdraw(&mut a, 0), Err(LendingError::InvalidArgument));
    assert_eq!(liquidate(&mut a, 0), Err(LendingError::CollateralNotSufficient));
    assert_eq!(a, pos(1000, 100));
    let mut b = pos(500, 500);
    assert_eq!(liquidate(&mut b, 0), Err(LendingError::InvalidArgument));
    assert_eq!(b, pos(500, 500));
}

#[test]
fn repay_overpayment_refused() {
    let mut a = pos(1000, 100);
    assert_eq!(repay(&mut a, 101), Err(LendingError::InvalidArgument));
    assert_eq!(a.borrowed, 100);
    assert_eq!(repay(&mut a, 100), Ok(()));
    assert_eq!(a.borrowed, 0);
}

#[test]
fn withdraw_more_than_held_refused() {
    let mut a = pos(100, 0);
    assert_eq!(withdraw(&mut a, 101), Err(LendingError::InvalidArgument));
    assert_eq!(withdraw(&mut a, 100), Ok(()));
    assert_eq!(a.deposits, 0);
}

#[test]
fn liquidate_bounds() {
    let mut a = pos(500, 500);
    assert_eq!(liquidate(&mut a, 501), Err(LendingError::InvalidArgument));
    let mut b = pos(100, 1000);
    assert_eq!(liquidate(&mut b, 500), Err(LendingError::InvalidArgument));
    assert_eq!((b.deposits, b.borrowed), (100, 1000));
    assert_eq!(liquidate(&mut b, 100), Ok(()));
    assert_eq!((b.deposits, b.borrowed), (0, 900));
}

#[test]
fn error_codes() {
    assert_eq!(LendingError::InsufficientFunds.code(), 0);
    assert_eq!(LendingError::InvalidArgument.code(), 1);
    assert_eq!(LendingError::CollateralNotSufficient.code(), 2);
    assert_eq!(LendingError::Overflow.code(), 3);
    assert_eq!(LendingError::Unauthorized.code(), 4);
    assert_eq!(LendingError::MalformedInstruction.code(), 5);
    assert_eq!(LendingError::InvalidAccountData.code(), 6);
    assert_eq!(LendingError::InvalidArgument.message(), "Invalid argument passed.");
}
