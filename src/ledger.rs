use vstd::prelude::*;
use crate::error::LendingError;
use crate::ratio::{is_liquidatable, is_solvent, liquidatable, solvent};
use crate::state::UserAccount;

verus! {

/// What a call did: on success the position became `expected`'s value, on
/// failure it returned `expected`'s error and left the position untouched.
pub open spec fn applied(
    r: Result<(), LendingError>,
    before: UserAccount,
    after: UserAccount,
    expected: Result<UserAccount, LendingError>,
) -> bool {
    match expected {
        Ok(next) => r is Ok && after == next,
        Err(e) => r == Err::<(), LendingError>(e) && after == before,
    }
}

/// Deposit: adds `amount` to the collateral.
pub open spec fn deposit_spec(a: UserAccount, amount: u64) -> Result<UserAccount, LendingError> {
    if amount == 0 {
        Err(LendingError::InvalidArgument)
    } else if a.deposits + amount > u64::MAX {
        Err(LendingError::Overflow)
    } else {
        Ok(UserAccount { deposits: (a.deposits + amount) as u64, ..a })
    }
}

/// Borrow: adds `amount` to the debt, if the total debt stays covered.
pub open spec fn borrow_spec(a: UserAccount, amount: u64) -> Result<UserAccount, LendingError> {
    if amount == 0 {
        Err(LendingError::InvalidArgument)
    } else if a.borrowed + amount > u64::MAX {
        Err(LendingError::Overflow)
    } else if !solvent(a.deposits as int, a.borrowed + amount) {
        Err(LendingError::CollateralNotSufficient)
    } else {
        Ok(UserAccount { borrowed: (a.borrowed + amount) as u64, ..a })
    }
}

/// Repay: takes `amount` off the debt; no overpayment.
pub open spec fn repay_spec(a: UserAccount, amount: u64) -> Result<UserAccount, LendingError> {
    if amount == 0 || amount > a.borrowed {
        Err(LendingError::InvalidArgument)
    } else {
        Ok(UserAccount { borrowed: (a.borrowed - amount) as u64, ..a })
    }
}

/// Withdraw: takes `amount` off the collateral, if the debt stays covered.
pub open spec fn withdraw_spec(a: UserAccount, amount: u64) -> Result<UserAccount, LendingError> {
    if amount == 0 || amount > a.deposits {
        Err(LendingError::InvalidArgument)
    } else if !solvent(a.deposits - amount, a.borrowed as int) {
        Err(LendingError::CollateralNotSufficient)
    } else {
        Ok(UserAccount { deposits: (a.deposits - amount) as u64, ..a })
    }
}

/// Liquidate: on a position below the liquidation threshold, retires `amount`
/// of debt against the same amount of collateral.
pub open spec fn liquidate_spec(a: UserAccount, amount: u64) -> Result<UserAccount, LendingError> {
    if !liquidatable(a.deposits as int, a.borrowed as int) {
        Err(LendingError::CollateralNotSufficient)
    } else if amount == 0 || amount > a.borrowed || amount > a.deposits {
        Err(LendingError::InvalidArgument)
    } else {
        Ok(UserAccount {
            deposits: (a.deposits - amount) as u64,
            borrowed: (a.borrowed - amount) as u64,
            ..a
        })
    }
}

/// Adds `amount` to the position's deposits.
pub fn deposit(user_account: &mut UserAccount, amount: u64) -> (r: Result<(), LendingError>)
    ensures
        applied(r, *old(user_account), *final(user_account), deposit_spec(*old(user_account), amount)),
{
    if amount == 0 {
        return Err(LendingError::InvalidArgument);
    }
    match user_account.deposits.checked_add(amount) {
        Some(d) => {
            user_account.deposits = d;
            Ok(())
        },
        None => Err(LendingError::Overflow),
    }
}

/// Adds `amount` to the position's debt, provided the deposits still cover
/// the whole debt at the collateral ratio.
pub fn borrow(user_account: &mut UserAccount, amount: u64) -> (r: Result<(), LendingError>)
    ensures
        applied(r, *old(user_account), *final(user_account), borrow_spec(*old(user_account), amount)),
        r is Ok ==> solvent(final(user_account).deposits as int, final(user_account).borrowed as int),
{
    if amount == 0 {
        return Err(LendingError::InvalidArgument);
    }
    let new_borrowed = match user_account.borrowed.checked_add(amount) {
        Some(b) => b,
        None => return Err(LendingError::Overflow),
    };
    if !is_solvent(user_account.deposits, new_borrowed) {
        return Err(LendingError::CollateralNotSufficient);
    }
    user_account.borrowed = new_borrowed;
    Ok(())
}

/// Takes `amount` off the position's debt; repaying more than is owed is refused.
pub fn repay(user_account: &mut UserAccount, amount: u64) -> (r: Result<(), LendingError>)
    ensures
        applied(r, *old(user_account), *final(user_account), repay_spec(*old(user_account), amount)),
{
    if amount == 0 || amount > user_account.borrowed {
        return Err(LendingError::InvalidArgument);
    }
    user_account.borrowed = user_account.borrowed - amount;
    Ok(())
}

/// Takes `amount` off the position's deposits, provided what remains still
/// covers the debt at the collateral ratio.
pub fn withdraw(user_account: &mut UserAccount, amount: u64) -> (r: Result<(), LendingError>)
    ensures
        applied(r, *old(user_account), *final(user_account), withdraw_spec(*old(user_account), amount)),
        r is Ok ==> solvent(final(user_account).deposits as int, final(user_account).borrowed as int),
{
    if amount == 0 || amount > user_account.deposits {
        return Err(LendingError::InvalidArgument);
    }
    let new_deposits = user_account.deposits - amount;
    if !is_solvent(new_deposits, user_account.borrowed) {
        return Err(LendingError::CollateralNotSufficient);
    }
    user_account.deposits = new_deposits;
    Ok(())
}

/// Seizes `liquidation_amount` of collateral and forgives the same amount of
/// debt, provided the position is below the liquidation threshold. Anyone may
/// call it; the result is not required to be solvent.
pub fn liquidate(user_account: &mut UserAccount, liquidation_amount: u64) -> (r: Result<(), LendingError>)
    ensures
        applied(r, *old(user_account), *final(user_account), liquidate_spec(*old(user_account), liquidation_amount)),
        r is Ok ==> liquidatable(old(user_account).deposits as int, old(user_account).borrowed as int),
{
    if !is_liquidatable(user_account.deposits, user_account.borrowed) {
        return Err(LendingError::CollateralNotSufficient);
    }
    if liquidation_amount == 0 || liquidation_amount > user_account.borrowed
        || liquidation_amount > user_account.deposits {
        return Err(LendingError::InvalidArgument);
    }
    user_account.deposits = user_account.deposits - liquidation_amount;
    user_account.borrowed = user_account.borrowed - liquidation_amount;
    Ok(())
}

} // verus!
