use vstd::prelude::*;
use crate::ledger::{borrow_spec, deposit_spec, liquidate_spec, repay_spec, withdraw_spec};
use crate::ratio::{liquidatable, solvent};
use crate::state::UserAccount;

verus! {

/// Every successful borrow or withdrawal leaves a solvent position.
pub proof fn lemma_borrow_withdraw_keep_solvent(a: UserAccount, amount: u64)
    ensures
        borrow_spec(a, amount) is Ok ==> solvent(
            borrow_spec(a, amount)->Ok_0.deposits as int,
            borrow_spec(a, amount)->Ok_0.borrowed as int,
        ),
        withdraw_spec(a, amount) is Ok ==> solvent(
            withdraw_spec(a, amount)->Ok_0.deposits as int,
            withdraw_spec(a, amount)->Ok_0.borrowed as int,
        ),
{
}

/// A liquidation succeeds only on a position that was below the liquidation
/// threshold just before it.
pub proof fn lemma_liquidate_requires_eligibility(a: UserAccount, amount: u64)
    ensures
        liquidate_spec(a, amount) is Ok ==> liquidatable(a.deposits as int, a.borrowed as int),
{
}

/// Repaying an amount and then borrowing it again, when both succeed, restores
/// the debt held before (and the rest of the position).
pub proof fn lemma_repay_then_borrow(a: UserAccount, amount: u64)
    requires
        repay_spec(a, amount) is Ok,
        borrow_spec(repay_spec(a, amount)->Ok_0, amount) is Ok,
    ensures
        borrow_spec(repay_spec(a, amount)->Ok_0, amount)->Ok_0.borrowed == a.borrowed,
        borrow_spec(repay_spec(a, amount)->Ok_0, amount)->Ok_0 == a,
{
}

/// Depositing an amount and then withdrawing it, when both succeed, restores
/// the deposits held before (and the rest of the position).
pub proof fn lemma_deposit_then_withdraw(a: UserAccount, amount: u64)
    requires
        deposit_spec(a, amount) is Ok,
        withdraw_spec(deposit_spec(a, amount)->Ok_0, amount) is Ok,
    ensures
        withdraw_spec(deposit_spec(a, amount)->Ok_0, amount)->Ok_0.deposits == a.deposits,
        withdraw_spec(deposit_spec(a, amount)->Ok_0, amount)->Ok_0 == a,
{
}

/// No operation wraps around: each successful result holds the exact integer
/// balances (so none is negative or overflowed), and a failed one changes nothing.
pub proof fn lemma_balances_exact(a: UserAccount, amount: u64)
    ensures
        deposit_spec(a, amount) is Ok ==> {
            let n = deposit_spec(a, amount)->Ok_0;
            n.deposits == a.deposits + amount && n.borrowed == a.borrowed
        },
        borrow_spec(a, amount) is Ok ==> {
            let n = borrow_spec(a, amount)->Ok_0;
            n.deposits == a.deposits && n.borrowed == a.borrowed + amount
        },
        repay_spec(a, amount) is Ok ==> {
            let n = repay_spec(a, amount)->Ok_0;
            n.deposits == a.deposits && n.borrowed == a.borrowed - amount && a.borrowed
                >= amount
        },
        withdraw_spec(a, amount) is Ok ==> {
            let n = withdraw_spec(a, amount)->Ok_0;
            n.deposits == a.deposits - amount && a.deposits >= amount && n.borrowed == a.borrowed
        },
        liquidate_spec(a, amount) is Ok ==> {
            let n = liquidate_spec(a, amount)->Ok_0;
            &&& n.deposits == a.deposits - amount
            &&& n.borrowed == a.borrowed - amount
            &&& a.deposits >= amount
            &&& a.borrowed >= amount
        },
{
}

/// Deposits and repayments only move a position toward solvency: a solvent
/// position stays solvent after either.
pub proof fn lemma_deposit_repay_keep_solvent(a: UserAccount, amount: u64)
    requires
        solvent(a.deposits as int, a.borrowed as int),
    ensures
        deposit_spec(a, amount) is Ok ==> solvent(
            deposit_spec(a, amount)->Ok_0.deposits as int,
            deposit_spec(a, amount)->Ok_0.borrowed as int,
        ),
        repay_spec(a, amount) is Ok ==> solvent(
            repay_spec(a, amount)->Ok_0.deposits as int,
            repay_spec(a, amount)->Ok_0.borrowed as int,
        ),
{
}

} // verus!
