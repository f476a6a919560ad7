use vstd::prelude::*;

verus! {

/// Minimum collateral, in percent of the debt, for a borrow or withdrawal.
pub const COLLATERAL_RATIO: u64 = 150;

/// Collateral, in percent of the debt, below which a position may be liquidated.
pub const LIQUIDATION_THRESHOLD: u64 = 110;

/// Denominator of the percentage ratios.
pub const PERCENT: u64 = 100;

/// `deposits` covers at least `numerator / denominator` times `borrowed`.
pub open spec fn covers(deposits: int, borrowed: int, numerator: int, denominator: int) -> bool {
    deposits * denominator >= borrowed * numerator
}

/// Solvency: collateral is at least 150% of the debt.
pub open spec fn solvent(deposits: int, borrowed: int) -> bool {
    covers(deposits, borrowed, COLLATERAL_RATIO as int, PERCENT as int)
}

/// Liquidation eligibility: collateral is below 110% of the debt.
pub open spec fn liquidatable(deposits: int, borrowed: int) -> bool {
    !covers(deposits, borrowed, LIQUIDATION_THRESHOLD as int, PERCENT as int)
}

/// Whether `deposits * denominator >= borrowed * numerator`, computed in
/// 128 bits so that no pair of 64-bit operands can overflow.
pub fn meets_ratio(deposits: u64, borrowed: u64, numerator: u64, denominator: u64) -> (r: bool)
    ensures
        r == covers(deposits as int, borrowed as int, numerator as int, denominator as int),
{
    let d = deposits as u128;
    let b = borrowed as u128;
    let n = numerator as u128;
    let m = denominator as u128;
    proof {
        assert(d * m <= u64::MAX as int * u64::MAX as int) by (nonlinear_arith)
            requires d <= u64::MAX, m <= u64::MAX;
        assert(b * n <= u64::MAX as int * u64::MAX as int) by (nonlinear_arith)
            requires b <= u64::MAX, n <= u64::MAX;
    }
    d * m >= b * n
}

/// Whether a position with these balances satisfies the collateral ratio.
pub fn is_solvent(deposits: u64, borrowed: u64) -> (r: bool)
    ensures
        r == solvent(deposits as int, borrowed as int),
{
    meets_ratio(deposits, borrowed, COLLATERAL_RATIO, PERCENT)
}

/// Whether a position with these balances is below the liquidation threshold.
pub fn is_liquidatable(deposits: u64, borrowed: u64) -> (r: bool)
    ensures
        r == liquidatable(deposits as int, borrowed as int),
{
    !meets_ratio(deposits, borrowed, LIQUIDATION_THRESHOLD, PERCENT)
}

/// Every liquidatable position is also insolvent: the liquidation zone lies
/// strictly inside the region where borrowing and withdrawing are refused.
pub proof fn lemma_liquidatable_implies_insolvent(deposits: nat, borrowed: nat)
    requires
        liquidatable(deposits as int, borrowed as int),
    ensures
        !solvent(deposits as int, borrowed as int),
{
    assert(deposits * 100 < borrowed * 110 ==> deposits * 100 < borrowed * 150) by (nonlinear_arith);
}

} // verus!
