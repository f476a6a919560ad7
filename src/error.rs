use vstd::prelude::*;

verus! {

/// Reasons an operation on a position is refused. Every refusal leaves the
/// position exactly as it was.
#[derive(Clone, Copy, Debug, PartialEq, Eq, Structural)]
pub enum LendingError {
    /// Not enough funds to perform the action.
    InsufficientFunds,
    /// An amount that is zero or exceeds the balance it is taken from.
    InvalidArgument,
    /// The collateral rule would be broken, or the position is not eligible.
    CollateralNotSufficient,
    /// A balance would leave the 64-bit range.
    Overflow,
    /// The caller does not own the position it tries to change.
    Unauthorized,
    /// The instruction bytes are truncated or carry an unknown tag.
    MalformedInstruction,
    /// The stored record has the wrong size.
    InvalidAccountData,
}

/// Numeric code of each error, in declaration order.
pub open spec fn error_code(e: LendingError) -> u32 {
    match e {
        LendingError::InsufficientFunds => 0,
        LendingError::InvalidArgument => 1,
        LendingError::CollateralNotSufficient => 2,
        LendingError::Overflow => 3,
        LendingError::Unauthorized => 4,
        LendingError::MalformedInstruction => 5,
        LendingError::InvalidAccountData => 6,
    }
}

impl LendingError {
    /// The error's numeric code, as carried by a custom program error.
    pub fn code(&self) -> (r: u32)
        ensures
            r == error_code(*self),
    {
        match self {
            LendingError::InsufficientFunds => 0,
            LendingError::InvalidArgument => 1,
            LendingError::CollateralNotSufficient => 2,
            LendingError::Overflow => 3,
            LendingError::Unauthorized => 4,
            LendingError::MalformedInstruction => 5,
            LendingError::InvalidAccountData => 6,
        }
    }

    /// Human-readable description of the error.
    pub fn message(&self) -> (r: &'static str)
    {
        match self {
            LendingError::InsufficientFunds => "Insufficient funds to perform the action.",
            LendingError::InvalidArgument => "Invalid argument passed.",
            LendingError::CollateralNotSufficient => "Collaterals are insufficient for the loan.",
            LendingError::Overflow => "Arithmetic overflow.",
            LendingError::Unauthorized => "Missing required signature.",
            LendingError::MalformedInstruction => "Invalid instruction data.",
            LendingError::InvalidAccountData => "Invalid account data.",
        }
    }
}

/// Distinct errors have distinct codes.
pub proof fn lemma_error_code_injective(a: LendingError, b: LendingError)
    ensures
        error_code(a) == error_code(b) ==> a == b,
{
}

} // verus!
