use vstd::prelude::*;

verus! {

/// Why an operation of the contract is refused; the host aborts the whole
/// invocation on any of them, so nothing it did is kept.
#[derive(Clone, Copy, Debug, PartialEq, Eq, Structural)]
pub enum CreditsError {
    /// An admin-only operation, but no administrator was ever stored.
    AdminNotSet,
    /// A donation or a swap of zero or less.
    AmountNotPositive,
    /// A donation below the stored minimum.
    BelowMinimum,
    /// An amount that does not fit the integer type it is computed in.
    Overflow,
    /// A remainder taken by a bucket size of zero.
    DivisionByZero,
    /// The router reported fewer than three executed amounts.
    MissingSwapResult,
    /// An address read from a key that was never written.
    AddressNotSet,
}

pub open spec fn error_message(e: CreditsError) -> Seq<char> {
    match e {
        CreditsError::AdminNotSet => "administrator not set"@,
        CreditsError::AmountNotPositive => "amount less than zero"@,
        CreditsError::BelowMinimum => "amount less than minimum allowed"@,
        CreditsError::Overflow => "arithmetic overflow"@,
        CreditsError::DivisionByZero => "division by zero"@,
        CreditsError::MissingSwapResult => "swap result missing"@,
        CreditsError::AddressNotSet => "address not set"@,
    }
}

impl CreditsError {
    /// The message with which the invocation is aborted.
    pub fn message(&self) -> (m: &'static str)
        ensures
            m@ == error_message(*self),
    {
        match self {
            CreditsError::AdminNotSet => "administrator not set",
            CreditsError::AmountNotPositive => "amount less than zero",
            CreditsError::BelowMinimum => "amount less than minimum allowed",
            CreditsError::Overflow => "arithmetic overflow",
            CreditsError::DivisionByZero => "division by zero",
            CreditsError::MissingSwapResult => "swap result missing",
            CreditsError::AddressNotSet => "address not set",
        }
    }
}

} // verus!
