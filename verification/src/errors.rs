use vstd::prelude::*;

verus! {

/// Why a request is refused.
#[derive(Clone, Copy, Debug, PartialEq, Eq, Structural)]
pub enum ErrorCode {
    /// The escrow account is registered to someone other than the program authority.
    IncorrectOwner,
    /// The watched balance grew by less than the caller's floor.
    InvalidSwapAmount,
    /// A balance subtraction would go below zero.
    Underflow,
    /// A fee is too large for a 64-bit amount.
    Overflow,
    /// The ledger refused to hand out an account's state; the field is the ledger's own
    /// numeric code for the failure, carried unchanged.
    Ledger(u64),
}

impl ErrorCode {
    /// The text shown to a user for this error.
    pub fn message(&self) -> (text: &'static str)
        ensures
            text@ == match *self {
                ErrorCode::IncorrectOwner => "The authority account provided is not a valid owner of WSOL account."@,
                ErrorCode::InvalidSwapAmount => "Out amount lower than expected after swap."@,
                ErrorCode::Underflow => "Subtraction resulted in underflow"@,
                ErrorCode::Overflow => "Fee does not fit in a 64-bit amount"@,
                ErrorCode::Ledger(_) => "The ledger could not read the account"@,
            },
    {
        match self {
            ErrorCode::IncorrectOwner => "The authority account provided is not a valid owner of WSOL account.",
            ErrorCode::InvalidSwapAmount => "Out amount lower than expected after swap.",
            ErrorCode::Underflow => "Subtraction resulted in underflow",
            ErrorCode::Overflow => "Fee does not fit in a 64-bit amount",
            ErrorCode::Ledger(_) => "The ledger could not read the account",
        }
    }
}

} // verus!
