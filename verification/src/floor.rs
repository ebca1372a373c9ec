use vstd::prelude::*;
use crate::errors::ErrorCode;

verus! {

/// What the floor check says of two readings of one balance: a balance that fell is an
/// underflow, one that grew by less than `threshold` is too small a swap, and anything
/// else passes, however large.
pub open spec fn amount_out_verdict(prev_bal: u64, post_bal: u64, threshold: u64) -> Result<(), ErrorCode> {
    if post_bal < prev_bal {
        Err(ErrorCode::Underflow)
    } else if post_bal - prev_bal < threshold {
        Err(ErrorCode::InvalidSwapAmount)
    } else {
        Ok(())
    }
}

/// Checks that a balance grew by at least `threshold` between two readings.
pub fn assert_amount_out(prev_bal: u64, post_bal: u64, threshold: u64) -> (res: Result<(), ErrorCode>)
    ensures
        res == amount_out_verdict(prev_bal, post_bal, threshold),
{
    match post_bal.checked_sub(prev_bal) {
        None => Err(ErrorCode::Underflow),
        Some(delta) => {
            if delta < threshold {
                Err(ErrorCode::InvalidSwapAmount)
            } else {
                Ok(())
            }
        },
    }
}

} // verus!
