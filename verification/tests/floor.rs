use solana_aggr::errors::ErrorCode;
use solana_aggr::floor::assert_amount_out;

#[test]
fn floor_rejects_growth_below_minimum() {
    assert_eq!(assert_amount_out(100, 150, 60), Err(ErrorCode::InvalidSwapAmount));
}

#[test]
fn floor_accepts_growth_at_minimum() {
    assert_eq!(assert_amount_out(100, 150, 50), Ok(()));
}

#[test]
fn floor_reports_a_fallen_balance_as_underflow() {
    assert_eq!(assert_amount_out(100, 90, 0), Err(ErrorCode::Underflow));
}

#[test]
fn floor_does_not_cap_the_growth() {
    assert_eq!(assert_amount_out(0, u64::MAX, u64::MAX), Ok(()));
    assert_eq!(assert_amount_out(0, u64::MAX, 0), Ok(()));
    assert_eq!(assert_amount_out(100, 100, 0), Ok(()));
}

#[test]
fn floor_is_exact_at_its_edge() {
    assert_eq!(assert_amount_out(100, 159, 60), Err(ErrorCode::InvalidSwapAmount));
    assert_eq!(assert_amount_out(100, 160, 60), Ok(()));
    assert_eq!(assert_amount_out(100, 100, 1), Err(ErrorCode::InvalidSwapAmount));
}

#[test]
fn floor_never_takes_a_fallen_balance_for_growth() {
    assert_eq!(assert_amount_out(100, 90, 60), Err(ErrorCode::Underflow));
    assert_eq!(assert_amount_out(u64::MAX, 0, 1), Err(ErrorCode::Underflow));
    assert_eq!(assert_amount_out(1, 0, u64::MAX), Err(ErrorCode::Underflow));
}
