use cw_xrpl::amount::{
    amount_after_bridge_fees, convert_amount_decimals, convert_and_truncate_amount, pow10_u128,
    truncate_amount, truncate_and_convert_amount, validate_xrpl_amount,
};
use cw_xrpl::error::{ContractError, OverflowError, OverflowOperation};

#[test]
fn powers_of_ten() {
    assert_eq!(pow10_u128(0), 1);
    assert_eq!(pow10_u128(17), 100_000_000_000_000_000);
    assert_eq!(pow10_u128(38), 10u128.pow(38));
}

#[test]
fn truncation_to_negative_precision() {
    // 15 decimals with sending precision -2 truncates to multiples of 1e17.
    assert_eq!(
        truncate_amount(-2, 15, 99_999_999_999_999_999),
        Err(ContractError::AmountSentIsZeroAfterTruncation {})
    );
    assert_eq!(
        truncate_amount(-2, 15, 100_000_000_000_000_000),
        Ok((100_000_000_000_000_000, 0))
    );
    assert_eq!(
        truncate_amount(-2, 15, 199_999_999_999_999_999),
        Ok((100_000_000_000_000_000, 99_999_999_999_999_999))
    );
}

#[test]
fn truncation_to_positive_precision() {
    assert_eq!(truncate_amount(13, 15, 1234), Ok((1200, 34)));
    assert_eq!(truncate_amount(15, 15, 1234), Ok((1234, 0)));
    assert_eq!(
        truncate_amount(13, 15, 99),
        Err(ContractError::AmountSentIsZeroAfterTruncation {})
    );
    // A precision above the decimals truncates by the absolute difference.
    assert_eq!(truncate_amount(16, 15, 1234), Ok((1230, 4)));
}

#[test]
fn truncation_is_idempotent() {
    let (t, _) = truncate_amount(3, 15, 987_654_321_987_654_321).unwrap();
    assert_eq!(truncate_amount(3, 15, t), Ok((t, 0)));
}

#[test]
fn decimal_conversion() {
    assert_eq!(convert_amount_decimals(6, 15, 1), Ok(1_000_000_000));
    assert_eq!(convert_amount_decimals(15, 6, 1_234_567_890_123), Ok(1234));
    assert_eq!(convert_amount_decimals(15, 15, 42), Ok(42));
    assert_eq!(
        convert_amount_decimals(0, 38, 4),
        Err(ContractError::OverflowError(OverflowError {
            operation: OverflowOperation::Mul,
            operand1: 4,
            operand2: 10u128.pow(38),
        }))
    );
    // Scaling up and back down gives the amount back.
    let up = convert_amount_decimals(6, 15, 123_456).unwrap();
    assert_eq!(convert_amount_decimals(15, 6, up), Ok(123_456));
}

#[test]
fn bridging_fees() {
    assert_eq!(amount_after_bridge_fees(100, 30), Ok(70));
    assert_eq!(amount_after_bridge_fees(30, 30), Ok(0));
    assert_eq!(
        amount_after_bridge_fees(10, 30),
        Err(ContractError::CannotCoverBridgingFees {})
    );
}

#[test]
fn convert_then_truncate() {
    assert_eq!(
        convert_and_truncate_amount(4, 15, 6, 1_000_000_000_123_456_789, 10),
        Ok((999_999_900, 90))
    );
    assert_eq!(
        convert_and_truncate_amount(4, 15, 6, 1_000_000_000_123_456_789, 2_000_000_000),
        Err(ContractError::CannotCoverBridgingFees {})
    );
}

#[test]
fn truncate_then_convert() {
    assert_eq!(
        truncate_and_convert_amount(4, 6, 15, 1_000_123, 3),
        Ok((1_000_100_000_000_000, 20))
    );
    assert_eq!(
        truncate_and_convert_amount(4, 6, 15, 99, 0),
        Err(ContractError::AmountSentIsZeroAfterTruncation {})
    );
}

#[test]
fn xrpl_amounts() {
    validate_xrpl_amount(1_000_000_000_000_000_000_000_000_000).unwrap();
    assert_eq!(
        validate_xrpl_amount(1_000_000_000_000_000_000_000_000_001),
        Err(ContractError::InvalidXRPLAmount {})
    );
    validate_xrpl_amount(0).unwrap();
    validate_xrpl_amount(1_234_567_890_123_456).unwrap();
    validate_xrpl_amount(1_234_567_890_123_456_000).unwrap();
    assert_eq!(
        validate_xrpl_amount(12_345_678_901_234_567),
        Err(ContractError::InvalidXRPLAmount {})
    );
    // Appending zeroes does not change validity.
    validate_xrpl_amount(1_234_567_890_123_456 * 10).unwrap();
    validate_xrpl_amount(12_345_678_901_234_567 * 10).unwrap_err();
    validate_xrpl_amount(u128::MAX).unwrap_err();
}
