use cw_xrpl::error::ContractError;
use cw_xrpl::token::{
    is_token_xrp, str_equal, validate_cosmos_denom, validate_cosmos_token_decimals,
    validate_sending_precision, xrpl_decimals, XRP_CURRENCY, XRP_DEFAULT_MAX_HOLDING_AMOUNT, XRP_ISSUER,
};

#[test]
fn cosmos_token_decimals() {
    validate_cosmos_token_decimals(0).unwrap();
    validate_cosmos_token_decimals(100).unwrap();
    assert_eq!(
        validate_cosmos_token_decimals(101),
        Err(ContractError::InvalidDecimals {})
    );
}

#[test]
fn sending_precisions() {
    validate_sending_precision(-15, 15).unwrap();
    validate_sending_precision(-6, 6).unwrap();
    // A precision below the negative of the decimals is refused.
    assert_eq!(
        validate_sending_precision(-7, 6),
        Err(ContractError::InvalidSendingPrecision {})
    );
    validate_sending_precision(-1, 0).unwrap_err();
    validate_sending_precision(0, 0).unwrap();
    validate_sending_precision(6, 6).unwrap();
    validate_sending_precision(15, 18).unwrap();
    assert_eq!(
        validate_sending_precision(-16, 20),
        Err(ContractError::InvalidSendingPrecision {})
    );
    validate_sending_precision(16, 20).unwrap_err();
    validate_sending_precision(7, 6).unwrap_err();
}

#[test]
fn cosmos_denoms() {
    validate_cosmos_denom("utest").unwrap();
    validate_cosmos_denom("abc").unwrap();
    validate_cosmos_denom("factory/orai1abc/TEST").unwrap();
    validate_cosmos_denom("ibc/ABC:x.y_z-1").unwrap();
    validate_cosmos_denom(&"a".repeat(128)).unwrap();
    assert_eq!(
        validate_cosmos_denom("ab"),
        Err(ContractError::InvalidDenom {})
    );
    validate_cosmos_denom(&"a".repeat(129)).unwrap_err();
    validate_cosmos_denom("1abc").unwrap_err();
    validate_cosmos_denom("/abc").unwrap_err();
    validate_cosmos_denom("ab c").unwrap_err();
    validate_cosmos_denom("abé").unwrap_err();
}

#[test]
fn xrp_identification() {
    assert!(is_token_xrp(XRP_ISSUER, XRP_CURRENCY));
    assert!(is_token_xrp("rrrrrrrrrrrrrrrrrrrrrhoLvTp", "XRP"));
    assert!(!is_token_xrp("rrrrrrrrrrrrrrrrrrrrrhoLvTp", "USD"));
    assert!(!is_token_xrp("rU6K7V3Po4snVhBBaU29sesqs2qTQJWDw1", "XRP"));
    assert!(str_equal("abc", "abc"));
    assert!(!str_equal("abc", "abd"));
    assert!(!str_equal("abc", "ab"));
    assert_eq!(XRP_DEFAULT_MAX_HOLDING_AMOUNT, 10u128.pow(16 - 6 + 6));
}

#[test]
fn xrpl_token_decimals() {
    assert_eq!(xrpl_decimals(XRP_ISSUER, XRP_CURRENCY), 6);
    assert_eq!(xrpl_decimals("rLUEXYuLiQptky37CqLcm9USQpPiz5rkpD", "USD"), 15);
}
