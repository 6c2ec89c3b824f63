use cw_xrpl::currency::{convert_currency_to_xrpl_hexadecimal, validate_xrpl_currency};
use cw_xrpl::error::ContractError;

#[test]
fn standard_currencies() {
    validate_xrpl_currency("USD").unwrap();
    validate_xrpl_currency("US$").unwrap();
    validate_xrpl_currency("a1|").unwrap();
    validate_xrpl_currency("xrp").unwrap();
    assert_eq!(
        validate_xrpl_currency("XRP"),
        Err(ContractError::InvalidXRPLCurrency {})
    );
    validate_xrpl_currency("U D").unwrap_err();
    validate_xrpl_currency("USDT").unwrap_err();
    validate_xrpl_currency("US").unwrap_err();
    validate_xrpl_currency("Ué").unwrap_err();
    validate_xrpl_currency("").unwrap_err();
}

#[test]
fn hexadecimal_currencies() {
    validate_xrpl_currency("0158415500000000C1F76FF6ECB0BAC600000000").unwrap();
    validate_xrpl_currency("534F4C4F00000000000000000000000000000000").unwrap();
    // The first byte cannot be zero.
    validate_xrpl_currency("0058415500000000C1F76FF6ECB0BAC600000000").unwrap_err();
    // Lowercase hexadecimal is refused.
    validate_xrpl_currency("0158415500000000c1f76ff6ecb0bac600000000").unwrap_err();
    // Not hexadecimal.
    validate_xrpl_currency("0158415500000000G1F76FF6ECB0BAC600000000").unwrap_err();
    // Wrong length.
    validate_xrpl_currency("0158415500000000C1F76FF6ECB0BAC60000000").unwrap_err();
}

#[test]
fn hexadecimal_conversion() {
    let converted = convert_currency_to_xrpl_hexadecimal("cosmos1234567890".to_string());
    assert_eq!(converted, "636F736D6F733132333435363738393000000000");
    validate_xrpl_currency(&converted).unwrap();

    assert_eq!(
        convert_currency_to_xrpl_hexadecimal("a".to_string()),
        "6100000000000000000000000000000000000000"
    );
    // Names longer than twenty bytes are not cut.
    assert_eq!(
        convert_currency_to_xrpl_hexadecimal("abcdefghijklmnopqrstu".to_string()),
        "6162636465666768696A6B6C6D6E6F707172737475"
    );
    // Non-ASCII text is encoded by its UTF-8 bytes.
    assert_eq!(
        convert_currency_to_xrpl_hexadecimal("é".to_string()),
        "C3A9000000000000000000000000000000000000"
    );
}
