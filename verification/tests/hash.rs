use cw_xrpl::hash::{push_decimal, push_hex_lower};

#[test]
fn decimal_text() {
    let mut out = b"t=".to_vec();
    push_decimal(&mut out, 1_700_000_000);
    assert_eq!(out, b"t=1700000000".to_vec());
    let mut zero = Vec::new();
    push_decimal(&mut zero, 0);
    assert_eq!(zero, b"0".to_vec());
    let mut max = Vec::new();
    push_decimal(&mut max, u64::MAX);
    assert_eq!(max, u64::MAX.to_string().into_bytes());
}

#[test]
fn hexadecimal_text() {
    let mut out = Vec::new();
    push_hex_lower(&mut out, &[0x00, 0xab, 0x3f, 0xff], 3);
    assert_eq!(out, b"00ab3f".to_vec());
}
