//! XRPL currency codes: validation of standard and hexadecimal codes, and the
//! hexadecimal code derived for Cosmos originated tokens.
use vstd::prelude::*;
use vstd::string::*;
use vstd::utf8::encode_utf8;
use crate::error::ContractError;

verus! {

/// Length of a hexadecimal (non-standard) XRPL currency code.
pub const XRPL_HEX_CURRENCY_LENGTH: usize = 40;

pub open spec fn is_ascii_digit(c: char) -> bool {
    '0' <= c <= '9'
}

pub open spec fn is_ascii_alphabetic(c: char) -> bool {
    ('a' <= c <= 'z') || ('A' <= c <= 'Z')
}

pub open spec fn is_ascii_alphanumeric(c: char) -> bool {
    is_ascii_digit(c) || is_ascii_alphabetic(c)
}

/// The symbols allowed in a standard currency code besides letters and digits.
pub open spec fn is_allowed_currency_symbol(c: char) -> bool {
    c == '?' || c == '!' || c == '@' || c == '#' || c == '$' || c == '%' || c == '^' || c == '&'
        || c == '*' || c == '<' || c == '>' || c == '(' || c == ')' || c == '{' || c == '}'
        || c == '[' || c == ']' || c == '|'
}

pub open spec fn is_upper_hex_digit(c: char) -> bool {
    is_ascii_digit(c) || ('A' <= c <= 'F')
}

/// A standard code: three letters, digits or allowed symbols, other than
/// `XRP`.
pub open spec fn is_standard_currency(s: Seq<char>) -> bool {
    &&& s.len() == 3
    &&& s != seq!['X', 'R', 'P']
    &&& forall|i: int|
        0 <= i < 3 ==> is_ascii_alphanumeric(#[trigger] s[i]) || is_allowed_currency_symbol(s[i])
}

/// A hexadecimal code: forty uppercase hexadecimal digits whose first byte is
/// not zero.
pub open spec fn is_hex_currency(s: Seq<char>) -> bool {
    &&& s.len() == 40
    &&& !(s[0] == '0' && s[1] == '0')
    &&& forall|i: int| 0 <= i < 40 ==> is_upper_hex_digit(#[trigger] s[i])
}

pub open spec fn is_valid_xrpl_currency(s: Seq<char>) -> bool {
    is_standard_currency(s) || is_hex_currency(s)
}

fn is_standard_currency_char(c: char) -> (r: bool)
    ensures
        r == (is_ascii_alphanumeric(c) || is_allowed_currency_symbol(c)),
{
    ('0' <= c && c <= '9') || ('a' <= c && c <= 'z') || ('A' <= c && c <= 'Z') || c == '?' || c
        == '!' || c == '@' || c == '#' || c == '$' || c == '%' || c == '^' || c == '&' || c == '*'
        || c == '<' || c == '>' || c == '(' || c == ')' || c == '{' || c == '}' || c == '['
        || c == ']' || c == '|'
}

/// Checks that `currency` is a valid XRPL currency code: a standard three
/// character code other than `XRP`, or a forty digit uppercase hexadecimal
/// code that does not start with a zero byte.
pub fn validate_xrpl_currency(currency: &str) -> (res: Result<(), ContractError>)
    ensures
        res is Ok <==> is_valid_xrpl_currency(currency@),
        res matches Err(e) ==> e == (ContractError::InvalidXRPLCurrency {  }),
{
    let n = currency.unicode_len();
    if n == 3 {
        let c0 = currency.get_char(0);
        let c1 = currency.get_char(1);
        let c2 = currency.get_char(2);
        if c0 == 'X' && c1 == 'R' && c2 == 'P' {
            assert(currency@ =~= seq!['X', 'R', 'P']);
            return Err(ContractError::InvalidXRPLCurrency {  });
        }
        assert(currency@ != seq!['X', 'R', 'P']) by {
            if currency@ == seq!['X', 'R', 'P'] {
                assert(currency@[0] == 'X' && currency@[1] == 'R' && currency@[2] == 'P');
            }
        }
        let mut i: usize = 0;
        while i < 3
            invariant
                i <= 3,
                currency@.len() == 3,
                forall|j: int|
                    0 <= j < i ==> is_ascii_alphanumeric(#[trigger] currency@[j])
                        || is_allowed_currency_symbol(currency@[j]),
            decreases 3 - i,
        {
            let c = currency.get_char(i);
            if !is_standard_currency_char(c) {
                return Err(ContractError::InvalidXRPLCurrency {  });
            }
            i = i + 1;
        }
        Ok(())
    } else if n == XRPL_HEX_CURRENCY_LENGTH {
        let c0 = currency.get_char(0);
        let c1 = currency.get_char(1);
        if c0 == '0' && c1 == '0' {
            return Err(ContractError::InvalidXRPLCurrency {  });
        }
        let mut i: usize = 0;
        while i < XRPL_HEX_CURRENCY_LENGTH
            invariant
                i <= 40,
                currency@.len() == 40,
                forall|j: int| 0 <= j < i ==> is_upper_hex_digit(#[trigger] currency@[j]),
            decreases 40 - i,
        {
            let c = currency.get_char(i);
            if !(('0' <= c && c <= '9') || ('A' <= c && c <= 'F')) {
                return Err(ContractError::InvalidXRPLCurrency {  });
            }
            i = i + 1;
        }
        Ok(())
    } else {
        Err(ContractError::InvalidXRPLCurrency {  })
    }
}

/// Uppercase hexadecimal digit of `d` (`d < 16`).
pub open spec fn hex_digit_upper(d: int) -> char {
    if d < 10 {
        (48 + d) as char
    } else {
        (55 + d) as char
    }
}

/// Uppercase hexadecimal text of `bytes`, two digits per byte, high nibble
/// first.
pub open spec fn hex_upper(bytes: Seq<u8>) -> Seq<char> {
    Seq::new(
        2 * bytes.len(),
        |i: int|
            if i % 2 == 0 {
                hex_digit_upper(bytes[i / 2] as int / 16)
            } else {
                hex_digit_upper(bytes[i / 2] as int % 16)
            },
    )
}

/// Hexadecimal XRPL code of `bytes`: their uppercase hexadecimal text,
/// right-padded with `0` to forty characters.
pub open spec fn xrpl_hex_currency(bytes: Seq<u8>) -> Seq<char> {
    let h = hex_upper(bytes);
    if h.len() < 40 {
        h + Seq::new((40 - h.len()) as nat, |i: int| '0')
    } else {
        h
    }
}

/// Builds a `String` out of ASCII bytes (std's `String::from_utf8`).
/// Claims that ASCII bytes are accepted and give one character per byte.
#[verifier::external_body]
pub(crate) fn string_from_ascii(bytes: Vec<u8>) -> (s: String)
    requires
        forall|i: int| 0 <= i < bytes@.len() ==> bytes@[i] < 128,
    ensures
        s@ == Seq::new(bytes@.len(), |i: int| bytes@[i] as char),
{
    match String::from_utf8(bytes) {
        Ok(s) => s,
        Err(_) => String::new(),
    }
}

fn hex_digit_ascii(d: u8) -> (b: u8)
    requires
        d < 16,
    ensures
        b < 128,
        b as char == hex_digit_upper(d as int),
{
    if d < 10 {
        48 + d
    } else {
        55 + d
    }
}

/// The XRPL representation of a currency name: the uppercase hexadecimal
/// text of its UTF-8 bytes, right-padded with zeroes to forty characters.
pub fn convert_currency_to_xrpl_hexadecimal(currency: String) -> (res: String)
    requires
        encode_utf8(currency@).len() <= usize::MAX / 2,
    ensures
        res@ == xrpl_hex_currency(encode_utf8(currency@)),
{
    let bytes = currency.as_str().as_bytes();
    let ghost src = encode_utf8(currency@);
    assert(bytes@ == src);
    let n = bytes.len();
    let mut out: Vec<u8> = Vec::new();
    let mut i: usize = 0;
    while i < n
        invariant
            n == bytes@.len(),
            bytes@ == src,
            src.len() <= usize::MAX / 2,
            i <= n,
            out@.len() == 2 * i,
            forall|j: int| 0 <= j < out@.len() ==> out@[j] < 128,
            forall|j: int| 0 <= j < out@.len() ==> (#[trigger] out@[j]) as char == hex_upper(src)[j],
        decreases n - i,
    {
        let b = bytes[i];
        out.push(hex_digit_ascii(b / 16));
        out.push(hex_digit_ascii(b % 16));
        proof {
            assert(forall|j: int|
                0 <= j < out@.len() ==> (#[trigger] out@[j]) as char == hex_upper(src)[j]) by {
                assert forall|j: int| 0 <= j < out@.len() implies (#[trigger] out@[j]) as char
                    == hex_upper(src)[j] by {
                    if j >= 2 * i {
                        assert(j / 2 == i as int);
                    }
                }
            }
        }
        i = i + 1;
    }
    while out.len() < XRPL_HEX_CURRENCY_LENGTH
        invariant
            2 * n <= out@.len() <= 40 || out@.len() == 2 * n,
            out@.len() >= 2 * n,
            n == src.len(),
            forall|j: int| 0 <= j < out@.len() ==> out@[j] < 128,
            forall|j: int| 0 <= j < 2 * n ==> (#[trigger] out@[j]) as char == hex_upper(src)[j],
            forall|j: int| 2 * n <= j < out@.len() ==> (#[trigger] out@[j]) as char == '0',
        decreases 40 - out@.len(),
    {
        out.push(48u8);
    }
    let res = string_from_ascii(out);
    assert(res@ =~= xrpl_hex_currency(src));
    res
}

/// The hexadecimal code derived from a non-empty name of at most twenty bytes
/// whose first byte is not zero is always a valid XRPL currency code.
pub proof fn lemma_hex_currency_is_valid(bytes: Seq<u8>)
    requires
        1 <= bytes.len() <= 20,
        bytes[0] != 0,
    ensures
        is_valid_xrpl_currency(xrpl_hex_currency(bytes)),
{
    let s = xrpl_hex_currency(bytes);
    let h = hex_upper(bytes);
    assert(s.len() == 40);
    assert forall|i: int| 0 <= i < 40 implies is_upper_hex_digit(#[trigger] s[i]) by {
        if i < h.len() {
            let b = bytes[i / 2];
            assert(b / 16 < 16 && b % 16 < 16);
        }
    }
    assert(!(s[0] == '0' && s[1] == '0')) by {
        let b = bytes[0];
        assert(s[0] == hex_digit_upper(b as int / 16));
        assert(s[1] == hex_digit_upper(b as int % 16));
        if b / 16 == 0 && b % 16 == 0 {
            assert(b == 16 * (b / 16) + b % 16);
        }
    }
    assert(is_hex_currency(s));
}

} // verus!
