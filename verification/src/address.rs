//! XRPL classic addresses: format and checksum validation, and the addresses
//! the bridge refuses to send to.
use vstd::prelude::*;
use vstd::string::*;
use vstd::utf8::{encode_utf8, is_ascii_chars, is_ascii_chars_encode_utf8};
use crate::error::ContractError;
use crate::hash::{sha256, sha256_digest};

verus! {

/// Addresses that are prohibited as recipients from the start.
pub const INITIAL_PROHIBITED_XRPL_ADDRESSES: [&'static str; 5] = [
    "rrrrrrrrrrrrrrrrrrrrrhoLvTp",
    "rrrrrrrrrrrrrrrrrrrrBZbvji",
    "rHb9CJAWyB4rj91VRWn96DkukG4bwdtyTh",
    "rrrrrrrrrrrrrrrrrNAMEtxvNvQ",
    "rrrrrrrrrrrrrrrrrrrn5RM1rHd",
];

/// Shortest and longest XRPL classic address, in characters.
pub const MIN_XRPL_ADDRESS_LENGTH: usize = 25;

pub const MAX_XRPL_ADDRESS_LENGTH: usize = 35;

/// Bytes of a decoded classic address: version byte, 20 byte account id and
/// 4 byte checksum.
pub const DECODED_XRPL_ADDRESS_LENGTH: usize = 25;

pub const XRPL_ADDRESS_PAYLOAD_LENGTH: usize = 21;

/// Ripple's base58 alphabet: the character at position `k` is digit `k`.
pub const RIPPLE_ALPHABET: &'static str = "rpshnaf39wBUDNEGHJKLM4PQRST7VWXYZ2bcdeCg65jkm8oFqi1tuvAxyz";

/// The base58 digit of the byte `b`, or `-1` when `b` is not in the alphabet.
pub open spec fn ripple_digit(b: u8) -> int {
    if exists|k: int| 0 <= k < 58 && #[trigger] RIPPLE_ALPHABET@[k] as u8 == b {
        choose|k: int| 0 <= k < 58 && #[trigger] RIPPLE_ALPHABET@[k] as u8 == b
    } else {
        -1
    }
}

/// Every byte of `input` is a digit of the alphabet.
pub open spec fn is_ripple_base58(input: Seq<u8>) -> bool {
    forall|i: int| 0 <= i < input.len() ==> ripple_digit(#[trigger] input[i]) >= 0
}

/// The number written by the base58 digits of `input`, most significant first.
pub open spec fn base58_value(input: Seq<u8>) -> nat
    decreases input.len(),
{
    if input.len() == 0 {
        0
    } else {
        base58_value(input.drop_last()) * 58 + ripple_digit(input.last()) as nat
    }
}

/// Number of leading zero digits (`r`) of `input`.
pub open spec fn leading_zero_digits(input: Seq<u8>) -> nat
    decreases input.len(),
{
    if input.len() > 0 && input[0] == 0x72u8 {
        1 + leading_zero_digits(input.drop_first())
    } else {
        0
    }
}

/// The shortest big-endian bytes of `v` (none for zero).
pub open spec fn big_endian_bytes(v: nat) -> Seq<u8>
    decreases v,
{
    if v == 0 {
        seq![]
    } else {
        big_endian_bytes(v / 256).push((v % 256) as u8)
    }
}

/// Base58 decoding with Ripple's alphabet: one zero byte per leading zero
/// digit followed by the big-endian bytes of the number the text writes, or
/// `None` when a byte of the text is not a digit.
pub open spec fn ripple_base58_decode(input: Seq<u8>) -> Option<Seq<u8>> {
    if is_ripple_base58(input) {
        Some(
            Seq::new(leading_zero_digits(input), |i: int| 0u8) + big_endian_bytes(
                base58_value(input),
            ),
        )
    } else {
        None
    }
}


/// Base58 decoding with Ripple's alphabet, from the `bs58` crate
/// (`bs58::decode(..).with_alphabet(bs58::Alphabet::RIPPLE).into_vec()`).
/// Claims that it fails exactly on a byte outside the alphabet and otherwise
/// gives the bytes `ripple_base58_decode` describes.
#[verifier::external_body]
fn decode_ripple_base58(input: &[u8]) -> (res: Option<Vec<u8>>)
    ensures
        res is Some <==> ripple_base58_decode(input@) is Some,
        res matches Some(v) ==> ripple_base58_decode(input@) == Some(v@),
{
    bs58::decode(input).with_alphabet(bs58::Alphabet::RIPPLE).into_vec().ok()
}

/// The checksum of a decoded address: the first four bytes of the double
/// SHA-256 of the version byte and account id.
pub open spec fn xrpl_address_checksum(decoded: Seq<u8>) -> Seq<u8> {
    sha256_digest(sha256_digest(decoded.subrange(0, 21))).subrange(0, 4)
}

/// A well-formed XRPL classic address: 25 to 35 bytes starting with `r`,
/// base58 text for 25 bytes made of a zero version byte, an account id and the
/// checksum of the two.
pub open spec fn is_valid_xrpl_address(address: Seq<char>) -> bool {
    let bytes = encode_utf8(address);
    &&& MIN_XRPL_ADDRESS_LENGTH <= bytes.len() <= MAX_XRPL_ADDRESS_LENGTH
    &&& address.len() > 0
    &&& address[0] == 'r'
    &&& ripple_base58_decode(bytes) is Some
    &&& ripple_base58_decode(bytes)->Some_0.len() == DECODED_XRPL_ADDRESS_LENGTH
    &&& ripple_base58_decode(bytes)->Some_0[0] == 0
    &&& ripple_base58_decode(bytes)->Some_0.subrange(21, 25) == xrpl_address_checksum(
        ripple_base58_decode(bytes)->Some_0,
    )
}

fn invalid_address(address: &str) -> (e: ContractError)
    ensures
        e matches ContractError::InvalidXRPLAddress { address: a } && a@ == address@,
{
    ContractError::InvalidXRPLAddress { address: address.to_owned() }
}

/// Checks that `address` is a well-formed XRPL classic address with a correct
/// checksum.
#[verifier::loop_isolation(false)]
pub fn validate_xrpl_address_format(address: &str) -> (res: Result<(), ContractError>)
    ensures
        res is Ok <==> is_valid_xrpl_address(address@),
        res matches Err(e) ==> (e matches ContractError::InvalidXRPLAddress { address: a }
            && a@ == address@),
{
    let bytes = address.as_bytes();
    assert(bytes@ == encode_utf8(address@));
    let n = bytes.len();
    if n < MIN_XRPL_ADDRESS_LENGTH || n > MAX_XRPL_ADDRESS_LENGTH {
        return Err(invalid_address(address));
    }
    if address.unicode_len() == 0 {
        return Err(invalid_address(address));
    }
    if address.get_char(0) != 'r' {
        return Err(invalid_address(address));
    }
    let decoded = match decode_ripple_base58(bytes) {
        Some(d) => d,
        None => {
            return Err(invalid_address(address));
        },
    };
    if decoded.len() != DECODED_XRPL_ADDRESS_LENGTH || decoded[0] != 0 {
        return Err(invalid_address(address));
    }
    let mut payload: Vec<u8> = Vec::new();
    let mut i: usize = 0;
    while i < XRPL_ADDRESS_PAYLOAD_LENGTH
        invariant
            i <= 21,
            decoded@.len() == 25,
            payload@ == decoded@.subrange(0, i as int),
        decreases 21 - i,
    {
        payload.push(decoded[i]);
        i = i + 1;
    }
    let first = sha256(payload.as_slice());
    let second = sha256(first.as_slice());
    assert(second@.subrange(0, 4) == xrpl_address_checksum(decoded@));
    let mut k: usize = 0;
    while k < 4
        invariant
            k <= 4,
            decoded@.len() == 25,
            second@.len() == 32,
            forall|j: int| 0 <= j < k ==> decoded@[21 + j] == second@[j],
        decreases 4 - k,
    {
        if decoded[21 + k] != second[k] {
            assert(decoded@.subrange(21, 25)[k as int] != second@.subrange(0, 4)[k as int]);
            return Err(invalid_address(address));
        }
        k = k + 1;
    }
    assert(decoded@.subrange(21, 25) =~= second@.subrange(0, 4));
    Ok(())
}

/// A recipient the bridge may send to: a well-formed address that is not
/// prohibited.
#[verifier::loop_isolation(false)]
pub fn validate_xrpl_address(prohibited_xrpl_addresses: &Vec<String>, address: &String) -> (res:
    Result<(), ContractError>)
    ensures
        res is Ok <==> is_valid_xrpl_address(address@) && !prohibited_xrpl_addresses@.map_values(
            |s: String| s@,
        ).contains(address@),
        res matches Err(e) ==> (is_valid_xrpl_address(address@) ==> e
            == (ContractError::ProhibitedAddress {  })),
        res matches Err(e) ==> (!is_valid_xrpl_address(address@) ==> (
        e matches ContractError::InvalidXRPLAddress { address: a } && a@ == address@)),
{
    match validate_xrpl_address_format(address.as_str()) {
        Ok(()) => {},
        Err(e) => {
            return Err(e);
        },
    }
    assert(is_valid_xrpl_address(address@));
    let ghost views = prohibited_xrpl_addresses@.map_values(|s: String| s@);
    let mut i: usize = 0;
    while i < prohibited_xrpl_addresses.len()
        invariant
            i <= prohibited_xrpl_addresses@.len(),
            views == prohibited_xrpl_addresses@.map_values(|s: String| s@),
            forall|j: int| 0 <= j < i ==> views[j] != address@,
        decreases prohibited_xrpl_addresses@.len() - i,
    {
        if prohibited_xrpl_addresses[i] == *address {
            assert(views[i as int] == address@);
            return Err(ContractError::ProhibitedAddress {  });
        }
        i = i + 1;
    }
    assert(!views.contains(address@));
    Ok(())
}

/// `0`, `O`, `I` and `l` are not base58 digits.
pub proof fn lemma_excluded_characters_are_not_digits()
    ensures
        ripple_digit(0x30u8) < 0,
        ripple_digit(0x4fu8) < 0,
        ripple_digit(0x49u8) < 0,
        ripple_digit(0x6cu8) < 0,
{
    reveal_strlit("rpshnaf39wBUDNEGHJKLM4PQRST7VWXYZ2bcdeCg65jkm8oFqi1tuvAxyz");
    assert(RIPPLE_ALPHABET@.len() == 58);
    assert forall|k: int| 0 <= k < 58 implies {
        let c = #[trigger] RIPPLE_ALPHABET@[k] as u8;
        c != 0x30u8 && c != 0x4fu8 && c != 0x49u8 && c != 0x6cu8
    } by {
        assert(RIPPLE_ALPHABET@[k] != '0' && RIPPLE_ALPHABET@[k] != 'O' && RIPPLE_ALPHABET@[k]
            != 'I' && RIPPLE_ALPHABET@[k] != 'l');
    }
}

/// An ASCII text with a character that is not a base58 digit (such as `0`,
/// `O`, `I` or `l`) is never a valid XRPL address.
pub proof fn lemma_non_digit_address_is_invalid(address: Seq<char>, i: int)
    requires
        is_ascii_chars(address),
        0 <= i < address.len(),
        ripple_digit(address[i] as u8) < 0,
    ensures
        !is_valid_xrpl_address(address),
{
    is_ascii_chars_encode_utf8(address);
    assert(encode_utf8(address)[i] == address[i] as u8);
}

} // verus!
