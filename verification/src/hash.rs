//! SHA-256 and the hexadecimal and decimal text the bridge derives names from.
use vstd::prelude::*;
use sha2::Digest;
use crate::amount::pow10;

verus! {

/// The SHA-256 digest of `data`.
pub uninterp spec fn sha256_digest(data: Seq<u8>) -> Seq<u8>;

/// SHA-256 from the `sha2` crate (`Sha256::digest`). Claims that the result is
/// the function `sha256_digest` of the input and is 32 bytes long.
#[verifier::external_body]
pub(crate) fn sha256(data: &[u8]) -> (res: Vec<u8>)
    ensures
        res@ == sha256_digest(data@),
        res@.len() == 32,
{
    sha2::Sha256::digest(data).to_vec()
}

/// ASCII code of the lowercase hexadecimal digit `d` (`d < 16`).
pub open spec fn hex_lower_digit(d: int) -> u8 {
    if d < 10 {
        (48 + d) as u8
    } else {
        (87 + d) as u8
    }
}

/// Lowercase hexadecimal text (ASCII) of `bytes`, high nibble first.
pub open spec fn hex_lower(bytes: Seq<u8>) -> Seq<u8> {
    Seq::new(
        2 * bytes.len(),
        |i: int|
            if i % 2 == 0 {
                hex_lower_digit(bytes[i / 2] as int / 16)
            } else {
                hex_lower_digit(bytes[i / 2] as int % 16)
            },
    )
}

fn hex_lower_ascii(d: u8) -> (b: u8)
    requires
        d < 16,
    ensures
        b == hex_lower_digit(d as int),
{
    if d < 10 {
        48 + d
    } else {
        87 + d
    }
}

/// Appends the lowercase hexadecimal text of the first `count` bytes of
/// `bytes`.
pub fn push_hex_lower(out: &mut Vec<u8>, bytes: &[u8], count: usize)
    requires
        count <= bytes@.len(),
        old(out)@.len() + 2 * count <= usize::MAX,
    ensures
        final(out)@ == old(out)@ + hex_lower(bytes@.subrange(0, count as int)),
{
    let ghost start = out@;
    let mut i: usize = 0;
    while i < count
        invariant
            i <= count,
            count <= bytes@.len(),
            start.len() + 2 * count <= usize::MAX,
            out@ == start + hex_lower(bytes@.subrange(0, i as int)),
        decreases count - i,
    {
        let b = bytes[i];
        out.push(hex_lower_ascii(b / 16));
        out.push(hex_lower_ascii(b % 16));
        proof {
            let h = hex_lower(bytes@.subrange(0, i + 1));
            assert forall|j: int| 0 <= j < h.len() implies #[trigger] h[j] == (hex_lower(
                bytes@.subrange(0, i as int),
            ) + seq![hex_lower_digit(b as int / 16), hex_lower_digit(b as int % 16)])[j] by {
                if j < 2 * i {
                    assert(j / 2 < i);
                } else {
                    assert(j / 2 == i as int);
                }
            }
            assert(h =~= hex_lower(bytes@.subrange(0, i as int)) + seq![
                hex_lower_digit(b as int / 16),
                hex_lower_digit(b as int % 16),
            ]);
            assert(out@ =~= start + h);
        }
        i = i + 1;
    }
}

/// ASCII decimal text of `n`, as `Display` writes it.
pub open spec fn decimal_ascii(n: nat) -> Seq<u8>
    decreases n,
{
    if n < 10 {
        seq![(48 + n) as u8]
    } else {
        decimal_ascii(n / 10).push((48 + n % 10) as u8)
    }
}

proof fn lemma_decimal_ascii_len_bound(n: nat, k: nat)
    requires
        k >= 1,
        n < pow10(k),
    ensures
        1 <= decimal_ascii(n).len() <= k,
    decreases n,
{
    if n >= 10 {
        if k == 1 {
            reveal_with_fuel(pow10, 2);
            assert(pow10(1) == 10);
        } else {
            assert(pow10(k) == 10 * pow10((k - 1) as nat));
            assert(n / 10 < pow10((k - 1) as nat)) by (nonlinear_arith)
                requires
                    n < 10 * pow10((k - 1) as nat),
            ;
            lemma_decimal_ascii_len_bound(n / 10, (k - 1) as nat);
        }
    }
}

/// The decimal text of a `u64` has at most 20 digits.
pub proof fn lemma_decimal_ascii_len(n: nat)
    requires
        n <= u64::MAX,
    ensures
        1 <= decimal_ascii(n).len() <= 20,
{
    reveal_with_fuel(pow10, 21);
    assert(pow10(20) == 100_000_000_000_000_000_000nat);
    lemma_decimal_ascii_len_bound(n, 20);
}

/// Appends the decimal text of `n`.
pub fn push_decimal(out: &mut Vec<u8>, n: u64)
    requires
        old(out)@.len() + 20 <= usize::MAX,
    ensures
        final(out)@ == old(out)@ + decimal_ascii(n as nat),
    decreases n,
{
    proof {
        lemma_decimal_ascii_len(n as nat);
    }
    if n >= 10 {
        push_decimal(out, n / 10);
    }
    let ghost before = out@;
    out.push(48 + (n % 10) as u8);
    proof {
        if n >= 10 {
            assert(out@ =~= old(out)@ + decimal_ascii(n as nat));
        } else {
            assert(out@ =~= old(out)@ + decimal_ascii(n as nat));
        }
    }
}

} // verus!
