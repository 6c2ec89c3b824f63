//! Amount arithmetic of the bridge: powers of ten, truncation to a token's
//! sending precision, conversion between decimal scales, bridging fees and
//! the XRPL amount format.
use vstd::prelude::*;
use crate::error::{ContractError, OverflowError, OverflowOperation};

verus! {

/// Maximum number of significant decimal digits of an amount sent to XRPL,
/// once trailing zeroes are trimmed.
pub const XRPL_MAX_TRUNCATED_AMOUNT_LENGTH: usize = 16;

/// `10^n`.
pub open spec fn pow10(n: nat) -> nat
    decreases n,
{
    if n == 0 {
        1
    } else {
        10 * pow10((n - 1) as nat)
    }
}

pub proof fn lemma_pow10_positive(n: nat)
    ensures
        pow10(n) >= 1,
    decreases n,
{
    if n > 0 {
        lemma_pow10_positive((n - 1) as nat);
    }
}

pub proof fn lemma_pow10_monotone(a: nat, b: nat)
    requires
        a <= b,
    ensures
        pow10(a) <= pow10(b),
    decreases b - a,
{
    if a < b {
        lemma_pow10_monotone(a, (b - 1) as nat);
        lemma_pow10_positive((b - 1) as nat);
    }
}

/// Computes `10^e`; the power must fit in 128 bits.
pub fn pow10_u128(e: u32) -> (r: u128)
    requires
        pow10(e as nat) <= u128::MAX,
    ensures
        r == pow10(e as nat),
{
    let mut r: u128 = 1;
    let mut i: u32 = 0;
    while i < e
        invariant
            i <= e,
            r == pow10(i as nat),
            pow10(e as nat) <= u128::MAX,
        decreases e - i,
    {
        proof {
            lemma_pow10_monotone((i + 1) as nat, e as nat);
        }
        r = r * 10;
        i = i + 1;
    }
    r
}

/// Number of decimal places removed when truncating an amount of a token with
/// `decimals` decimals to `sending_precision`: `|decimals - sending_precision|`,
/// with `decimals` read as an `i32`.
pub open spec fn truncation_exponent(sending_precision: i32, decimals: u32) -> nat {
    let e = (decimals as i32) as int - sending_precision as int;
    if e >= 0 {
        e as nat
    } else {
        (-e) as nat
    }
}

/// The truncation is computable: the exponent is an `i32` and its power of
/// ten fits in 128 bits.
pub open spec fn truncation_defined(sending_precision: i32, decimals: u32) -> bool {
    &&& i32::MIN <= (decimals as i32) as int - sending_precision as int <= i32::MAX
    &&& pow10(truncation_exponent(sending_precision, decimals)) <= u128::MAX
}

/// Truncation of `amount` to a multiple of `10^e`: the truncated amount and
/// the remainder, or an error when nothing is left.
pub open spec fn truncate_result(sending_precision: i32, decimals: u32, amount: u128) -> Result<
    (u128, u128),
    ContractError,
> {
    let p = pow10(truncation_exponent(sending_precision, decimals));
    let q = amount as nat / p;
    if q == 0 {
        Err(ContractError::AmountSentIsZeroAfterTruncation {  })
    } else {
        Ok(((q * p) as u128, (amount - q * p) as u128))
    }
}

/// Truncates `amount` so that it is not sent with more precision than
/// `sending_precision` allows. Returns the truncated amount and the remainder.
pub fn truncate_amount(sending_precision: i32, decimals: u32, amount: u128) -> (res: Result<
    (u128, u128),
    ContractError,
>)
    requires
        truncation_defined(sending_precision, decimals),
    ensures
        res == truncate_result(sending_precision, decimals, amount),
        res is Ok <==> amount >= pow10(truncation_exponent(sending_precision, decimals)),
        res matches Ok((t, r)) ==> {
            let p = pow10(truncation_exponent(sending_precision, decimals));
            &&& t + r == amount
            &&& (t as nat) % p == 0
            &&& r < p
            &&& t >= p
        },
{
    let exponent: i32 = decimals as i32 - sending_precision;
    let e: u32 = if exponent >= 0 {
        exponent as u32
    } else {
        (0i64 - exponent as i64) as u32
    };
    assert(e as nat == truncation_exponent(sending_precision, decimals));
    let p = pow10_u128(e);
    proof {
        lemma_pow10_positive(e as nat);
    }
    let q = amount / p;
    proof {
        lemma_div_facts(amount as nat, p as nat);
    }
    if q == 0 {
        return Err(ContractError::AmountSentIsZeroAfterTruncation {  });
    }
    let t = q * p;
    let r = amount - t;
    Ok((t, r))
}

proof fn lemma_div_facts(x: nat, d: nat)
    requires
        d >= 1,
    ensures
        (x / d) * d <= x,
        x - (x / d) * d < d,
        ((x / d) * d) % d == 0,
        x / d == 0 <==> x < d,
        x / d > 0 ==> (x / d) * d >= d,
{
    assert(x == d * (x / d) + x % d) by (nonlinear_arith)
        requires
            d >= 1,
    ;
    assert(0 <= x % d < d) by (nonlinear_arith)
        requires
            d >= 1,
    ;
    assert((x / d) * d == d * (x / d)) by (nonlinear_arith);
    assert(((x / d) * d) % d == 0) by (nonlinear_arith)
        requires
            d >= 1,
    ;
    assert(x / d > 0 ==> (x / d) * d >= d) by (nonlinear_arith)
        requires
            d >= 1,
    ;
    assert(x < d ==> x / d == 0) by (nonlinear_arith)
        requires
            d >= 1,
    ;
}

/// The conversion between `from_decimals` and `to_decimals` is computable:
/// the power of ten of the difference fits in 128 bits.
pub open spec fn conversion_defined(from_decimals: u32, to_decimals: u32) -> bool {
    if from_decimals <= to_decimals {
        pow10((to_decimals - from_decimals) as nat) <= u128::MAX
    } else {
        pow10((from_decimals - to_decimals) as nat) <= u128::MAX
    }
}

/// `amount` rescaled from `from_decimals` to `to_decimals` decimals
/// (multiplying up, dividing down with truncation), or an overflow error.
pub open spec fn convert_result(from_decimals: u32, to_decimals: u32, amount: u128) -> Result<
    u128,
    ContractError,
> {
    if from_decimals < to_decimals {
        let f = pow10((to_decimals - from_decimals) as nat);
        if amount * f <= u128::MAX {
            Ok((amount * f) as u128)
        } else {
            Err(
                ContractError::OverflowError(
                    OverflowError {
                        operation: OverflowOperation::Mul,
                        operand1: amount,
                        operand2: f as u128,
                    },
                ),
            )
        }
    } else if from_decimals > to_decimals {
        Ok((amount as nat / pow10((from_decimals - to_decimals) as nat)) as u128)
    } else {
        Ok(amount)
    }
}

/// Converts an amount with `from_decimals` decimals into the same value with
/// `to_decimals` decimals.
pub fn convert_amount_decimals(from_decimals: u32, to_decimals: u32, amount: u128) -> (res: Result<
    u128,
    ContractError,
>)
    requires
        conversion_defined(from_decimals, to_decimals),
    ensures
        res == convert_result(from_decimals, to_decimals, amount),
{
    if from_decimals < to_decimals {
        let f = pow10_u128(to_decimals - from_decimals);
        match amount.checked_mul(f) {
            Some(v) => Ok(v),
            None => Err(
                ContractError::OverflowError(
                    OverflowError { operation: OverflowOperation::Mul, operand1: amount, operand2: f },
                ),
            ),
        }
    } else if from_decimals > to_decimals {
        let f = pow10_u128(from_decimals - to_decimals);
        proof {
            lemma_pow10_positive((from_decimals - to_decimals) as nat);
        }
        Ok(amount / f)
    } else {
        Ok(amount)
    }
}

/// What is left of `amount` once `bridging_fee` is paid.
pub open spec fn after_fees_result(amount: u128, bridging_fee: u128) -> Result<u128, ContractError> {
    if amount >= bridging_fee {
        Ok((amount - bridging_fee) as u128)
    } else {
        Err(ContractError::CannotCoverBridgingFees {  })
    }
}

/// Subtracts the bridging fee from an amount; fails when the amount cannot
/// cover it.
pub fn amount_after_bridge_fees(amount: u128, bridging_fee: u128) -> (res: Result<
    u128,
    ContractError,
>)
    ensures
        res == after_fees_result(amount, bridging_fee),
{
    match amount.checked_sub(bridging_fee) {
        Some(v) => Ok(v),
        None => Err(ContractError::CannotCoverBridgingFees {  }),
    }
}

/// Converts first, then pays the fee, then truncates (at the target scale).
pub open spec fn convert_and_truncate_result(
    sending_precision: i32,
    from_decimals: u32,
    to_decimals: u32,
    amount: u128,
    bridging_fee: u128,
) -> Result<(u128, u128), ContractError> {
    match convert_result(from_decimals, to_decimals, amount) {
        Err(e) => Err(e),
        Ok(converted) => match after_fees_result(converted, bridging_fee) {
            Err(e) => Err(e),
            Ok(after_fees) => truncate_result(sending_precision, to_decimals, after_fees),
        },
    }
}

/// Converts an amount received from XRPL to the Cosmos scale, subtracts the
/// bridging fee and truncates to the sending precision. Returns the amount to
/// send and the truncation remainder.
pub fn convert_and_truncate_amount(
    sending_precision: i32,
    from_decimals: u32,
    to_decimals: u32,
    amount: u128,
    bridging_fee: u128,
) -> (res: Result<(u128, u128), ContractError>)
    requires
        conversion_defined(from_decimals, to_decimals),
        truncation_defined(sending_precision, to_decimals),
    ensures
        res == convert_and_truncate_result(
            sending_precision,
            from_decimals,
            to_decimals,
            amount,
            bridging_fee,
        ),
{
    let converted_amount = convert_amount_decimals(from_decimals, to_decimals, amount)?;
    let amount_after_fees = amount_after_bridge_fees(converted_amount, bridging_fee)?;
    truncate_amount(sending_precision, to_decimals, amount_after_fees)
}

/// Pays the fee, then truncates (at the source scale), then converts.
pub open spec fn truncate_and_convert_result(
    sending_precision: i32,
    from_decimals: u32,
    to_decimals: u32,
    amount: u128,
    bridging_fee: u128,
) -> Result<(u128, u128), ContractError> {
    match after_fees_result(amount, bridging_fee) {
        Err(e) => Err(e),
        Ok(after_fees) => match truncate_result(sending_precision, from_decimals, after_fees) {
            Err(e) => Err(e),
            Ok((truncated, remainder)) => match convert_result(
                from_decimals,
                to_decimals,
                truncated,
            ) {
                Err(e) => Err(e),
                Ok(converted) => Ok((converted, remainder)),
            },
        },
    }
}

/// Subtracts the bridging fee from a Cosmos amount, truncates it to the
/// sending precision and converts it to the XRPL scale. Returns the converted
/// amount and the truncation remainder (at the Cosmos scale).
pub fn truncate_and_convert_amount(
    sending_precision: i32,
    from_decimals: u32,
    to_decimals: u32,
    amount: u128,
    bridging_fee: u128,
) -> (res: Result<(u128, u128), ContractError>)
    requires
        truncation_defined(sending_precision, from_decimals),
        conversion_defined(from_decimals, to_decimals),
    ensures
        res == truncate_and_convert_result(
            sending_precision,
            from_decimals,
            to_decimals,
            amount,
            bridging_fee,
        ),
{
    let amount_after_fees = amount_after_bridge_fees(amount, bridging_fee)?;
    let (truncated_amount, remainder) = truncate_amount(
        sending_precision,
        from_decimals,
        amount_after_fees,
    )?;
    let converted_amount = convert_amount_decimals(from_decimals, to_decimals, truncated_amount)?;
    Ok((converted_amount, remainder))
}

/// `n` with its trailing decimal zeroes removed (`0` stays `0`).
pub open spec fn strip_trailing_zeros(n: nat) -> nat
    decreases n,
{
    if n > 0 && n % 10 == 0 {
        strip_trailing_zeros(n / 10)
    } else {
        n
    }
}

/// Number of digits in the decimal representation of `n`.
pub open spec fn decimal_len(n: nat) -> nat
    decreases n,
{
    if n < 10 {
        1
    } else {
        1 + decimal_len(n / 10)
    }
}

/// Length of the decimal representation of `n` once its trailing `0`
/// characters are trimmed (so `0` trims to the empty string).
pub open spec fn trimmed_decimal_len(n: nat) -> nat {
    if n == 0 {
        0
    } else {
        decimal_len(strip_trailing_zeros(n))
    }
}

/// An amount XRPL can represent: at most 16 digits after trimming trailing
/// zeroes.
pub open spec fn is_valid_xrpl_amount(amount: u128) -> bool {
    trimmed_decimal_len(amount as nat) <= XRPL_MAX_TRUNCATED_AMOUNT_LENGTH
}

/// Checks that an amount sent to XRPL has no more than 16 significant digits.
pub fn validate_xrpl_amount(amount: u128) -> (res: Result<(), ContractError>)
    ensures
        res is Ok <==> is_valid_xrpl_amount(amount),
        res matches Err(e) ==> e == (ContractError::InvalidXRPLAmount {  }),
{
    if amount == 0 {
        return Ok(());
    }
    let mut n = amount;
    while n % 10 == 0
        invariant
            n > 0,
            strip_trailing_zeros(n as nat) == strip_trailing_zeros(amount as nat),
        decreases n,
    {
        n = n / 10;
    }
    assert(strip_trailing_zeros(n as nat) == n);
    let mut len: usize = 1;
    let mut m = n;
    while m >= 10
        invariant
            1 <= len <= XRPL_MAX_TRUNCATED_AMOUNT_LENGTH,
            len + decimal_len(m as nat) == decimal_len(n as nat) + 1,
            amount > 0,
            strip_trailing_zeros(amount as nat) == n as nat,
        decreases m,
    {
        if len >= XRPL_MAX_TRUNCATED_AMOUNT_LENGTH {
            assert(decimal_len((m / 10) as nat) >= 1);
            assert(decimal_len(m as nat) >= 2);
            return Err(ContractError::InvalidXRPLAmount {  });
        }
        m = m / 10;
        len = len + 1;
    }
    Ok(())
}

/// Truncating an already truncated amount changes nothing and leaves no
/// remainder.
pub proof fn lemma_truncate_idempotent(sending_precision: i32, decimals: u32, amount: u128)
    requires
        truncate_result(sending_precision, decimals, amount) is Ok,
    ensures
        ({
            let t = truncate_result(sending_precision, decimals, amount)->Ok_0.0;
            truncate_result(sending_precision, decimals, t) == Ok::<(u128, u128), ContractError>(
                (t, 0u128),
            )
        }),
{
    let p = pow10(truncation_exponent(sending_precision, decimals));
    lemma_pow10_positive(truncation_exponent(sending_precision, decimals));
    let q = amount as nat / p;
    let t = q * p;
    assert((q * p) / p == q) by (nonlinear_arith)
        requires
            p >= 1,
    ;
    lemma_div_facts(amount as nat, p);
}

/// Scaling an amount up and back down gives the amount back.
pub proof fn lemma_convert_roundtrip(from_decimals: u32, to_decimals: u32, amount: u128)
    requires
        from_decimals <= to_decimals,
        convert_result(from_decimals, to_decimals, amount) is Ok,
    ensures
        convert_result(
            to_decimals,
            from_decimals,
            convert_result(from_decimals, to_decimals, amount)->Ok_0,
        ) == Ok::<u128, ContractError>(amount),
{
    if from_decimals < to_decimals {
        let f = pow10((to_decimals - from_decimals) as nat);
        lemma_pow10_positive((to_decimals - from_decimals) as nat);
        assert((amount as nat * f) / f == amount as nat) by (nonlinear_arith)
            requires
                f >= 1,
        ;
    }
}

proof fn lemma_strip_times_ten(a: nat)
    requires
        a > 0,
    ensures
        strip_trailing_zeros(a * 10) == strip_trailing_zeros(a),
{
    assert((a * 10) % 10 == 0 && (a * 10) / 10 == a) by (nonlinear_arith);
}

/// Appending a zero digit does not change whether XRPL can represent an amount.
pub proof fn lemma_xrpl_amount_scale_invariant(amount: u128)
    requires
        amount * 10 <= u128::MAX,
    ensures
        is_valid_xrpl_amount(amount) <==> is_valid_xrpl_amount((amount * 10) as u128),
{
    if amount > 0 {
        lemma_strip_times_ten(amount as nat);
    }
}

/// Truncation never makes a smaller amount larger: truncating `x <= y` gives
/// a truncated `x` no larger than the truncated `y`.
pub proof fn lemma_truncate_monotone(sending_precision: i32, decimals: u32, x: u128, y: u128)
    requires
        x <= y,
        truncate_result(sending_precision, decimals, x) is Ok,
    ensures
        truncate_result(sending_precision, decimals, y) is Ok,
        truncate_result(sending_precision, decimals, x)->Ok_0.0 <= truncate_result(
            sending_precision,
            decimals,
            y,
        )->Ok_0.0,
{
    let p = pow10(truncation_exponent(sending_precision, decimals));
    lemma_pow10_positive(truncation_exponent(sending_precision, decimals));
    assert((x as nat / p) <= (y as nat / p)) by (nonlinear_arith)
        requires
            x <= y,
            p >= 1,
    ;
    assert((x as nat / p) * p <= (y as nat / p) * p) by (nonlinear_arith)
        requires
            (x as nat / p) <= (y as nat / p),
            p >= 1,
    ;
    lemma_div_facts(x as nat, p);
    lemma_div_facts(y as nat, p);
}

pub proof fn lemma_pow10_add(a: nat, b: nat)
    ensures
        pow10(a + b) == pow10(a) * pow10(b),
    decreases a,
{
    if a > 0 {
        let a1 = (a - 1) as nat;
        lemma_pow10_add(a1, b);
        assert(pow10(a) == 10 * pow10(a1));
        assert((a + b) as nat - 1 == a1 + b);
        assert(pow10(a + b) == 10 * pow10(a1 + b));
        assert(10 * (pow10(a1) * pow10(b)) == (10 * pow10(a1)) * pow10(b)) by (nonlinear_arith);
    } else {
        assert(pow10(a) == 1);
        assert(a + b == b);
    }
}

/// A successful truncation splits the amount into a positive multiple of
/// `10^e` and a remainder below `10^e`.
pub proof fn lemma_truncate_splits(sending_precision: i32, decimals: u32, amount: u128)
    requires
        truncate_result(sending_precision, decimals, amount) is Ok,
    ensures
        ({
            let p = pow10(truncation_exponent(sending_precision, decimals));
            let (t, r) = truncate_result(sending_precision, decimals, amount)->Ok_0;
            &&& t + r == amount
            &&& (t as nat) % p == 0
            &&& r < p
            &&& t >= p
            &&& t == (amount as nat / p) * p
        }),
{
    let p = pow10(truncation_exponent(sending_precision, decimals));
    lemma_pow10_positive(truncation_exponent(sending_precision, decimals));
    lemma_div_facts(amount as nat, p);
}

} // verus!
