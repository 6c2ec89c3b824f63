//! Tokens the bridge knows about, and the checks on their registration
//! parameters (decimals, sending precision, Cosmos denom).
use vstd::prelude::*;
use vstd::string::*;
use crate::amount::{pow10, truncation_defined, truncation_exponent};
use crate::currency::{is_ascii_alphabetic, is_ascii_alphanumeric};
use crate::error::ContractError;
use crate::bridge::{assert_bridge_active, BridgeState};

verus! {

/// The key an XRPL token is known by, in storage and to the rate limiter:
/// its issuer followed by its currency.
pub open spec fn xrpl_token_key_of(issuer: Seq<char>, currency: Seq<char>) -> Seq<char> {
    issuer + currency
}

/// Builds the key of an XRPL token.
pub fn build_xrpl_token_key(issuer: &str, currency: &str) -> (res: String)
    ensures
        res@ == xrpl_token_key_of(issuer@, currency@),
{
    issuer.to_owned().concat(currency)
}

/// Smallest sending precision a token may be registered with.
pub const MIN_SENDING_PRECISION: i32 = -15;

/// Largest sending precision a token may be registered with.
pub const MAX_SENDING_PRECISION: i32 = 15;

/// Maximum amount of decimals a Cosmos token can be registered with.
pub const MAX_COSMOS_TOKEN_DECIMALS: u32 = 100;

/// All XRPL originated tokens except XRP have 15 decimals.
pub const XRPL_TOKENS_DECIMALS: u32 = 15;

pub const MIN_DENOM_LENGTH: usize = 3;

pub const MAX_DENOM_LENGTH: usize = 128;

pub const XRP_SYMBOL: &'static str = "XRP";

pub const XRP_SUBUNIT: &'static str = "factory";

pub const XRP_DECIMALS: u32 = 6;

pub const XRP_CURRENCY: &'static str = "XRP";

pub const XRP_ISSUER: &'static str = "rrrrrrrrrrrrrrrrrrrrrhoLvTp";

pub const XRP_DEFAULT_SENDING_PRECISION: i32 = 6;

/// `10^(16 - XRP_DEFAULT_SENDING_PRECISION + XRP_DECIMALS)`.
pub const XRP_DEFAULT_MAX_HOLDING_AMOUNT: u128 = 10_000_000_000_000_000u128;

pub const XRP_DEFAULT_FEE: u128 = 0u128;

pub const COSMOS_CURRENCY_PREFIX: &'static str = "cosmos";

pub const XRPL_DENOM_PREFIX: &'static str = "xrpl";

/// Life cycle of a bridged token.
#[derive(Debug, Clone, Copy, PartialEq, Eq, Structural)]
pub enum TokenState {
    Enabled,
    Disabled,
    Processing,
    Inactive,
}

/// A token issued on XRPL and represented on the Cosmos side by `cosmos_denom`.
#[derive(Debug)]
pub struct XRPLToken {
    pub issuer: String,
    pub currency: String,
    pub cosmos_denom: String,
    pub sending_precision: i32,
    pub max_holding_amount: u128,
    pub state: TokenState,
    pub bridging_fee: u128,
}

/// A Cosmos token represented on XRPL by `xrpl_currency`, issued by the bridge.
#[derive(Debug)]
pub struct CosmosToken {
    pub denom: String,
    pub decimals: u32,
    pub xrpl_currency: String,
    pub sending_precision: i32,
    pub max_holding_amount: u128,
    pub state: TokenState,
    pub bridging_fee: u128,
}

/// Checks that a Cosmos token does not have more than
/// `MAX_COSMOS_TOKEN_DECIMALS` decimals.
pub fn validate_cosmos_token_decimals(decimals: u32) -> (res: Result<(), ContractError>)
    ensures
        res is Ok <==> decimals <= MAX_COSMOS_TOKEN_DECIMALS,
        res matches Err(e) ==> e == (ContractError::InvalidDecimals {  }),
{
    if decimals > MAX_COSMOS_TOKEN_DECIMALS {
        return Err(ContractError::InvalidDecimals {  });
    }
    Ok(())
}

/// A sending precision in `[-15, 15]` that is neither more than the token's
/// decimals nor less than their negative (decimals read as an `i32`).
pub open spec fn is_valid_sending_precision(sending_precision: i32, decimals: u32) -> bool {
    &&& MIN_SENDING_PRECISION <= sending_precision <= MAX_SENDING_PRECISION
    &&& sending_precision <= decimals as i32
    &&& -((decimals as i32) as int) <= sending_precision
}

/// Checks that a sending precision is within the allowed range, not above
/// the token's decimals and not below their negative.
pub fn validate_sending_precision(sending_precision: i32, decimals: u32) -> (res: Result<
    (),
    ContractError,
>)
    ensures
        res is Ok <==> is_valid_sending_precision(sending_precision, decimals),
        res matches Err(e) ==> e == (ContractError::InvalidSendingPrecision {  }),
{
    if !(MIN_SENDING_PRECISION <= sending_precision && sending_precision <= MAX_SENDING_PRECISION) {
        return Err(ContractError::InvalidSendingPrecision {  });
    }
    let d = decimals as i32;
    if sending_precision > d {
        return Err(ContractError::InvalidSendingPrecision {  });
    }
    if (sending_precision as i64) < -(d as i64) {
        return Err(ContractError::InvalidSendingPrecision {  });
    }
    Ok(())
}

pub open spec fn is_denom_special_char(c: char) -> bool {
    c == '/' || c == ':' || c == '.' || c == '_' || c == '-'
}

/// A denom matching `[a-zA-Z][a-zA-Z0-9/:._-]{2,127}`.
pub open spec fn is_valid_cosmos_denom(s: Seq<char>) -> bool {
    &&& MIN_DENOM_LENGTH <= s.len() <= MAX_DENOM_LENGTH
    &&& is_ascii_alphabetic(s[0])
    &&& forall|i: int|
        1 <= i < s.len() ==> is_ascii_alphanumeric(#[trigger] s[i]) || is_denom_special_char(s[i])
}

/// Checks a denom the way the Cosmos SDK does:
/// `[a-zA-Z][a-zA-Z0-9/:._-]{2,127}`.
pub fn validate_cosmos_denom(denom: &str) -> (res: Result<(), ContractError>)
    ensures
        res is Ok <==> is_valid_cosmos_denom(denom@),
        res matches Err(e) ==> e == (ContractError::InvalidDenom {  }),
{
    let n = denom.unicode_len();
    if n < MIN_DENOM_LENGTH || n > MAX_DENOM_LENGTH {
        return Err(ContractError::InvalidDenom {  });
    }
    let c0 = denom.get_char(0);
    if !(('a' <= c0 && c0 <= 'z') || ('A' <= c0 && c0 <= 'Z')) {
        return Err(ContractError::InvalidDenom {  });
    }
    let mut i: usize = 1;
    while i < n
        invariant
            1 <= i <= n,
            n == denom@.len(),
            forall|j: int|
                1 <= j < i ==> is_ascii_alphanumeric(#[trigger] denom@[j])
                    || is_denom_special_char(denom@[j]),
        decreases n - i,
    {
        let c = denom.get_char(i);
        if !(('0' <= c && c <= '9') || ('a' <= c && c <= 'z') || ('A' <= c && c <= 'Z') || c == '/'
            || c == ':' || c == '.' || c == '_' || c == '-') {
            return Err(ContractError::InvalidDenom {  });
        }
        i = i + 1;
    }
    Ok(())
}

/// Character-wise equality of two strings.
pub fn str_equal(a: &str, b: &str) -> (r: bool)
    ensures
        r == (a@ == b@),
{
    let n = a.unicode_len();
    if n != b.unicode_len() {
        return false;
    }
    let mut i: usize = 0;
    while i < n
        invariant
            i <= n,
            n == a@.len(),
            n == b@.len(),
            forall|j: int| 0 <= j < i ==> a@[j] == b@[j],
        decreases n - i,
    {
        if a.get_char(i) != b.get_char(i) {
            return false;
        }
        i = i + 1;
    }
    assert(a@ =~= b@);
    true
}

/// The issuer and currency under which XRP itself is registered.
pub open spec fn is_xrp(issuer: Seq<char>, currency: Seq<char>) -> bool {
    issuer == XRP_ISSUER@ && currency == XRP_CURRENCY@
}

/// Whether an XRPL token is XRP itself.
pub fn is_token_xrp(issuer: &str, currency: &str) -> (r: bool)
    ensures
        r == is_xrp(issuer@, currency@),
{
    str_equal(issuer, XRP_ISSUER) && str_equal(currency, XRP_CURRENCY)
}

/// Decimals XRPL uses for a token it issues: 6 for XRP, 15 for any other.
pub open spec fn xrpl_token_decimals(issuer: Seq<char>, currency: Seq<char>) -> u32 {
    if is_xrp(issuer, currency) {
        XRP_DECIMALS
    } else {
        XRPL_TOKENS_DECIMALS
    }
}

/// Decimals of an XRPL issued token: 6 for XRP, 15 for any other.
pub fn xrpl_decimals(issuer: &str, currency: &str) -> (r: u32)
    ensures
        r == xrpl_token_decimals(issuer@, currency@),
{
    if is_token_xrp(issuer, currency) {
        XRP_DECIMALS
    } else {
        XRPL_TOKENS_DECIMALS
    }
}

/// `10^38` fits in 128 bits.
pub proof fn lemma_pow10_38_fits()
    ensures
        pow10(38) <= u128::MAX,
{
    reveal_with_fuel(pow10, 39);
    assert(pow10(38) == 100_000_000_000_000_000_000_000_000_000_000_000_000nat);
}

/// Truncation is well defined for every accepted sending precision of a token
/// with at most `23` decimals, which covers every XRPL issued token.
pub proof fn lemma_valid_precision_truncation_defined(sending_precision: i32, decimals: u32)
    requires
        is_valid_sending_precision(sending_precision, decimals),
        decimals <= 23,
    ensures
        truncation_defined(sending_precision, decimals),
        truncation_exponent(sending_precision, decimals) == decimals - sending_precision,
{
    lemma_pow10_38_fits();
    crate::amount::lemma_pow10_monotone(truncation_exponent(sending_precision, decimals), 38);
}

/// A token state change: none requested keeps the state; a token still
/// processing or inactive cannot change state, and the only states a token
/// can be set to are enabled and disabled.
pub open spec fn token_state_update(state: TokenState, target: Option<TokenState>) -> Result<
    TokenState,
    ContractError,
> {
    match target {
        None => Ok(state),
        Some(t) => if state == TokenState::Processing || state == TokenState::Inactive {
            Err(ContractError::TokenStateIsImmutable {  })
        } else if t == TokenState::Processing || t == TokenState::Inactive {
            Err(ContractError::InvalidTargetTokenState {  })
        } else {
            Ok(t)
        },
    }
}

/// An accepted sending precision lies between minus the token's decimals
/// and its decimals, and within `[-15, 15]`: for a token of 6 decimals, -7
/// and 7 are refused, -6 and 6 accepted.
pub proof fn lemma_sending_precision_bounds(sending_precision: i32, decimals: u32)
    ensures
        is_valid_sending_precision(sending_precision, decimals) ==> {
            &&& -15 <= sending_precision <= 15
            &&& sending_precision <= decimals
            &&& -(decimals as int) <= sending_precision
        },
        decimals <= 15 ==> (is_valid_sending_precision(sending_precision, decimals) <== -(
        decimals as int) <= sending_precision <= decimals),
{
}

/// A token state update that succeeds leaves the token in its old state
/// (nothing requested) or in the requested state, which is then enabled or
/// disabled: a requested processing or inactive state is refused as an
/// invalid target whenever the token's own state may change.
pub proof fn lemma_token_state_targets(state: TokenState, target: Option<TokenState>)
    ensures
        token_state_update(state, target) matches Ok(s) ==> (target is None && s == state) || (
        target == Some(s) && (s == TokenState::Enabled || s == TokenState::Disabled)),
        (state == TokenState::Enabled || state == TokenState::Disabled) && (target
            == Some(TokenState::Processing) || target == Some(TokenState::Inactive))
            ==> token_state_update(state, target) == Err::<TokenState, ContractError>(
            ContractError::InvalidTargetTokenState {  },
        ),
        (state == TokenState::Processing || state == TokenState::Inactive) && target is Some
            ==> token_state_update(state, target) == Err::<TokenState, ContractError>(
            ContractError::TokenStateIsImmutable {  },
        ),
{
}

/// An update of a token that asks for the processing or inactive state is
/// refused, whatever else it asks.
pub proof fn lemma_token_update_refuses_inner_states(
    state: TokenState,
    target: TokenState,
    sending_precision: Option<i32>,
    decimals: u32,
    max_holding_amount: Option<u128>,
    current_bridged_amount: u128,
)
    requires
        target == TokenState::Processing || target == TokenState::Inactive,
    ensures
        !is_valid_token_update(
            state,
            Some(target),
            sending_precision,
            decimals,
            max_holding_amount,
            current_bridged_amount,
        ),
{
    lemma_token_state_targets(state, Some(target));
}

/// An accepted token update keeps the holding limit at or above what the
/// bridge already holds of the token, and a valid sending precision.
pub proof fn lemma_token_update_limits(
    state: TokenState,
    target_state: Option<TokenState>,
    sending_precision: Option<i32>,
    decimals: u32,
    max_holding_amount: Option<u128>,
    current_bridged_amount: u128,
)
    requires
        is_valid_token_update(
            state,
            target_state,
            sending_precision,
            decimals,
            max_holding_amount,
            current_bridged_amount,
        ),
    ensures
        max_holding_amount matches Some(m) ==> m >= current_bridged_amount,
        sending_precision matches Some(p) ==> -(decimals as int) <= p <= decimals && -15 <= p <= 15,
{
    if let Some(p) = sending_precision {
        lemma_sending_precision_bounds(p, decimals);
    }
}

/// Applies a requested state change to a token state.
pub fn set_token_state(state: &mut TokenState, target: Option<TokenState>) -> (res: Result<
    (),
    ContractError,
>)
    ensures
        match token_state_update(*old(state), target) {
            Ok(t) => res is Ok && *final(state) == t,
            Err(e) => res == Err::<(), ContractError>(e) && *final(state) == *old(state),
        },
{
    if let Some(t) = target {
        if *state == TokenState::Processing || *state == TokenState::Inactive {
            return Err(ContractError::TokenStateIsImmutable {  });
        }
        if t == TokenState::Processing || t == TokenState::Inactive {
            return Err(ContractError::InvalidTargetTokenState {  });
        }
        *state = t;
    }
    Ok(())
}

/// Applies a requested sending precision, which must be valid for the
/// token's decimals.
pub fn set_token_sending_precision(sending_precision: &mut i32, target: Option<i32>, decimals: u32) -> (res:
    Result<(), ContractError>)
    ensures
        res is Ok <==> (target matches Some(p) ==> is_valid_sending_precision(p, decimals)),
        res is Ok ==> *final(sending_precision) == match target {
            Some(p) => p,
            None => *old(sending_precision),
        },
        res matches Err(e) ==> e == (ContractError::InvalidSendingPrecision {  })
            && *final(sending_precision) == *old(sending_precision),
{
    if let Some(p) = target {
        validate_sending_precision(p, decimals)?;
        *sending_precision = p;
    }
    Ok(())
}

/// Applies a requested bridging fee; any fee is accepted.
pub fn set_token_bridging_fee(bridging_fee: &mut u128, target: Option<u128>) -> (res: Result<
    (),
    ContractError,
>)
    ensures
        res is Ok,
        *final(bridging_fee) == match target {
            Some(f) => f,
            None => *old(bridging_fee),
        },
{
    if let Some(f) = target {
        *bridging_fee = f;
    }
    Ok(())
}

/// Applies a requested holding limit, which cannot be below what the bridge
/// already holds of the token.
pub fn set_token_max_holding_amount(
    current_bridged_amount: u128,
    max_holding_amount: &mut u128,
    target: Option<u128>,
) -> (res: Result<(), ContractError>)
    ensures
        res is Ok <==> (target matches Some(m) ==> m >= current_bridged_amount),
        res is Ok ==> *final(max_holding_amount) == match target {
            Some(m) => m,
            None => *old(max_holding_amount),
        },
        res matches Err(e) ==> e == (ContractError::InvalidTargetMaxHoldingAmount {  })
            && *final(max_holding_amount) == *old(max_holding_amount),
{
    if let Some(m) = target {
        if m < current_bridged_amount {
            return Err(ContractError::InvalidTargetMaxHoldingAmount {  });
        }
        *max_holding_amount = m;
    }
    Ok(())
}

/// A token update is accepted: the state change, the sending precision for
/// `decimals` and the holding limit against what the bridge holds.
pub open spec fn is_valid_token_update(
    state: TokenState,
    target_state: Option<TokenState>,
    sending_precision: Option<i32>,
    decimals: u32,
    max_holding_amount: Option<u128>,
    current_bridged_amount: u128,
) -> bool {
    &&& token_state_update(state, target_state) is Ok
    &&& sending_precision matches Some(p) ==> is_valid_sending_precision(p, decimals)
    &&& max_holding_amount matches Some(m) ==> m >= current_bridged_amount
}

/// The error a refused token update gets: the state change's, then the
/// precision's, then the holding limit's.
pub open spec fn is_token_update_error(
    e: ContractError,
    state: TokenState,
    target_state: Option<TokenState>,
    sending_precision: Option<i32>,
    decimals: u32,
) -> bool {
    if token_state_update(state, target_state) is Err {
        token_state_update(state, target_state) == Err::<TokenState, ContractError>(e)
    } else if sending_precision matches Some(p) && !is_valid_sending_precision(p, decimals) {
        e == (ContractError::InvalidSendingPrecision {  })
    } else {
        e == (ContractError::InvalidTargetMaxHoldingAmount {  })
    }
}

/// Updates, while the bridge is active, an XRPL token's state, sending
/// precision (for 6 decimals for XRP, 15 otherwise), bridging fee and holding
/// limit. `current_bridged_amount` is the token's supply on the Cosmos side.
/// Nothing changes when refused.
pub fn update_xrpl_token(
    bridge_state: BridgeState,
    token: &mut XRPLToken,
    state: Option<TokenState>,
    sending_precision: Option<i32>,
    bridging_fee: Option<u128>,
    max_holding_amount: Option<u128>,
    current_bridged_amount: u128,
) -> (res: Result<(), ContractError>)
    ensures
        ({
            let decimals = xrpl_token_decimals(old(token).issuer@, old(token).currency@);
            &&& res is Ok <==> bridge_state == BridgeState::Active && is_valid_token_update(
                old(token).state,
                state,
                sending_precision,
                decimals,
                max_holding_amount,
                current_bridged_amount,
            )
            &&& res matches Err(e) ==> if bridge_state != BridgeState::Active {
                e == (ContractError::BridgeHalted {  })
            } else {
                is_token_update_error(e, old(token).state, state, sending_precision, decimals)
            }
        }),
        final(token).issuer == old(token).issuer,
        final(token).currency == old(token).currency,
        final(token).cosmos_denom == old(token).cosmos_denom,
        res is Err ==> final(token).state == old(token).state && final(token).sending_precision
            == old(token).sending_precision && final(token).bridging_fee == old(token).bridging_fee
            && final(token).max_holding_amount == old(token).max_holding_amount,
        res is Ok ==> {
            &&& final(token).state == token_state_update(old(token).state, state)->Ok_0
            &&& final(token).sending_precision == match sending_precision {
                Some(p) => p,
                None => old(token).sending_precision,
            }
            &&& final(token).bridging_fee == match bridging_fee {
                Some(f) => f,
                None => old(token).bridging_fee,
            }
            &&& final(token).max_holding_amount == match max_holding_amount {
                Some(m) => m,
                None => old(token).max_holding_amount,
            }
        },
{
    assert_bridge_active(bridge_state)?;
    let decimals = xrpl_decimals(token.issuer.as_str(), token.currency.as_str());
    let mut new_state = token.state;
    set_token_state(&mut new_state, state)?;
    let mut new_precision = token.sending_precision;
    set_token_sending_precision(&mut new_precision, sending_precision, decimals)?;
    let mut new_fee = token.bridging_fee;
    set_token_bridging_fee(&mut new_fee, bridging_fee)?;
    let mut new_max = token.max_holding_amount;
    set_token_max_holding_amount(current_bridged_amount, &mut new_max, max_holding_amount)?;
    token.state = new_state;
    token.sending_precision = new_precision;
    token.bridging_fee = new_fee;
    token.max_holding_amount = new_max;
    Ok(())
}

/// Updates, while the bridge is active, a Cosmos token's state, sending
/// precision (for its decimals), bridging fee and holding limit.
/// `current_bridged_amount` is what the bridge holds of the token. Nothing
/// changes when refused.
pub fn update_cosmos_token(
    bridge_state: BridgeState,
    token: &mut CosmosToken,
    state: Option<TokenState>,
    sending_precision: Option<i32>,
    bridging_fee: Option<u128>,
    max_holding_amount: Option<u128>,
    current_bridged_amount: u128,
) -> (res: Result<(), ContractError>)
    ensures
        res is Ok <==> bridge_state == BridgeState::Active && is_valid_token_update(
            old(token).state,
            state,
            sending_precision,
            old(token).decimals,
            max_holding_amount,
            current_bridged_amount,
        ),
        res matches Err(e) ==> if bridge_state != BridgeState::Active {
            e == (ContractError::BridgeHalted {  })
        } else {
            is_token_update_error(e, old(token).state, state, sending_precision, old(token).decimals)
        },
        final(token).denom == old(token).denom,
        final(token).decimals == old(token).decimals,
        final(token).xrpl_currency == old(token).xrpl_currency,
        res is Err ==> final(token).state == old(token).state && final(token).sending_precision
            == old(token).sending_precision && final(token).bridging_fee == old(token).bridging_fee
            && final(token).max_holding_amount == old(token).max_holding_amount,
        res is Ok ==> {
            &&& final(token).state == token_state_update(old(token).state, state)->Ok_0
            &&& final(token).sending_precision == match sending_precision {
                Some(p) => p,
                None => old(token).sending_precision,
            }
            &&& final(token).bridging_fee == match bridging_fee {
                Some(f) => f,
                None => old(token).bridging_fee,
            }
            &&& final(token).max_holding_amount == match max_holding_amount {
                Some(m) => m,
                None => old(token).max_holding_amount,
            }
        },
{
    assert_bridge_active(bridge_state)?;
    let mut new_state = token.state;
    set_token_state(&mut new_state, state)?;
    let mut new_precision = token.sending_precision;
    set_token_sending_precision(&mut new_precision, sending_precision, token.decimals)?;
    let mut new_fee = token.bridging_fee;
    set_token_bridging_fee(&mut new_fee, bridging_fee)?;
    let mut new_max = token.max_holding_amount;
    set_token_max_holding_amount(current_bridged_amount, &mut new_max, max_holding_amount)?;
    token.state = new_state;
    token.sending_precision = new_precision;
    token.bridging_fee = new_fee;
    token.max_holding_amount = new_max;
    Ok(())
}

} // verus!
