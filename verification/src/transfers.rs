//! Amounts moved by a transfer across the bridge: what is sent to XRPL for
//! coins sent to the bridge, and what is released on the Cosmos side for an
//! XRPL payment to the bridge, with the fees and truncation remainders.
use vstd::prelude::*;
use crate::amount::{
    lemma_convert_roundtrip, lemma_pow10_add, lemma_pow10_positive, lemma_truncate_monotone,
    lemma_truncate_splits, pow10, truncation_exponent,
    after_fees_result, amount_after_bridge_fees, conversion_defined, convert_amount_decimals,
    convert_and_truncate_amount, convert_and_truncate_result, convert_result, is_valid_xrpl_amount,
    truncate_amount, truncate_and_convert_amount, truncate_and_convert_result, truncate_result,
    truncation_defined, validate_xrpl_amount,
};
use crate::bridge::{assert_bridge_active, BridgeState};
use crate::error::{ContractError, OverflowError, OverflowOperation};
use crate::token::{
    is_token_xrp, is_xrp, str_equal, xrpl_decimals, xrpl_token_decimals, CosmosToken, MAX_COSMOS_TOKEN_DECIMALS, TokenState, XRPLToken, XRPL_TOKENS_DECIMALS,
    XRP_DECIMALS,
};

verus! {

/// Checks a reported XRPL payment to the bridge before its token is looked
/// up: payments are refused while the bridge is halted, and the bridge itself
/// cannot be the recipient.
pub fn check_transfer_evidence(bridge_state: BridgeState, recipient: &str, contract_address: &str) -> (res:
    Result<(), ContractError>)
    ensures
        res is Ok <==> bridge_state == BridgeState::Active && recipient@ != contract_address@,
        res matches Err(e) ==> if bridge_state != BridgeState::Active {
            e == (ContractError::BridgeHalted {  })
        } else {
            e == (ContractError::ProhibitedAddress {  })
        },
{
    assert_bridge_active(bridge_state)?;
    if str_equal(recipient, contract_address) {
        return Err(ContractError::ProhibitedAddress {  });
    }
    Ok(())
}

/// Whether a payment from XRPL carries a token the bridge issued on XRPL (a
/// Cosmos originated token): its issuer is the bridge's multisig address.
pub fn is_cosmos_originated(issuer: &str, bridge_xrpl_address: &str) -> (r: bool)
    ensures
        r == (issuer@ == bridge_xrpl_address@),
{
    str_equal(issuer, bridge_xrpl_address)
}

/// Whether released tokens go through a universal swap: the payment carries
/// a memo and a swap entry point is configured.
pub fn is_universal_swap(memo: &str, has_swap_entry_point: bool) -> (r: bool)
    ensures
        r == (memo@.len() > 0 && has_swap_entry_point),
{
    !memo.is_empty() && has_swap_entry_point
}

/// Amounts of an outgoing transfer to XRPL.
#[derive(Debug, Clone, Copy, PartialEq, Eq)]
pub struct SendToXRPLAmounts {
    /// Amount delivered on XRPL (XRPL scale).
    pub amount_to_send: u128,
    /// Most the XRPL payment may spend, `None` for XRP.
    pub max_amount: Option<u128>,
    /// Truncation remainder kept by the bridge as fees (sender's scale).
    pub remainder: u128,
    /// Amount counted against the rate limit: the coins sent, truncated.
    pub increase_limit_amount: u128,
}

/// The last checks of an outgoing transfer: both amounts must be representable
/// on XRPL.
pub open spec fn finish_send(
    amount_to_send: u128,
    max_amount: Option<u128>,
    remainder: u128,
    increase_limit_amount: u128,
) -> Result<SendToXRPLAmounts, ContractError> {
    if !is_valid_xrpl_amount(amount_to_send) {
        Err(ContractError::InvalidXRPLAmount {  })
    } else if max_amount matches Some(m) && !is_valid_xrpl_amount(m) {
        Err(ContractError::InvalidXRPLAmount {  })
    } else {
        Ok(SendToXRPLAmounts { amount_to_send, max_amount, remainder, increase_limit_amount })
    }
}

/// Outgoing transfer of an XRPL originated token back to XRPL.
pub open spec fn send_xrpl_token_result(
    token: XRPLToken,
    funds: u128,
    deliver_amount: Option<u128>,
) -> Result<SendToXRPLAmounts, ContractError> {
    let xrp = is_xrp(token.issuer@, token.currency@);
    let decimals = xrpl_token_decimals(token.issuer@, token.currency@);
    let sp = token.sending_precision;
    if deliver_amount matches Some(d) && d > funds {
        Err(ContractError::InvalidDeliverAmount {  })
    } else if token.state != TokenState::Enabled {
        Err(ContractError::TokenNotEnabled {  })
    } else if xrp && deliver_amount is Some {
        Err(ContractError::DeliverAmountIsProhibited {  })
    } else {
        match truncate_result(sp, decimals, funds) {
            Err(e) => Err(e),
            Ok((increase_limit_amount, _)) => match after_fees_result(funds, token.bridging_fee) {
                Err(e) => Err(e),
                Ok(after_fees) => match truncate_result(sp, decimals, after_fees) {
                    Err(e) => Err(e),
                    Ok((truncated, remainder)) => match deliver_amount {
                        Some(d) => if d > after_fees {
                            Err(ContractError::InvalidDeliverAmount {  })
                        } else {
                            match truncate_result(sp, decimals, d) {
                                Err(e) => Err(e),
                                Ok((delivered, _)) => finish_send(
                                    delivered,
                                    Some(truncated),
                                    remainder,
                                    increase_limit_amount,
                                ),
                            }
                        },
                        None => finish_send(
                            truncated,
                            if xrp {
                                None
                            } else {
                                Some(truncated)
                            },
                            remainder,
                            increase_limit_amount,
                        ),
                    },
                },
            },
        }
    }
}

fn finish_send_exec(
    amount_to_send: u128,
    max_amount: Option<u128>,
    remainder: u128,
    increase_limit_amount: u128,
) -> (res: Result<SendToXRPLAmounts, ContractError>)
    ensures
        res == finish_send(amount_to_send, max_amount, remainder, increase_limit_amount),
{
    validate_xrpl_amount(amount_to_send)?;
    if let Some(m) = max_amount {
        validate_xrpl_amount(m)?;
    }
    Ok(SendToXRPLAmounts { amount_to_send, max_amount, remainder, increase_limit_amount })
}

/// Amounts for sending an XRPL originated token back to XRPL: the bridging
/// fee is paid, the rest is truncated to the sending precision, and an
/// optional `deliver_amount` (refused for XRP) fixes the delivered amount
/// while the truncated total bounds what may be spent.
pub fn send_xrpl_token_amounts(token: &XRPLToken, funds: u128, deliver_amount: Option<u128>) -> (res:
    Result<SendToXRPLAmounts, ContractError>)
    requires
        truncation_defined(
            token.sending_precision,
            xrpl_token_decimals(token.issuer@, token.currency@),
        ),
    ensures
        res == send_xrpl_token_result(*token, funds, deliver_amount),
{
    if let Some(d) = deliver_amount {
        if d > funds {
            return Err(ContractError::InvalidDeliverAmount {  });
        }
    }
    if token.state != TokenState::Enabled {
        return Err(ContractError::TokenNotEnabled {  });
    }
    let xrp = is_token_xrp(token.issuer.as_str(), token.currency.as_str());
    let decimals = if xrp {
        if deliver_amount.is_some() {
            return Err(ContractError::DeliverAmountIsProhibited {  });
        }
        XRP_DECIMALS
    } else {
        XRPL_TOKENS_DECIMALS
    };
    let sp = token.sending_precision;
    let (increase_limit_amount, _) = truncate_amount(sp, decimals, funds)?;
    let after_fees = amount_after_bridge_fees(funds, token.bridging_fee)?;
    let (truncated, remainder) = truncate_amount(sp, decimals, after_fees)?;
    match deliver_amount {
        Some(d) => {
            if d > after_fees {
                return Err(ContractError::InvalidDeliverAmount {  });
            }
            let (delivered, _) = truncate_amount(sp, decimals, d)?;
            finish_send_exec(delivered, Some(truncated), remainder, increase_limit_amount)
        },
        None => {
            let max_amount = if xrp {
                None
            } else {
                Some(truncated)
            };
            finish_send_exec(truncated, max_amount, remainder, increase_limit_amount)
        },
    }
}

/// Outgoing transfer of a Cosmos originated token to XRPL.
pub open spec fn send_cosmos_token_result(
    token: CosmosToken,
    funds: u128,
    deliver_amount: Option<u128>,
    bridge_balance: u128,
) -> Result<SendToXRPLAmounts, ContractError> {
    let sp = token.sending_precision;
    if deliver_amount matches Some(d) && d > funds {
        Err(ContractError::InvalidDeliverAmount {  })
    } else if token.state != TokenState::Enabled {
        Err(ContractError::TokenNotEnabled {  })
    } else if deliver_amount is Some {
        Err(ContractError::DeliverAmountIsProhibited {  })
    } else {
        match truncate_result(sp, token.decimals, funds) {
            Err(e) => Err(e),
            Ok((increase_limit_amount, _)) => match truncate_and_convert_result(
                sp,
                token.decimals,
                XRPL_TOKENS_DECIMALS,
                funds,
                token.bridging_fee,
            ) {
                Err(e) => Err(e),
                Ok((amount_to_send, remainder)) => if bridge_balance > token.max_holding_amount {
                    Err(ContractError::MaximumBridgedAmountReached {  })
                } else {
                    finish_send(amount_to_send, Some(amount_to_send), remainder, increase_limit_amount)
                },
            },
        }
    }
}

/// Amounts for sending a Cosmos originated token to XRPL: the bridging fee is
/// paid, the rest is truncated to the sending precision and converted to the
/// XRPL scale. `bridge_balance` is what the bridge holds of the token once the
/// coins are received; it may not exceed the token's holding limit.
pub fn send_cosmos_token_amounts(
    token: &CosmosToken,
    funds: u128,
    deliver_amount: Option<u128>,
    bridge_balance: u128,
) -> (res: Result<SendToXRPLAmounts, ContractError>)
    requires
        truncation_defined(token.sending_precision, token.decimals),
        conversion_defined(token.decimals, XRPL_TOKENS_DECIMALS),
    ensures
        res == send_cosmos_token_result(*token, funds, deliver_amount, bridge_balance),
{
    if let Some(d) = deliver_amount {
        if d > funds {
            return Err(ContractError::InvalidDeliverAmount {  });
        }
    }
    if token.state != TokenState::Enabled {
        return Err(ContractError::TokenNotEnabled {  });
    }
    if deliver_amount.is_some() {
        return Err(ContractError::DeliverAmountIsProhibited {  });
    }
    let sp = token.sending_precision;
    let (increase_limit_amount, _) = truncate_amount(sp, token.decimals, funds)?;
    let (amount_to_send, remainder) = truncate_and_convert_amount(
        sp,
        token.decimals,
        XRPL_TOKENS_DECIMALS,
        funds,
        token.bridging_fee,
    )?;
    if bridge_balance > token.max_holding_amount {
        return Err(ContractError::MaximumBridgedAmountReached {  });
    }
    finish_send_exec(amount_to_send, Some(amount_to_send), remainder, increase_limit_amount)
}

/// Amounts of an incoming transfer from XRPL.
#[derive(Debug, Clone, Copy, PartialEq, Eq)]
pub struct XRPLToCosmosAmounts {
    /// Amount released to the recipient (Cosmos scale).
    pub amount_to_send: u128,
    /// Truncation remainder kept by the bridge as fees.
    pub remainder: u128,
    /// Amount counted against the rate limit.
    pub rate_limit_amount: u128,
}

/// Incoming transfer of an XRPL originated token, minted on the Cosmos side.
/// `current_supply` is the token's supply on the Cosmos side.
pub open spec fn receive_xrpl_token_result(
    token: XRPLToken,
    amount: u128,
    current_supply: u128,
) -> Result<XRPLToCosmosAmounts, ContractError> {
    let decimals = xrpl_token_decimals(token.issuer@, token.currency@);
    let sp = token.sending_precision;
    if token.state != TokenState::Enabled {
        Err(ContractError::TokenNotEnabled {  })
    } else {
        match after_fees_result(amount, token.bridging_fee) {
            Err(e) => Err(e),
            Ok(after_fees) => match truncate_result(sp, decimals, after_fees) {
                Err(e) => Err(e),
                Ok((amount_to_send, remainder)) => if amount + current_supply > u128::MAX {
                    Err(
                        ContractError::OverflowError(
                            OverflowError {
                                operation: OverflowOperation::Add,
                                operand1: amount,
                                operand2: current_supply,
                            },
                        ),
                    )
                } else if amount + current_supply > token.max_holding_amount {
                    Err(ContractError::MaximumBridgedAmountReached {  })
                } else {
                    match truncate_result(sp, decimals, amount) {
                        Err(e) => Err(e),
                        Ok((rate_limit_amount, _)) => Ok(
                            XRPLToCosmosAmounts { amount_to_send, remainder, rate_limit_amount },
                        ),
                    }
                },
            },
        }
    }
}

/// Amounts for an XRPL payment of an XRPL originated token: the bridging fee
/// is paid, the rest truncated to the sending precision; the payment may not
/// take the minted supply over the token's holding limit.
pub fn receive_xrpl_token_amounts(token: &XRPLToken, amount: u128, current_supply: u128) -> (res:
    Result<XRPLToCosmosAmounts, ContractError>)
    requires
        truncation_defined(
            token.sending_precision,
            xrpl_token_decimals(token.issuer@, token.currency@),
        ),
    ensures
        res == receive_xrpl_token_result(*token, amount, current_supply),
{
    if token.state != TokenState::Enabled {
        return Err(ContractError::TokenNotEnabled {  });
    }
    let decimals = xrpl_decimals(token.issuer.as_str(), token.currency.as_str());
    let sp = token.sending_precision;
    let after_fees = amount_after_bridge_fees(amount, token.bridging_fee)?;
    let (amount_to_send, remainder) = truncate_amount(sp, decimals, after_fees)?;
    let total = match amount.checked_add(current_supply) {
        Some(t) => t,
        None => {
            return Err(
                ContractError::OverflowError(
                    OverflowError {
                        operation: OverflowOperation::Add,
                        operand1: amount,
                        operand2: current_supply,
                    },
                ),
            );
        },
    };
    if total > token.max_holding_amount {
        return Err(ContractError::MaximumBridgedAmountReached {  });
    }
    let (rate_limit_amount, _) = truncate_amount(sp, decimals, amount)?;
    Ok(XRPLToCosmosAmounts { amount_to_send, remainder, rate_limit_amount })
}

/// Incoming transfer of a Cosmos originated token, released from escrow.
pub open spec fn receive_cosmos_token_result(token: CosmosToken, amount: u128) -> Result<
    XRPLToCosmosAmounts,
    ContractError,
> {
    if token.state != TokenState::Enabled {
        Err(ContractError::TokenNotEnabled {  })
    } else {
        match convert_and_truncate_result(
            token.sending_precision,
            XRPL_TOKENS_DECIMALS,
            token.decimals,
            amount,
            token.bridging_fee,
        ) {
            Err(e) => Err(e),
            Ok((amount_to_send, remainder)) => match convert_result(
                XRPL_TOKENS_DECIMALS,
                token.decimals,
                amount,
            ) {
                Err(e) => Err(e),
                Ok(rate_limit_amount) => Ok(
                    XRPLToCosmosAmounts { amount_to_send, remainder, rate_limit_amount },
                ),
            },
        }
    }
}

/// Amounts for an XRPL payment of a Cosmos originated token: the XRPL amount
/// is converted to the token's decimals, the bridging fee paid and the rest
/// truncated to the sending precision.
pub fn receive_cosmos_token_amounts(token: &CosmosToken, amount: u128) -> (res: Result<
    XRPLToCosmosAmounts,
    ContractError,
>)
    requires
        conversion_defined(XRPL_TOKENS_DECIMALS, token.decimals),
        truncation_defined(token.sending_precision, token.decimals),
    ensures
        res == receive_cosmos_token_result(*token, amount),
{
    if token.state != TokenState::Enabled {
        return Err(ContractError::TokenNotEnabled {  });
    }
    let (amount_to_send, remainder) = convert_and_truncate_amount(
        token.sending_precision,
        XRPL_TOKENS_DECIMALS,
        token.decimals,
        amount,
        token.bridging_fee,
    )?;
    let rate_limit_amount = convert_amount_decimals(XRPL_TOKENS_DECIMALS, token.decimals, amount)?;
    Ok(XRPLToCosmosAmounts { amount_to_send, remainder, rate_limit_amount })
}

/// Without a deliver amount, the coins sent to the bridge are split exactly
/// into the amount delivered on XRPL, the truncation remainder and the
/// bridging fee; the amount delivered also bounds what the payment may spend,
/// except for XRP which has no such bound.
pub proof fn lemma_send_xrpl_token_splits_funds(token: XRPLToken, funds: u128)
    requires
        send_xrpl_token_result(token, funds, None) is Ok,
    ensures
        ({
            let a = send_xrpl_token_result(token, funds, None)->Ok_0;
            &&& a.amount_to_send + a.remainder + token.bridging_fee == funds
            &&& a.max_amount == if is_xrp(token.issuer@, token.currency@) {
                None
            } else {
                Some(a.amount_to_send)
            }
        }),
{
    let decimals = xrpl_token_decimals(token.issuer@, token.currency@);
    let after_fees = (funds - token.bridging_fee) as u128;
    lemma_truncate_splits(token.sending_precision, decimals, after_fees);
}

/// With a deliver amount, what is delivered never exceeds it nor the most
/// the payment may spend, and that bound, the remainder and the fee add up to
/// the coins sent.
pub proof fn lemma_send_deliver_amount_bounded(token: XRPLToken, funds: u128, deliver_amount: u128)
    requires
        send_xrpl_token_result(token, funds, Some(deliver_amount)) is Ok,
    ensures
        ({
            let a = send_xrpl_token_result(token, funds, Some(deliver_amount))->Ok_0;
            &&& a.amount_to_send <= deliver_amount
            &&& a.max_amount is Some
            &&& a.amount_to_send <= a.max_amount->Some_0
            &&& a.max_amount->Some_0 + a.remainder + token.bridging_fee == funds
        }),
{
    let decimals = xrpl_token_decimals(token.issuer@, token.currency@);
    let sp = token.sending_precision;
    let after_fees = (funds - token.bridging_fee) as u128;
    lemma_truncate_splits(sp, decimals, after_fees);
    lemma_truncate_splits(sp, decimals, deliver_amount);
    lemma_truncate_monotone(sp, decimals, deliver_amount, after_fees);
}

/// An incoming payment of an XRPL originated token is split exactly into the
/// amount minted for the recipient, the truncation remainder and the bridging
/// fee; the rate limit counts the truncated payment, between the two.
pub proof fn lemma_receive_xrpl_token_splits_amount(
    token: XRPLToken,
    amount: u128,
    current_supply: u128,
)
    requires
        receive_xrpl_token_result(token, amount, current_supply) is Ok,
    ensures
        ({
            let a = receive_xrpl_token_result(token, amount, current_supply)->Ok_0;
            &&& a.amount_to_send + a.remainder + token.bridging_fee == amount
            &&& a.amount_to_send <= a.rate_limit_amount <= amount
        }),
{
    let decimals = xrpl_token_decimals(token.issuer@, token.currency@);
    let sp = token.sending_precision;
    let after_fees = (amount - token.bridging_fee) as u128;
    lemma_truncate_splits(sp, decimals, after_fees);
    lemma_truncate_splits(sp, decimals, amount);
    lemma_truncate_monotone(sp, decimals, after_fees, amount);
}

/// An incoming payment of a Cosmos originated token, once converted to the
/// token's decimals (the amount counted by the rate limit), is split exactly
/// into the amount released, the truncation remainder and the bridging fee.
pub proof fn lemma_receive_cosmos_token_splits_amount(token: CosmosToken, amount: u128)
    requires
        receive_cosmos_token_result(token, amount) is Ok,
    ensures
        ({
            let a = receive_cosmos_token_result(token, amount)->Ok_0;
            a.amount_to_send + a.remainder + token.bridging_fee == a.rate_limit_amount
        }),
{
    let converted = convert_result(XRPL_TOKENS_DECIMALS, token.decimals, amount)->Ok_0;
    let after_fees = (converted - token.bridging_fee) as u128;
    lemma_truncate_splits(token.sending_precision, token.decimals, after_fees);
}

/// Sending a Cosmos originated token involves no rounding beyond the
/// truncation to the sending precision: the amount delivered on XRPL converts
/// back exactly to the coins sent minus the fee and the remainder.
pub proof fn lemma_send_cosmos_token_exact(
    token: CosmosToken,
    funds: u128,
    bridge_balance: u128,
)
    requires
        token.sending_precision <= 15,
        token.decimals <= MAX_COSMOS_TOKEN_DECIMALS,
        send_cosmos_token_result(token, funds, None, bridge_balance) is Ok,
    ensures
        ({
            let a = send_cosmos_token_result(token, funds, None, bridge_balance)->Ok_0;
            convert_result(XRPL_TOKENS_DECIMALS, token.decimals, a.amount_to_send) == Ok::<
                u128,
                ContractError,
            >((funds - token.bridging_fee - a.remainder) as u128)
        }),
{
    let sp = token.sending_precision;
    let dec = token.decimals;
    let after_fees = (funds - token.bridging_fee) as u128;
    lemma_truncate_splits(sp, dec, after_fees);
    let t = truncate_result(sp, dec, after_fees)->Ok_0.0;
    if dec <= 15 {
        lemma_convert_roundtrip(dec, XRPL_TOKENS_DECIMALS, t);
    } else {
        let e = truncation_exponent(sp, dec);
        let d = (dec - 15) as nat;
        let k = (15 - sp) as nat;
        assert(e == d + k);
        lemma_pow10_add(d, k);
        lemma_pow10_positive(d);
        lemma_pow10_positive(k);
        let p = pow10(e);
        let q = after_fees as nat / p;
        assert(t == q * p);
        let f = pow10(d);
        let g = pow10(k);
        assert(t == (q * g) * f) by (nonlinear_arith)
            requires
                t == q * p,
                p == f * g,
        ;
        assert((t as nat) / f == q * g) by (nonlinear_arith)
            requires
                t == (q * g) * f,
                f >= 1,
        ;
        assert(((t as nat) / f) * f == t);
    }
}

/// Whatever a transfer to XRPL sends, XRPL can represent: the delivered
/// amount and the spending bound both have at most 16 significant digits.
pub proof fn lemma_sent_amounts_are_xrpl_amounts(
    xrpl_token: XRPLToken,
    cosmos_token: CosmosToken,
    funds: u128,
    deliver_amount: Option<u128>,
    bridge_balance: u128,
)
    ensures
        send_xrpl_token_result(xrpl_token, funds, deliver_amount) matches Ok(a) ==> {
            &&& is_valid_xrpl_amount(a.amount_to_send)
            &&& a.max_amount matches Some(m) ==> is_valid_xrpl_amount(m)
        },
        send_cosmos_token_result(cosmos_token, funds, deliver_amount, bridge_balance) matches Ok(
            a,
        ) ==> {
            &&& is_valid_xrpl_amount(a.amount_to_send)
            &&& a.max_amount == Some(a.amount_to_send)
        },
{
}

/// The bridge never mints an XRPL originated token beyond its holding limit,
/// and never accepts a Cosmos originated token beyond its escrow limit.
pub proof fn lemma_holding_limits_respected(
    xrpl_token: XRPLToken,
    amount: u128,
    current_supply: u128,
    cosmos_token: CosmosToken,
    funds: u128,
    bridge_balance: u128,
)
    ensures
        receive_xrpl_token_result(xrpl_token, amount, current_supply) is Ok ==> amount
            + current_supply <= xrpl_token.max_holding_amount,
        send_cosmos_token_result(cosmos_token, funds, None, bridge_balance) is Ok ==> bridge_balance
            <= cosmos_token.max_holding_amount,
{
}

} // verus!
