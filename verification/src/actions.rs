//! The messages the bridge sends on the Cosmos side: token factory mints for
//! a new Cosmos token, and what an accepted XRPL payment mints, sends, swaps
//! and counts against the rate limit.
use vstd::prelude::*;
use crate::error::{ContractError, OverflowError, OverflowOperation};
use crate::registration::{ascii_uppercase, full_denom, full_denom_of};
use vstd::utf8::is_ascii_chars;
use crate::transfers::{
    check_transfer_evidence, is_universal_swap, lemma_receive_cosmos_token_splits_amount,
    lemma_receive_xrpl_token_splits_amount, receive_cosmos_token_amounts, receive_cosmos_token_result,
    receive_xrpl_token_amounts, receive_xrpl_token_result, XRPLToCosmosAmounts,
};
use crate::amount::{conversion_defined, convert_result, truncate_result, truncation_defined};
use crate::bridge::BridgeState;
use crate::evidence::validate_transfer_evidence;
use crate::token::{xrpl_token_decimals, XRPL_TOKENS_DECIMALS};
use crate::token::{CosmosToken, XRPLToken};

verus! {

/// An amount to mint for an address when a Cosmos token is created or
/// topped up.
#[derive(Debug, Clone)]
pub struct InitialBalance {
    pub address: String,
    pub amount: u128,
}

/// A token factory mint of `amount` of `denom` for `mint_to_address`.
#[derive(Debug, Clone)]
pub struct MintTokens {
    pub denom: String,
    pub amount: u128,
    pub mint_to_address: String,
}

/// What creating a Cosmos token asks of the token factory: the subdenom to
/// create, the full denom it gets, and the mints of the initial balances.
#[derive(Debug)]
pub struct CosmosTokenCreation {
    pub subdenom: String,
    pub denom: String,
    pub mints: Vec<MintTokens>,
}

/// The uppercase form that `str::to_uppercase` gives of a string.
pub uninterp spec fn unicode_uppercase(s: Seq<char>) -> Seq<char>;

/// Calls `str::to_uppercase`. Claimed: the result depends on the string
/// alone, and on ASCII text it turns the letters `a`..`z` into `A`..`Z` and
/// keeps every other character.
#[verifier::external_body]
fn to_uppercase(s: &str) -> (res: String)
    ensures
        res@ == unicode_uppercase(s@),
        is_ascii_chars(s@) ==> res@ == ascii_uppercase(s@),
{
    s.to_uppercase()
}

/// Whether `mints` mints, in order, each initial balance of `denom`.
pub open spec fn mints_balances(mints: Seq<MintTokens>, denom: Seq<char>, balances: Seq<InitialBalance>) -> bool {
    &&& mints.len() == balances.len()
    &&& forall|i: int|
        0 <= i < mints.len() ==> {
            &&& (#[trigger] mints[i]).denom@ == denom
            &&& mints[i].amount == balances[i].amount
            &&& mints[i].mint_to_address@ == balances[i].address@
        }
}

/// One mint of `denom` for each initial balance, in order.
pub fn mint_cosmos_token(denom: &str, initial_balances: &Vec<InitialBalance>) -> (mints: Vec<MintTokens>)
    ensures
        mints_balances(mints@, denom@, initial_balances@),
{
    let mut mints: Vec<MintTokens> = Vec::new();
    let mut i: usize = 0;
    while i < initial_balances.len()
        invariant
            i <= initial_balances@.len(),
            mints_balances(mints@, denom@, initial_balances@.subrange(0, i as int)),
        decreases initial_balances@.len() - i,
    {
        let b = &initial_balances[i];
        mints.push(
            MintTokens { denom: denom.to_string(), amount: b.amount, mint_to_address: b.address.clone() },
        );
        i = i + 1;
    }
    assert(initial_balances@.subrange(0, i as int) =~= initial_balances@);
    mints
}

/// Creating a Cosmos token through the token factory: the subdenom is
/// uppercased, the token gets the factory's full denom of it, and each
/// initial balance is minted of that denom.
pub fn create_cosmos_token(
    token_factory_addr: &str,
    subdenom: &str,
    initial_balances: &Vec<InitialBalance>,
) -> (res: CosmosTokenCreation)
    ensures
        res.subdenom@ == unicode_uppercase(subdenom@),
        res.denom@ == full_denom_of(token_factory_addr@, unicode_uppercase(subdenom@)),
        mints_balances(res.mints@, res.denom@, initial_balances@),
{
    let upper = to_uppercase(subdenom);
    let denom = full_denom(token_factory_addr, upper.as_str());
    let mints = mint_cosmos_token(denom.as_str(), initial_balances);
    CosmosTokenCreation { subdenom: upper, denom, mints }
}

/// The channel on which the bridge reports transfers to the rate limiter.
pub const CHANNEL: &'static str = "channel-0";

/// A message the bridge sends on the Cosmos side for a transfer; rate limit
/// messages go on `CHANNEL`.
#[derive(Debug, Clone, PartialEq, Eq)]
pub enum PaymentAction {
    /// Mint `amount` of `denom` through the token factory for `to`.
    Mint { denom: String, amount: u128, to: String },
    /// Send `amount` of `denom` that the bridge holds in escrow to `to`.
    Send { denom: String, amount: u128, to: String },
    /// Count `amount` of the XRPL token `key` against its rate limit of
    /// transfers from XRPL.
    RateLimitReceive { key: String, amount: u128 },
    /// Count `amount` of the XRPL token `key` against its rate limit of
    /// transfers to XRPL.
    RateLimitSend { key: String, amount: u128 },
    /// Hand `amount` of `denom` to the swap entry point with `memo`.
    UniversalSwap { memo: String, denom: String, amount: u128 },
}

/// The fees collected for the relayers on an accepted payment: the bridging
/// fee and the truncation remainder.
pub open spec fn collected_fee_result(bridging_fee: u128, remainder: u128) -> Result<u128, ContractError> {
    if bridging_fee + remainder > u128::MAX {
        Err(
            ContractError::OverflowError(
                OverflowError {
                    operation: OverflowOperation::Add,
                    operand1: bridging_fee,
                    operand2: remainder,
                },
            ),
        )
    } else {
        Ok((bridging_fee + remainder) as u128)
    }
}

/// Adds the bridging fee and the truncation remainder of a payment.
pub fn collected_fee(bridging_fee: u128, remainder: u128) -> (res: Result<u128, ContractError>)
    ensures
        res == collected_fee_result(bridging_fee, remainder),
{
    match bridging_fee.checked_add(remainder) {
        Some(f) => Ok(f),
        None => Err(
            ContractError::OverflowError(
                OverflowError {
                    operation: OverflowOperation::Add,
                    operand1: bridging_fee,
                    operand2: remainder,
                },
            ),
        ),
    }
}

/// The rate limit message, where a rate limit is configured.
pub open spec fn rate_limit_actions(rate_limit_key: Option<String>, amount: u128) -> Seq<PaymentAction> {
    match rate_limit_key {
        Some(key) => seq![PaymentAction::RateLimitReceive { key, amount }],
        None => seq![],
    }
}

/// The swap message, where the payment goes through a universal swap.
pub open spec fn swap_actions(swap: bool, memo: String, denom: String, amount: u128) -> Seq<PaymentAction> {
    if swap {
        seq![PaymentAction::UniversalSwap { memo, denom, amount }]
    } else {
        seq![]
    }
}

/// What an accepted payment of an XRPL originated token does: the collected
/// fee, where not zero, is minted to the bridge; where something is left to
/// send, it is minted to the recipient (to the bridge for a universal swap),
/// counted against the rate limit, and then swapped.
pub open spec fn xrpl_token_payment_actions_of(
    denom: String,
    amounts: XRPLToCosmosAmounts,
    fee: u128,
    recipient: String,
    contract_address: String,
    memo: String,
    swap: bool,
    rate_limit_key: Option<String>,
) -> Seq<PaymentAction> {
    let fee_mint = if fee == 0 {
        seq![]
    } else {
        seq![PaymentAction::Mint { denom, amount: fee, to: contract_address }]
    };
    if amounts.amount_to_send == 0 {
        fee_mint
    } else {
        fee_mint + seq![
            PaymentAction::Mint {
                denom,
                amount: amounts.amount_to_send,
                to: if swap {
                    contract_address
                } else {
                    recipient
                },
            },
        ] + rate_limit_actions(rate_limit_key, amounts.rate_limit_amount) + swap_actions(
            swap,
            memo,
            denom,
            amounts.amount_to_send,
        )
    }
}

fn push_rate_limit(actions: &mut Vec<PaymentAction>, rate_limit_key: Option<String>, amount: u128)
    ensures
        final(actions)@ == old(actions)@ + rate_limit_actions(rate_limit_key, amount),
{
    match rate_limit_key {
        Some(key) => actions.push(PaymentAction::RateLimitReceive { key, amount }),
        None => {},
    }
    assert(final(actions)@ =~= old(actions)@ + rate_limit_actions(rate_limit_key, amount));
}

/// The fees collected for the relayers and the messages for an accepted
/// payment of an XRPL originated token with the amounts computed for it;
/// `swap` tells whether it goes through a universal swap (see
/// `is_universal_swap`). Fails only where the collected fee does not fit.
pub fn xrpl_token_payment_actions(
    token: &XRPLToken,
    amounts: &XRPLToCosmosAmounts,
    recipient: String,
    contract_address: String,
    memo: String,
    swap: bool,
    rate_limit_key: Option<String>,
) -> (res: Result<(u128, Vec<PaymentAction>), ContractError>)
    ensures
        match collected_fee_result(token.bridging_fee, amounts.remainder) {
            Err(e) => res == Err::<(u128, Vec<PaymentAction>), ContractError>(e),
            Ok(fee) => res matches Ok((f, v)) && f == fee && v@ == xrpl_token_payment_actions_of(
                token.cosmos_denom,
                *amounts,
                fee,
                recipient,
                contract_address,
                memo,
                swap,
                rate_limit_key,
            ),
        },
{
    let fee = collected_fee(token.bridging_fee, amounts.remainder)?;
    let mut actions: Vec<PaymentAction> = Vec::new();
    if fee != 0 {
        actions.push(
            PaymentAction::Mint {
                denom: token.cosmos_denom.clone(),
                amount: fee,
                to: contract_address.clone(),
            },
        );
    }
    let ghost fee_mint = actions@;
    if amounts.amount_to_send != 0 {
        let to = if swap {
            contract_address
        } else {
            recipient
        };
        actions.push(
            PaymentAction::Mint {
                denom: token.cosmos_denom.clone(),
                amount: amounts.amount_to_send,
                to,
            },
        );
        push_rate_limit(&mut actions, rate_limit_key, amounts.rate_limit_amount);
        if swap {
            actions.push(
                PaymentAction::UniversalSwap {
                    memo,
                    denom: token.cosmos_denom.clone(),
                    amount: amounts.amount_to_send,
                },
            );
        }
    }
    assert(actions@ =~= xrpl_token_payment_actions_of(
        token.cosmos_denom,
        *amounts,
        fee,
        recipient,
        contract_address,
        memo,
        swap,
        rate_limit_key,
    ));
    Ok((fee, actions))
}

/// What an accepted payment of a Cosmos originated token does: the amount
/// left is sent from escrow to the recipient, unless it goes through a
/// universal swap; the converted payment is counted against the rate limit;
/// the swap comes last.
pub open spec fn cosmos_token_payment_actions_of(
    denom: String,
    amounts: XRPLToCosmosAmounts,
    recipient: String,
    memo: String,
    swap: bool,
    rate_limit_key: Option<String>,
) -> Seq<PaymentAction> {
    let send = if swap {
        seq![]
    } else {
        seq![PaymentAction::Send { denom, amount: amounts.amount_to_send, to: recipient }]
    };
    send + rate_limit_actions(rate_limit_key, amounts.rate_limit_amount) + swap_actions(
        swap,
        memo,
        denom,
        amounts.amount_to_send,
    )
}

/// The fees collected for the relayers and the messages for an accepted
/// payment of a Cosmos originated token with the amounts computed for it.
/// The collected fee stays in escrow; the call fails only where it does not
/// fit.
pub fn cosmos_token_payment_actions(
    token: &CosmosToken,
    amounts: &XRPLToCosmosAmounts,
    recipient: String,
    memo: String,
    swap: bool,
    rate_limit_key: Option<String>,
) -> (res: Result<(u128, Vec<PaymentAction>), ContractError>)
    ensures
        match collected_fee_result(token.bridging_fee, amounts.remainder) {
            Err(e) => res == Err::<(u128, Vec<PaymentAction>), ContractError>(e),
            Ok(fee) => res matches Ok((f, v)) && f == fee && v@ == cosmos_token_payment_actions_of(
                token.denom,
                *amounts,
                recipient,
                memo,
                swap,
                rate_limit_key,
            ),
        },
{
    let fee = collected_fee(token.bridging_fee, amounts.remainder)?;
    let mut actions: Vec<PaymentAction> = Vec::new();
    if !swap {
        actions.push(
            PaymentAction::Send {
                denom: token.denom.clone(),
                amount: amounts.amount_to_send,
                to: recipient,
            },
        );
    }
    push_rate_limit(&mut actions, rate_limit_key, amounts.rate_limit_amount);
    if swap {
        actions.push(
            PaymentAction::UniversalSwap {
                memo,
                denom: token.denom.clone(),
                amount: amounts.amount_to_send,
            },
        );
    }
    assert(actions@ =~= cosmos_token_payment_actions_of(
        token.denom,
        *amounts,
        recipient,
        memo,
        swap,
        rate_limit_key,
    ));
    Ok((fee, actions))
}

/// The checks every reported XRPL payment passes before its token's amounts
/// are computed: a positive amount, an active bridge, and a recipient other
/// than the bridge.
pub open spec fn payment_check_error(
    amount: u128,
    bridge_state: BridgeState,
    recipient: Seq<char>,
    contract_address: Seq<char>,
) -> Option<ContractError> {
    if amount == 0 {
        Some(ContractError::InvalidAmount {  })
    } else if bridge_state != BridgeState::Active {
        Some(ContractError::BridgeHalted {  })
    } else if recipient == contract_address {
        Some(ContractError::ProhibitedAddress {  })
    } else {
        None
    }
}

/// What the bridge does with a reported payment of an XRPL originated token:
/// the payment is checked and its amounts computed on every report; once
/// enough relayers reported it, the fee is collected and the messages sent.
/// The result is the fee collected and the messages (nothing before the
/// threshold is reached).
pub open spec fn xrpl_token_payment_result(
    bridge_state: BridgeState,
    token: XRPLToken,
    amount: u128,
    current_supply: u128,
    recipient: String,
    contract_address: String,
    memo: String,
    has_swap_entry_point: bool,
    rate_limit_key: Option<String>,
    threshold_reached: bool,
) -> Result<(u128, Seq<PaymentAction>), ContractError> {
    match payment_check_error(amount, bridge_state, recipient@, contract_address@) {
        Some(e) => Err(e),
        None => match receive_xrpl_token_result(token, amount, current_supply) {
            Err(e) => Err(e),
            Ok(a) => if !threshold_reached {
                Ok((0, seq![]))
            } else {
                match collected_fee_result(token.bridging_fee, a.remainder) {
                    Err(e) => Err(e),
                    Ok(fee) => Ok(
                        (
                            fee,
                            xrpl_token_payment_actions_of(
                                token.cosmos_denom,
                                a,
                                fee,
                                recipient,
                                contract_address,
                                memo,
                                memo@.len() > 0 && has_swap_entry_point,
                                rate_limit_key,
                            ),
                        ),
                    ),
                }
            },
        },
    }
}

/// Handles a reported payment of an XRPL originated token, registered under
/// its issuer and currency; `current_supply` is the token's supply on the
/// Cosmos side and `threshold_reached` whether this report completes the
/// evidence.
pub fn handle_xrpl_token_payment(
    bridge_state: BridgeState,
    token: &XRPLToken,
    amount: u128,
    current_supply: u128,
    recipient: String,
    contract_address: String,
    memo: String,
    has_swap_entry_point: bool,
    rate_limit_key: Option<String>,
    threshold_reached: bool,
) -> (res: Result<(u128, Vec<PaymentAction>), ContractError>)
    requires
        truncation_defined(
            token.sending_precision,
            xrpl_token_decimals(token.issuer@, token.currency@),
        ),
    ensures
        match xrpl_token_payment_result(
            bridge_state,
            *token,
            amount,
            current_supply,
            recipient,
            contract_address,
            memo,
            has_swap_entry_point,
            rate_limit_key,
            threshold_reached,
        ) {
            Err(e) => res == Err::<(u128, Vec<PaymentAction>), ContractError>(e),
            Ok((fee, actions)) => res matches Ok((f, v)) && f == fee && v@ == actions,
        },
{
    validate_transfer_evidence(amount)?;
    check_transfer_evidence(bridge_state, recipient.as_str(), contract_address.as_str())?;
    let amounts = receive_xrpl_token_amounts(token, amount, current_supply)?;
    if !threshold_reached {
        return Ok((0, Vec::new()));
    }
    let swap = is_universal_swap(memo.as_str(), has_swap_entry_point);
    xrpl_token_payment_actions(token, &amounts, recipient, contract_address, memo, swap, rate_limit_key)
}

/// What the bridge does with a reported payment of a Cosmos originated
/// token, as for an XRPL originated one; the amount left is released from
/// escrow.
pub open spec fn cosmos_token_payment_result(
    bridge_state: BridgeState,
    token: CosmosToken,
    amount: u128,
    recipient: String,
    contract_address: String,
    memo: String,
    has_swap_entry_point: bool,
    rate_limit_key: Option<String>,
    threshold_reached: bool,
) -> Result<(u128, Seq<PaymentAction>), ContractError> {
    match payment_check_error(amount, bridge_state, recipient@, contract_address@) {
        Some(e) => Err(e),
        None => match receive_cosmos_token_result(token, amount) {
            Err(e) => Err(e),
            Ok(a) => if !threshold_reached {
                Ok((0, seq![]))
            } else {
                match collected_fee_result(token.bridging_fee, a.remainder) {
                    Err(e) => Err(e),
                    Ok(fee) => Ok(
                        (
                            fee,
                            cosmos_token_payment_actions_of(
                                token.denom,
                                a,
                                recipient,
                                memo,
                                memo@.len() > 0 && has_swap_entry_point,
                                rate_limit_key,
                            ),
                        ),
                    ),
                }
            },
        },
    }
}

/// Handles a reported payment of a Cosmos originated token, registered
/// under its XRPL currency.
pub fn handle_cosmos_token_payment(
    bridge_state: BridgeState,
    token: &CosmosToken,
    amount: u128,
    recipient: String,
    contract_address: String,
    memo: String,
    has_swap_entry_point: bool,
    rate_limit_key: Option<String>,
    threshold_reached: bool,
) -> (res: Result<(u128, Vec<PaymentAction>), ContractError>)
    requires
        conversion_defined(XRPL_TOKENS_DECIMALS, token.decimals),
        truncation_defined(token.sending_precision, token.decimals),
    ensures
        match cosmos_token_payment_result(
            bridge_state,
            *token,
            amount,
            recipient,
            contract_address,
            memo,
            has_swap_entry_point,
            rate_limit_key,
            threshold_reached,
        ) {
            Err(e) => res == Err::<(u128, Vec<PaymentAction>), ContractError>(e),
            Ok((fee, actions)) => res matches Ok((f, v)) && f == fee && v@ == actions,
        },
{
    validate_transfer_evidence(amount)?;
    check_transfer_evidence(bridge_state, recipient.as_str(), contract_address.as_str())?;
    let amounts = receive_cosmos_token_amounts(token, amount)?;
    if !threshold_reached {
        return Ok((0, Vec::new()));
    }
    let swap = is_universal_swap(memo.as_str(), has_swap_entry_point);
    cosmos_token_payment_actions(token, &amounts, recipient, memo, swap, rate_limit_key)
}

/// Reply id of the universal swap call, which is answered only on failure.
pub const UNIVERSAL_SWAP_ERROR_ID: u64 = 1;

/// What the bridge does with the reply to a call it made: a failed universal
/// swap is refunded (the pending swap's amount goes back to its recovery
/// address), a failure of any other call is an unknown reply, and a
/// successful call needs nothing. The result tells whether to refund.
pub fn reply_refunds_swap(reply_id: u64, call_failed: bool) -> (res: Result<bool, ContractError>)
    ensures
        !call_failed ==> res == Ok::<bool, ContractError>(false),
        call_failed && reply_id == UNIVERSAL_SWAP_ERROR_ID ==> res == Ok::<bool, ContractError>(true),
        call_failed && reply_id != UNIVERSAL_SWAP_ERROR_ID ==> res == Err::<bool, ContractError>(
            ContractError::UnknownReplyId { id: reply_id },
        ),
{
    if !call_failed {
        return Ok(false);
    }
    if reply_id == UNIVERSAL_SWAP_ERROR_ID {
        Ok(true)
    } else {
        Err(ContractError::UnknownReplyId { id: reply_id })
    }
}

/// A payment of an XRPL originated token that the bridge accepts never
/// fails on its fee, and what is minted in all, the collected fee to the
/// bridge and the rest to the recipient, is the whole payment.
pub proof fn lemma_xrpl_payment_mints_whole_amount(token: XRPLToken, amount: u128, current_supply: u128)
    requires
        receive_xrpl_token_result(token, amount, current_supply) is Ok,
    ensures
        ({
            let a = receive_xrpl_token_result(token, amount, current_supply)->Ok_0;
            collected_fee_result(token.bridging_fee, a.remainder) matches Ok(fee) && fee
                + a.amount_to_send == amount
        }),
{
    lemma_receive_xrpl_token_splits_amount(token, amount, current_supply);
}

/// A payment of a Cosmos originated token that the bridge accepts never
/// fails on its fee, and the collected fee and the amount released together
/// make the payment converted to the token's decimals.
pub proof fn lemma_cosmos_payment_releases_whole_amount(token: CosmosToken, amount: u128)
    requires
        receive_cosmos_token_result(token, amount) is Ok,
    ensures
        ({
            let a = receive_cosmos_token_result(token, amount)->Ok_0;
            collected_fee_result(token.bridging_fee, a.remainder) matches Ok(fee) && fee
                + a.amount_to_send == a.rate_limit_amount
        }),
{
    lemma_receive_cosmos_token_splits_amount(token, amount);
}

/// An accepted payment of an XRPL originated token that leaves something to
/// send, with a rate limiter configured, is counted against the rate limit
/// for the whole payment truncated to the token's sending precision, the
/// bridging fee included; the rate limit receives no other count.
pub proof fn lemma_xrpl_payment_rate_limit_counts_whole_payment(
    bridge_state: BridgeState,
    token: XRPLToken,
    amount: u128,
    current_supply: u128,
    recipient: String,
    contract_address: String,
    memo: String,
    has_swap_entry_point: bool,
    key: String,
)
    requires
        xrpl_token_payment_result(
            bridge_state,
            token,
            amount,
            current_supply,
            recipient,
            contract_address,
            memo,
            has_swap_entry_point,
            Some(key),
            true,
        ) is Ok,
        receive_xrpl_token_result(token, amount, current_supply)->Ok_0.amount_to_send > 0,
    ensures
        ({
            let actions = xrpl_token_payment_result(
                bridge_state,
                token,
                amount,
                current_supply,
                recipient,
                contract_address,
                memo,
                has_swap_entry_point,
                Some(key),
                true,
            )->Ok_0.1;
            let counted = truncate_result(
                token.sending_precision,
                xrpl_token_decimals(token.issuer@, token.currency@),
                amount,
            );
            &&& counted is Ok
            &&& exists|i: int|
                0 <= i < actions.len() && actions[i] == PaymentAction::RateLimitReceive {
                    key,
                    amount: counted->Ok_0.0,
                }
            &&& forall|i: int|
                0 <= i < actions.len() && (#[trigger] actions[i]) is RateLimitReceive ==> actions[i]
                    == PaymentAction::RateLimitReceive { key, amount: counted->Ok_0.0 }
        }),
{
    let a = receive_xrpl_token_result(token, amount, current_supply)->Ok_0;
    let fee = collected_fee_result(token.bridging_fee, a.remainder)->Ok_0;
    let swap = memo@.len() > 0 && has_swap_entry_point;
    let fee_mint = if fee == 0 {
        seq![]
    } else {
        seq![PaymentAction::Mint { denom: token.cosmos_denom, amount: fee, to: contract_address }]
    };
    let mint = seq![
        PaymentAction::Mint {
            denom: token.cosmos_denom,
            amount: a.amount_to_send,
            to: if swap {
                contract_address
            } else {
                recipient
            },
        },
    ];
    let rl = rate_limit_actions(Some(key), a.rate_limit_amount);
    let sw = swap_actions(swap, memo, token.cosmos_denom, a.amount_to_send);
    let actions = fee_mint + mint + rl + sw;
    assert(actions == xrpl_token_payment_actions_of(
        token.cosmos_denom,
        a,
        fee,
        recipient,
        contract_address,
        memo,
        swap,
        Some(key),
    ));
    let k = fee_mint.len() as int + 1;
    assert(actions[k] == PaymentAction::RateLimitReceive { key, amount: a.rate_limit_amount });
    assert forall|i: int|
        0 <= i < actions.len() && (#[trigger] actions[i]) is RateLimitReceive implies actions[i]
            == PaymentAction::RateLimitReceive { key, amount: a.rate_limit_amount } by {
        if i < fee_mint.len() {
            assert(actions[i] == fee_mint[i]);
        } else if i == fee_mint.len() {
            assert(actions[i] == mint[0]);
        } else if i > k {
            assert(actions[i] == sw[i - k - 1]);
        }
    }
}

/// An accepted payment of a Cosmos originated token, with a rate limiter
/// configured, is counted against the rate limit for the whole payment
/// converted to the token's decimals, the bridging fee included; the rate
/// limit receives no other count.
pub proof fn lemma_cosmos_payment_rate_limit_counts_whole_payment(
    bridge_state: BridgeState,
    token: CosmosToken,
    amount: u128,
    recipient: String,
    contract_address: String,
    memo: String,
    has_swap_entry_point: bool,
    key: String,
)
    requires
        cosmos_token_payment_result(
            bridge_state,
            token,
            amount,
            recipient,
            contract_address,
            memo,
            has_swap_entry_point,
            Some(key),
            true,
        ) is Ok,
    ensures
        ({
            let actions = cosmos_token_payment_result(
                bridge_state,
                token,
                amount,
                recipient,
                contract_address,
                memo,
                has_swap_entry_point,
                Some(key),
                true,
            )->Ok_0.1;
            let counted = convert_result(XRPL_TOKENS_DECIMALS, token.decimals, amount);
            &&& counted is Ok
            &&& exists|i: int|
                0 <= i < actions.len() && actions[i] == PaymentAction::RateLimitReceive {
                    key,
                    amount: counted->Ok_0,
                }
            &&& forall|i: int|
                0 <= i < actions.len() && (#[trigger] actions[i]) is RateLimitReceive ==> actions[i]
                    == PaymentAction::RateLimitReceive { key, amount: counted->Ok_0 }
        }),
{
    let a = receive_cosmos_token_result(token, amount)->Ok_0;
    let swap = memo@.len() > 0 && has_swap_entry_point;
    let send = if swap {
        seq![]
    } else {
        seq![PaymentAction::Send { denom: token.denom, amount: a.amount_to_send, to: recipient }]
    };
    let rl = rate_limit_actions(Some(key), a.rate_limit_amount);
    let sw = swap_actions(swap, memo, token.denom, a.amount_to_send);
    let actions = send + rl + sw;
    assert(actions == cosmos_token_payment_actions_of(token.denom, a, recipient, memo, swap, Some(key)));
    let k = send.len() as int;
    assert(actions[k] == PaymentAction::RateLimitReceive { key, amount: a.rate_limit_amount });
    assert forall|i: int|
        0 <= i < actions.len() && (#[trigger] actions[i]) is RateLimitReceive implies actions[i]
            == PaymentAction::RateLimitReceive { key, amount: a.rate_limit_amount } by {
        if i < k {
            assert(actions[i] == send[i]);
        } else if i > k {
            assert(actions[i] == sw[i - k - 1]);
        }
    }
}

/// What a message hands out of the bridge's escrow: a send, or the coins
/// given to a universal swap.
pub open spec fn released_amount(action: PaymentAction) -> Option<u128> {
    match action {
        PaymentAction::Send { amount, .. } => Some(amount),
        PaymentAction::UniversalSwap { amount, .. } => Some(amount),
        _ => None,
    }
}

/// Once enough relayers reported a payment of a Cosmos originated token, the
/// bridge releases from escrow, in one message, the payment converted to the
/// token's decimals less the fee it collects.
pub proof fn lemma_cosmos_payment_releases_payment_less_fee(
    bridge_state: BridgeState,
    token: CosmosToken,
    amount: u128,
    recipient: String,
    contract_address: String,
    memo: String,
    has_swap_entry_point: bool,
    rate_limit_key: Option<String>,
)
    requires
        cosmos_token_payment_result(
            bridge_state,
            token,
            amount,
            recipient,
            contract_address,
            memo,
            has_swap_entry_point,
            rate_limit_key,
            true,
        ) is Ok,
    ensures
        ({
            let (fee, actions) = cosmos_token_payment_result(
                bridge_state,
                token,
                amount,
                recipient,
                contract_address,
                memo,
                has_swap_entry_point,
                rate_limit_key,
                true,
            )->Ok_0;
            let converted = convert_result(XRPL_TOKENS_DECIMALS, token.decimals, amount);
            &&& converted is Ok
            &&& exists|i: int|
                0 <= i < actions.len() && #[trigger] released_amount(actions[i]) == Some(
                    (converted->Ok_0 - fee) as u128,
                ) && fee <= converted->Ok_0
            &&& forall|i: int, j: int|
                0 <= i < actions.len() && 0 <= j < actions.len() && (#[trigger] released_amount(
                    actions[i],
                )) is Some && (#[trigger] released_amount(actions[j])) is Some ==> i == j
        }),
{
    let a = receive_cosmos_token_result(token, amount)->Ok_0;
    lemma_receive_cosmos_token_splits_amount(token, amount);
    let swap = memo@.len() > 0 && has_swap_entry_point;
    let send = if swap {
        seq![]
    } else {
        seq![PaymentAction::Send { denom: token.denom, amount: a.amount_to_send, to: recipient }]
    };
    let rl = rate_limit_actions(rate_limit_key, a.rate_limit_amount);
    let sw = swap_actions(swap, memo, token.denom, a.amount_to_send);
    let actions = send + rl + sw;
    assert(actions == cosmos_token_payment_actions_of(token.denom, a, recipient, memo, swap, rate_limit_key));
    let k = if swap {
        rl.len() as int
    } else {
        0
    };
    assert(released_amount(actions[k]) == Some(a.amount_to_send));
    assert forall|i: int|
        0 <= i < actions.len() && (#[trigger] released_amount(actions[i])) is Some implies i == k by {
        if i < send.len() {
            assert(actions[i] == send[i]);
        } else if i < send.len() + rl.len() {
            assert(actions[i] == rl[i - send.len()]);
        } else {
            assert(actions[i] == sw[i - send.len() - rl.len()]);
        }
    }
}

/// Where the rest of an accepted payment of an XRPL originated token goes,
/// once the fee is collected: minted to the recipient, or, for a universal
/// swap, minted to the bridge and handed to the swap with the payment's memo,
/// in which case nothing is minted to anyone but the bridge.
pub proof fn lemma_xrpl_payment_routes_the_rest(
    bridge_state: BridgeState,
    token: XRPLToken,
    amount: u128,
    current_supply: u128,
    recipient: String,
    contract_address: String,
    memo: String,
    has_swap_entry_point: bool,
    rate_limit_key: Option<String>,
)
    requires
        xrpl_token_payment_result(
            bridge_state,
            token,
            amount,
            current_supply,
            recipient,
            contract_address,
            memo,
            has_swap_entry_point,
            rate_limit_key,
            true,
        ) is Ok,
    ensures
        ({
            let (fee, actions) = xrpl_token_payment_result(
                bridge_state,
                token,
                amount,
                current_supply,
                recipient,
                contract_address,
                memo,
                has_swap_entry_point,
                rate_limit_key,
                true,
            )->Ok_0;
            let rest = (amount - fee) as u128;
            let swap = memo@.len() > 0 && has_swap_entry_point;
            &&& fee <= amount
            &&& fee < amount && !swap ==> exists|i: int|
                0 <= i < actions.len() && actions[i] == PaymentAction::Mint {
                    denom: token.cosmos_denom,
                    amount: rest,
                    to: recipient,
                }
            &&& fee < amount && swap ==> exists|i: int|
                0 <= i < actions.len() && actions[i] == PaymentAction::UniversalSwap {
                    memo,
                    denom: token.cosmos_denom,
                    amount: rest,
                }
            &&& swap ==> forall|i: int|
                0 <= i < actions.len() && (#[trigger] actions[i]) is Mint ==> actions[i]->Mint_to
                    == contract_address
        }),
{
    let a = receive_xrpl_token_result(token, amount, current_supply)->Ok_0;
    lemma_receive_xrpl_token_splits_amount(token, amount, current_supply);
    let fee = collected_fee_result(token.bridging_fee, a.remainder)->Ok_0;
    let swap = memo@.len() > 0 && has_swap_entry_point;
    let fee_mint = if fee == 0 {
        seq![]
    } else {
        seq![PaymentAction::Mint { denom: token.cosmos_denom, amount: fee, to: contract_address }]
    };
    let actions = xrpl_token_payment_actions_of(
        token.cosmos_denom,
        a,
        fee,
        recipient,
        contract_address,
        memo,
        swap,
        rate_limit_key,
    );
    if a.amount_to_send != 0 {
        let mint = seq![
            PaymentAction::Mint {
                denom: token.cosmos_denom,
                amount: a.amount_to_send,
                to: if swap {
                    contract_address
                } else {
                    recipient
                },
            },
        ];
        let rl = rate_limit_actions(rate_limit_key, a.rate_limit_amount);
        let sw = swap_actions(swap, memo, token.cosmos_denom, a.amount_to_send);
        assert(actions == fee_mint + mint + rl + sw);
        let k = fee_mint.len() as int;
        assert(actions[k] == mint[0]);
        if swap {
            let m = k + 1 + rl.len();
            assert(actions[m] == sw[0]);
        }
        assert forall|i: int|
            0 <= i < actions.len() && (#[trigger] actions[i]) is Mint && swap implies actions[i]->Mint_to
                == contract_address by {
            if i < k {
                assert(actions[i] == fee_mint[i]);
            } else if i == k {
            } else if i < k + 1 + rl.len() {
                assert(actions[i] == rl[i - k - 1]);
            } else {
                assert(actions[i] == sw[i - k - 1 - rl.len()]);
            }
        }
    } else {
        assert forall|i: int|
            0 <= i < actions.len() && (#[trigger] actions[i]) is Mint && swap implies actions[i]->Mint_to
                == contract_address by {
            assert(actions[i] == fee_mint[i]);
        }
    }
}

/// What the messages mint in all.
pub open spec fn minted_total(actions: Seq<PaymentAction>) -> int
    decreases actions.len(),
{
    if actions.len() == 0 {
        0
    } else {
        minted_total(actions.drop_last()) + match actions.last() {
            PaymentAction::Mint { amount, .. } => amount as int,
            _ => 0int,
        }
    }
}

proof fn lemma_minted_total_concat(a: Seq<PaymentAction>, b: Seq<PaymentAction>)
    ensures
        minted_total(a + b) == minted_total(a) + minted_total(b),
    decreases b.len(),
{
    if b.len() == 0 {
        assert(a + b =~= a);
    } else {
        lemma_minted_total_concat(a, b.drop_last());
        assert((a + b).drop_last() =~= a + b.drop_last());
    }
}

/// Once enough relayers reported a payment of an XRPL originated token,
/// the bridge mints exactly the payment: the collected fee (to the bridge)
/// and what the recipient gets add up to the amount paid on XRPL.
pub proof fn lemma_xrpl_payment_mints_exactly_the_payment(
    bridge_state: BridgeState,
    token: XRPLToken,
    amount: u128,
    current_supply: u128,
    recipient: String,
    contract_address: String,
    memo: String,
    has_swap_entry_point: bool,
    rate_limit_key: Option<String>,
)
    requires
        xrpl_token_payment_result(
            bridge_state,
            token,
            amount,
            current_supply,
            recipient,
            contract_address,
            memo,
            has_swap_entry_point,
            rate_limit_key,
            true,
        ) is Ok,
    ensures
        minted_total(
            xrpl_token_payment_result(
                bridge_state,
                token,
                amount,
                current_supply,
                recipient,
                contract_address,
                memo,
                has_swap_entry_point,
                rate_limit_key,
                true,
            )->Ok_0.1,
        ) == amount,
{
    let a = receive_xrpl_token_result(token, amount, current_supply)->Ok_0;
    lemma_receive_xrpl_token_splits_amount(token, amount, current_supply);
    let fee = collected_fee_result(token.bridging_fee, a.remainder)->Ok_0;
    let swap = memo@.len() > 0 && has_swap_entry_point;
    let fee_mint = if fee == 0 {
        seq![]
    } else {
        seq![PaymentAction::Mint { denom: token.cosmos_denom, amount: fee, to: contract_address }]
    };
    assert(minted_total(Seq::<PaymentAction>::empty()) == 0);
    assert(minted_total(fee_mint) == fee) by {
        if fee != 0 {
            assert(fee_mint.drop_last() =~= Seq::<PaymentAction>::empty());
            assert(fee_mint.last() == PaymentAction::Mint {
                denom: token.cosmos_denom,
                amount: fee,
                to: contract_address,
            });
        }
    }
    let actions = xrpl_token_payment_actions_of(
        token.cosmos_denom,
        a,
        fee,
        recipient,
        contract_address,
        memo,
        swap,
        rate_limit_key,
    );
    if a.amount_to_send != 0 {
        let mint = seq![
            PaymentAction::Mint {
                denom: token.cosmos_denom,
                amount: a.amount_to_send,
                to: if swap {
                    contract_address
                } else {
                    recipient
                },
            },
        ];
        let rl = rate_limit_actions(rate_limit_key, a.rate_limit_amount);
        let sw = swap_actions(swap, memo, token.cosmos_denom, a.amount_to_send);
        assert(mint.drop_last() =~= Seq::<PaymentAction>::empty());
        assert(minted_total(rl) == 0) by {
            if let Some(k) = rate_limit_key {
                assert(rl.drop_last() =~= Seq::<PaymentAction>::empty());
                assert(rl.last() == PaymentAction::RateLimitReceive { key: k, amount: a.rate_limit_amount });
            }
        }
        assert(minted_total(sw) == 0) by {
            if sw.len() > 0 {
                assert(sw.drop_last() =~= Seq::<PaymentAction>::empty());
            }
        }
        lemma_minted_total_concat(fee_mint, mint);
        lemma_minted_total_concat(fee_mint + mint, rl);
        lemma_minted_total_concat(fee_mint + mint + rl, sw);
    }
}

} // verus!
