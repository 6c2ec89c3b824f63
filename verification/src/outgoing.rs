//! Transfers to XRPL: what sending coins to the bridge stores and sends once
//! the amounts are computed.
use vstd::prelude::*;
use crate::actions::{collected_fee, collected_fee_result, PaymentAction};
use crate::address::{is_valid_xrpl_address, validate_xrpl_address};
use crate::amount::{conversion_defined, truncation_defined};
use crate::bridge::{assert_bridge_active, string_views, BridgeConfig, BridgeState};
use crate::error::ContractError;
use crate::operations::{same_queue, takes_ticket_for, ticketed_operation_error, OperationQueue, OperationType};
use crate::token::{build_xrpl_token_key, xrpl_token_decimals, xrpl_token_key_of, CosmosToken, XRPLToken, XRPL_TOKENS_DECIMALS};
use crate::transfers::{
    send_cosmos_token_amounts, send_cosmos_token_result, send_xrpl_token_amounts, send_xrpl_token_result,
    SendToXRPLAmounts,
};

verus! {

/// A transfer to XRPL as accepted: its amounts, the fee collected for the
/// relayers, the ticket of its pending operation, and the rate limit message
/// where a rate limiter is configured.
pub struct OutgoingTransfer {
    pub amounts: SendToXRPLAmounts,
    pub fee_collected: u128,
    pub ticket: u64,
    pub rate_limit: Option<PaymentAction>,
}

/// The transfer operation paying `amounts` of the token on XRPL.
pub open spec fn transfer_operation(
    issuer: String,
    currency: String,
    amounts: SendToXRPLAmounts,
    sender: String,
    recipient: String,
) -> OperationType {
    OperationType::CosmosToXRPLTransfer {
        issuer,
        currency,
        amount: amounts.amount_to_send,
        max_amount: amounts.max_amount,
        sender,
        recipient,
    }
}

/// `o` records an accepted transfer of `amounts` of the token (`issuer`,
/// `currency`): `fee` collected, the first ticket given to its transfer
/// operation, and the coins sent counted against the rate limit under the
/// token's key where a rate limiter is configured.
pub open spec fn is_outgoing_transfer<Sig>(
    o: OutgoingTransfer,
    before: OperationQueue<Sig>,
    after: OperationQueue<Sig>,
    config: BridgeConfig,
    operation_id: Seq<char>,
    issuer: String,
    currency: String,
    amounts: SendToXRPLAmounts,
    fee: u128,
    sender: String,
    recipient: String,
) -> bool {
    &&& o.amounts == amounts
    &&& o.fee_collected == fee
    &&& o.ticket == before.available_tickets@[0]
    &&& takes_ticket_for(
        before,
        after,
        operation_id,
        transfer_operation(issuer, currency, amounts, sender, recipient),
        config.xrpl_base_fee,
    )
    &&& (config.rate_limit_addr is None <==> o.rate_limit is None)
    &&& o.rate_limit matches Some(m) ==> (m matches PaymentAction::RateLimitSend { key, amount }
        && key@ == xrpl_token_key_of(issuer@, currency@) && amount == amounts.increase_limit_amount)
}

/// Why a transfer with computed `amounts` is refused after them, if it is:
/// the collected fee does not fit, or no ticket can be given to it.
pub open spec fn finish_error<Sig>(
    queue: OperationQueue<Sig>,
    bridging_fee: u128,
    amounts: SendToXRPLAmounts,
) -> Option<ContractError> {
    match collected_fee_result(bridging_fee, amounts.remainder) {
        Err(e) => Some(e),
        Ok(_) => ticketed_operation_error(queue.available_tickets@, queue.pending_operations@),
    }
}

fn finish_transfer<Sig>(
    config: &BridgeConfig,
    queue: &mut OperationQueue<Sig>,
    operation_id: String,
    amounts: SendToXRPLAmounts,
    bridging_fee: u128,
    issuer: String,
    currency: String,
    sender: String,
    recipient: String,
) -> (res: Result<OutgoingTransfer, ContractError>)
    ensures
        match finish_error(*old(queue), bridging_fee, amounts) {
            Some(e) => res == Err::<OutgoingTransfer, ContractError>(e) && same_queue(
                *old(queue),
                *final(queue),
            ),
            None => res matches Ok(o) && is_outgoing_transfer(
                o,
                *old(queue),
                *final(queue),
                *config,
                operation_id@,
                issuer,
                currency,
                amounts,
                collected_fee_result(bridging_fee, amounts.remainder)->Ok_0,
                sender,
                recipient,
            ),
        },
{
    let fee = collected_fee(bridging_fee, amounts.remainder)?;
    let key = build_xrpl_token_key(issuer.as_str(), currency.as_str());
    let ticket = queue.create_ticketed_operation(
        operation_id,
        OperationType::CosmosToXRPLTransfer {
            issuer,
            currency,
            amount: amounts.amount_to_send,
            max_amount: amounts.max_amount,
            sender,
            recipient,
        },
        config.xrpl_base_fee,
    )?;
    let rate_limit = match &config.rate_limit_addr {
        Some(_) => Some(PaymentAction::RateLimitSend { key, amount: amounts.increase_limit_amount }),
        None => None,
    };
    Ok(OutgoingTransfer { amounts, fee_collected: fee, ticket, rate_limit })
}

/// The checks on a transfer to XRPL before its token is looked at: the
/// bridge is active and the recipient a valid XRPL address that is not
/// prohibited.
pub open spec fn recipient_accepted(
    bridge_state: BridgeState,
    prohibited: Seq<Seq<char>>,
    recipient: Seq<char>,
) -> bool {
    &&& bridge_state == BridgeState::Active
    &&& is_valid_xrpl_address(recipient)
    &&& !prohibited.contains(recipient)
}

/// `e` is the error for a transfer whose recipient check fails.
pub open spec fn is_recipient_error(
    e: ContractError,
    bridge_state: BridgeState,
    recipient: Seq<char>,
) -> bool {
    if bridge_state != BridgeState::Active {
        e == (ContractError::BridgeHalted {  })
    } else if !is_valid_xrpl_address(recipient) {
        e matches ContractError::InvalidXRPLAddress { address: a } && a@ == recipient
    } else {
        e == (ContractError::ProhibitedAddress {  })
    }
}

fn check_recipient(bridge_state: BridgeState, prohibited_xrpl_addresses: &Vec<String>, recipient: &String) -> (res:
    Result<(), ContractError>)
    ensures
        res is Ok <==> recipient_accepted(
            bridge_state,
            string_views(prohibited_xrpl_addresses@),
            recipient@,
        ),
        res matches Err(e) ==> is_recipient_error(e, bridge_state, recipient@),
{
    assert_bridge_active(bridge_state)?;
    assert(string_views(prohibited_xrpl_addresses@) =~= prohibited_xrpl_addresses@.map_values(
        |s: String| s@,
    ));
    validate_xrpl_address(prohibited_xrpl_addresses, recipient)
}

/// Sends coins of an XRPL originated token back to XRPL: the recipient is
/// checked, the amounts computed (see `send_xrpl_token_amounts`), the fee
/// collected, and the first available ticket given to the transfer
/// operation, paying the token's issuer and currency from `sender` to
/// `recipient`. Nothing changes when it is refused.
pub fn send_xrpl_token_to_xrpl<Sig>(
    bridge_state: BridgeState,
    config: &BridgeConfig,
    prohibited_xrpl_addresses: &Vec<String>,
    token: &XRPLToken,
    funds: u128,
    deliver_amount: Option<u128>,
    sender: String,
    recipient: String,
    queue: &mut OperationQueue<Sig>,
    operation_id: String,
) -> (res: Result<OutgoingTransfer, ContractError>)
    requires
        truncation_defined(
            token.sending_precision,
            xrpl_token_decimals(token.issuer@, token.currency@),
        ),
    ensures
        !recipient_accepted(bridge_state, string_views(prohibited_xrpl_addresses@), recipient@)
            ==> (res matches Err(e) && is_recipient_error(e, bridge_state, recipient@)),
        recipient_accepted(bridge_state, string_views(prohibited_xrpl_addresses@), recipient@) ==> match
        send_xrpl_token_result(*token, funds, deliver_amount) {
            Err(e) => res == Err::<OutgoingTransfer, ContractError>(e),
            Ok(a) => match finish_error(*old(queue), token.bridging_fee, a) {
                Some(e) => res == Err::<OutgoingTransfer, ContractError>(e),
                None => res matches Ok(o) && is_outgoing_transfer(
                    o,
                    *old(queue),
                    *final(queue),
                    *config,
                    operation_id@,
                    token.issuer,
                    token.currency,
                    a,
                    collected_fee_result(token.bridging_fee, a.remainder)->Ok_0,
                    sender,
                    recipient,
                ),
            },
        },
        res is Err ==> same_queue(*old(queue), *final(queue)),
{
    check_recipient(bridge_state, prohibited_xrpl_addresses, &recipient)?;
    let amounts = send_xrpl_token_amounts(token, funds, deliver_amount)?;
    finish_transfer(
        config,
        queue,
        operation_id,
        amounts,
        token.bridging_fee,
        token.issuer.clone(),
        token.currency.clone(),
        sender,
        recipient,
    )
}

/// Sends coins of a Cosmos originated token to XRPL: as for an XRPL
/// originated token, with the amounts of `send_cosmos_token_amounts`; the
/// token is paid on XRPL under the bridge's address as issuer and its XRPL
/// currency. `bridge_balance` is what the bridge holds of the token once the
/// coins are received.
pub fn send_cosmos_token_to_xrpl<Sig>(
    bridge_state: BridgeState,
    config: &BridgeConfig,
    prohibited_xrpl_addresses: &Vec<String>,
    token: &CosmosToken,
    funds: u128,
    deliver_amount: Option<u128>,
    bridge_balance: u128,
    sender: String,
    recipient: String,
    queue: &mut OperationQueue<Sig>,
    operation_id: String,
) -> (res: Result<OutgoingTransfer, ContractError>)
    requires
        truncation_defined(token.sending_precision, token.decimals),
        conversion_defined(token.decimals, XRPL_TOKENS_DECIMALS),
    ensures
        !recipient_accepted(bridge_state, string_views(prohibited_xrpl_addresses@), recipient@)
            ==> (res matches Err(e) && is_recipient_error(e, bridge_state, recipient@)),
        recipient_accepted(bridge_state, string_views(prohibited_xrpl_addresses@), recipient@) ==> match
        send_cosmos_token_result(*token, funds, deliver_amount, bridge_balance) {
            Err(e) => res == Err::<OutgoingTransfer, ContractError>(e),
            Ok(a) => match finish_error(*old(queue), token.bridging_fee, a) {
                Some(e) => res == Err::<OutgoingTransfer, ContractError>(e),
                None => res matches Ok(o) && is_outgoing_transfer(
                    o,
                    *old(queue),
                    *final(queue),
                    *config,
                    operation_id@,
                    config.bridge_xrpl_address,
                    token.xrpl_currency,
                    a,
                    collected_fee_result(token.bridging_fee, a.remainder)->Ok_0,
                    sender,
                    recipient,
                ),
            },
        },
        res is Err ==> same_queue(*old(queue), *final(queue)),
{
    check_recipient(bridge_state, prohibited_xrpl_addresses, &recipient)?;
    let amounts = send_cosmos_token_amounts(token, funds, deliver_amount, bridge_balance)?;
    finish_transfer(
        config,
        queue,
        operation_id,
        amounts,
        token.bridging_fee,
        config.bridge_xrpl_address.clone(),
        token.xrpl_currency.clone(),
        sender,
        recipient,
    )
}

} // verus!
