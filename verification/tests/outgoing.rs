use cw_xrpl::actions::PaymentAction;
use cw_xrpl::bridge::{BridgeConfig, BridgeState};
use cw_xrpl::error::ContractError;
use cw_xrpl::operations::{OperationQueue, OperationType};
use cw_xrpl::outgoing::{send_cosmos_token_to_xrpl, send_xrpl_token_to_xrpl};
use cw_xrpl::token::{build_xrpl_token_key, CosmosToken, TokenState, XRPLToken, XRP_CURRENCY, XRP_ISSUER};

const BRIDGE: &str = "rU6K7V3Po4snVhBBaU29sesqs2qTQJWDw1";
const ISSUER: &str = "rLUEXYuLiQptky37CqLcm9USQpPiz5rkpD";
const RECIPIENT: &str = "rnATJKpFCsFGfEvMC3uVWHvCEJrh5QMuYE";

fn config(rate_limit: bool) -> BridgeConfig {
    BridgeConfig {
        relayers: vec![],
        evidence_threshold: 1,
        used_ticket_sequence_threshold: 4,
        trust_set_limit_amount: 1_000_000,
        bridge_xrpl_address: BRIDGE.to_string(),
        xrpl_base_fee: 10,
        token_factory_addr: "orai1tf".to_string(),
        rate_limit_addr: if rate_limit { Some("orai1ratelimit".to_string()) } else { None },
        osor_entry_point: None,
    }
}

fn queue(tickets: Vec<u64>) -> OperationQueue<String> {
    OperationQueue {
        available_tickets: tickets,
        pending_operations: vec![],
        pending_ticket_update: false,
        used_tickets_counter: 0,
    }
}

fn xrpl_token(issuer: &str, currency: &str, sending_precision: i32, bridging_fee: u128) -> XRPLToken {
    XRPLToken {
        issuer: issuer.to_string(),
        currency: currency.to_string(),
        cosmos_denom: "factory/orai1tf/XRPL0123456789".to_string(),
        sending_precision,
        max_holding_amount: u128::MAX,
        state: TokenState::Enabled,
        bridging_fee,
    }
}

fn prohibited() -> Vec<String> {
    vec![BRIDGE.to_string()]
}

#[test]
fn sending_xrpl_tokens_stores_a_transfer_operation() {
    let token = xrpl_token(ISSUER, "USD", 10, 50_000);
    let mut q = queue(vec![4, 5]);
    let out = send_xrpl_token_to_xrpl(
        BridgeState::Active,
        &config(false),
        &prohibited(),
        &token,
        1_000_000_000_020_000,
        None,
        "orai1sender".to_string(),
        RECIPIENT.to_string(),
        &mut q,
        "op".to_string(),
    )
    .unwrap();
    assert_eq!(out.amounts.amount_to_send, 999_999_999_900_000);
    assert_eq!(out.amounts.max_amount, Some(999_999_999_900_000));
    assert_eq!(out.fee_collected, 50_000 + 70_000);
    assert_eq!(out.ticket, 4);
    assert!(out.rate_limit.is_none());
    assert_eq!(q.available_tickets, vec![5]);
    let op = &q.pending_operations[0];
    assert_eq!((op.version, op.ticket_sequence, op.account_sequence, op.xrpl_base_fee), (1, Some(4), None, 10));
    assert!(op.signatures.is_empty());
    match &op.operation_type {
        OperationType::CosmosToXRPLTransfer { issuer, currency, amount, max_amount, sender, recipient } => {
            assert_eq!(issuer, ISSUER);
            assert_eq!(currency, "USD");
            assert_eq!(*amount, 999_999_999_900_000);
            assert_eq!(*max_amount, Some(999_999_999_900_000));
            assert_eq!(sender, "orai1sender");
            assert_eq!(recipient, RECIPIENT);
        }
        other => panic!("unexpected operation {:?}", other),
    }
}

#[test]
fn refused_transfers_change_nothing() {
    let token = xrpl_token(ISSUER, "USD", 10, 0);
    let send = |state: BridgeState, recipient: &str, q: &mut OperationQueue<String>| {
        send_xrpl_token_to_xrpl(
            state,
            &config(true),
            &prohibited(),
            &token,
            1_000_000,
            None,
            "orai1sender".to_string(),
            recipient.to_string(),
            q,
            "op".to_string(),
        )
        .err()
    };
    let mut q = queue(vec![4, 5]);
    assert_eq!(send(BridgeState::Halted, RECIPIENT, &mut q), Some(ContractError::BridgeHalted {}));
    assert_eq!(
        send(BridgeState::Active, "rBad", &mut q),
        Some(ContractError::InvalidXRPLAddress { address: "rBad".to_string() })
    );
    assert_eq!(send(BridgeState::Active, BRIDGE, &mut q), Some(ContractError::ProhibitedAddress {}));
    assert_eq!(q.available_tickets, vec![4, 5]);
    let mut last = queue(vec![4]);
    assert_eq!(send(BridgeState::Active, RECIPIENT, &mut last), Some(ContractError::LastTicketReserved {}));
    let mut empty = queue(vec![]);
    assert_eq!(send(BridgeState::Active, RECIPIENT, &mut empty), Some(ContractError::NoAvailableTickets {}));
    assert!(empty.pending_operations.is_empty());
}

#[test]
fn send_from_cosmos_to_xrp_with_rate_limit() {
    let token = xrpl_token(XRP_ISSUER, XRP_CURRENCY, 6, 0);
    let mut q = queue(vec![1, 2]);
    let out = send_xrpl_token_to_xrpl(
        BridgeState::Active,
        &config(true),
        &prohibited(),
        &token,
        10_000,
        None,
        "orai1sender".to_string(),
        RECIPIENT.to_string(),
        &mut q,
        "op".to_string(),
    )
    .unwrap();
    assert_eq!(out.amounts.max_amount, None);
    assert_eq!(
        out.rate_limit,
        Some(PaymentAction::RateLimitSend { key: build_xrpl_token_key(XRP_ISSUER, XRP_CURRENCY), amount: 10_000 })
    );
    assert_eq!(build_xrpl_token_key(XRP_ISSUER, XRP_CURRENCY), format!("{}{}", XRP_ISSUER, XRP_CURRENCY));
}

#[test]
fn sending_cosmos_tokens_with_rate_limit() {
    let token = CosmosToken {
        denom: "utest".to_string(),
        decimals: 6,
        xrpl_currency: "434F534D4F530000000000000000000000000000".to_string(),
        sending_precision: 5,
        max_holding_amount: 10_000_000,
        state: TokenState::Enabled,
        bridging_fee: 0,
    };
    let mut q = queue(vec![1, 2]);
    let out = send_cosmos_token_to_xrpl(
        BridgeState::Active,
        &config(true),
        &prohibited(),
        &token,
        1_000_001,
        None,
        1_000_001,
        "orai1sender".to_string(),
        RECIPIENT.to_string(),
        &mut q,
        "op".to_string(),
    )
    .unwrap();
    assert_eq!(out.amounts.amount_to_send, 1_000_000_000_000_000);
    assert_eq!(out.fee_collected, 1);
    assert_eq!(
        out.rate_limit,
        Some(PaymentAction::RateLimitSend { key: format!("{}{}", BRIDGE, token.xrpl_currency), amount: 1_000_000 })
    );
    match &q.pending_operations[0].operation_type {
        OperationType::CosmosToXRPLTransfer { issuer, currency, .. } => {
            assert_eq!(issuer, BRIDGE);
            assert_eq!(currency, &token.xrpl_currency);
        }
        other => panic!("unexpected operation {:?}", other),
    }
}
