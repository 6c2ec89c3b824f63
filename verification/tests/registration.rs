use cw_xrpl::currency::{convert_currency_to_xrpl_hexadecimal, validate_xrpl_currency};
use cw_xrpl::error::ContractError;
use cw_xrpl::registration::{
    cosmos_token_xrpl_currency, full_denom, pending_xrpl_token, recover_xrpl_token_registration, register_cosmos_token,
    xrpl_token_subdenom, XRPLTokenRegistration,
};
use cw_xrpl::bridge::{BridgeConfig, BridgeState};
use cw_xrpl::operations::{OperationQueue, OperationType};
use cw_xrpl::token::{TokenState, XRPLToken};
use sha2::{Digest, Sha256};

const ISSUER: &str = "rLUEXYuLiQptky37CqLcm9USQpPiz5rkpD";

fn hash_prefix(input: &str) -> String {
    let digest = Sha256::digest(input.as_bytes());
    let hex: String = digest.iter().map(|b| format!("{:02x}", b)).collect();
    hex[0..10].to_string()
}

#[test]
fn cosmos_token_currency_is_derived_from_hash() {
    let currency = cosmos_token_xrpl_currency("utest", 6, 1_700_000_000);
    let expected =
        convert_currency_to_xrpl_hexadecimal(format!("cosmos{}", hash_prefix("utest61700000000")));
    assert_eq!(currency, expected);
    assert_eq!(currency.len(), 40);
    validate_xrpl_currency(&currency).unwrap();
    // Another time gives another currency.
    assert_ne!(currency, cosmos_token_xrpl_currency("utest", 6, 1_700_000_001));
}

#[test]
fn xrpl_token_subdenom_is_derived_from_hash() {
    let subdenom = xrpl_token_subdenom(ISSUER, "USD", 1_700_000_000);
    let expected = format!(
        "xrpl{}",
        hash_prefix(&format!("{}USD1700000000", ISSUER))
    )
    .to_uppercase();
    assert_eq!(subdenom, expected);
    assert!(subdenom.starts_with("XRPL"));
    assert_eq!(subdenom.len(), 14);
}

#[test]
fn registering_cosmos_tokens() {
    let token = register_cosmos_token(BridgeState::Active, "utest".to_string(), 6, 4, 5000, 10, 42, false, &vec![]).unwrap();
    assert_eq!(token.denom, "utest");
    assert_eq!(token.decimals, 6);
    assert_eq!(token.xrpl_currency, cosmos_token_xrpl_currency("utest", 6, 42));
    assert_eq!(token.sending_precision, 4);
    assert_eq!(token.max_holding_amount, 5000);
    assert_eq!(token.state, TokenState::Enabled);
    assert_eq!(token.bridging_fee, 10);

    assert_eq!(
        register_cosmos_token(BridgeState::Active, "utest".to_string(), 101, 4, 0, 0, 42, true, &vec![]).unwrap_err(),
        ContractError::InvalidDecimals {}
    );
    assert_eq!(
        register_cosmos_token(BridgeState::Active, "utest".to_string(), 6, 7, 0, 0, 42, true, &vec![]).unwrap_err(),
        ContractError::InvalidSendingPrecision {}
    );
    assert_eq!(
        register_cosmos_token(BridgeState::Active, "utest".to_string(), 6, 4, 0, 0, 42, true, &vec![]).unwrap_err(),
        ContractError::CosmosTokenAlreadyRegistered {
            denom: "utest".to_string()
        }
    );
    assert_eq!(
        register_cosmos_token(BridgeState::Active, "1test".to_string(), 6, 4, 0, 0, 42, false, &vec![]).unwrap_err(),
        ContractError::InvalidDenom {}
    );
    let in_use = vec![cosmos_token_xrpl_currency("utest", 6, 42)];
    assert_eq!(
        register_cosmos_token(BridgeState::Active, "utest".to_string(), 6, 4, 0, 0, 42, false, &in_use).unwrap_err(),
        ContractError::RegistrationFailure {}
    );
    // The currency of another registration time is free.
    assert!(register_cosmos_token(BridgeState::Active, "utest".to_string(), 6, 4, 0, 0, 43, false, &in_use).is_ok());
    assert_eq!(
        register_cosmos_token(BridgeState::Halted, "utest".to_string(), 6, 4, 0, 0, 43, false, &vec![]).unwrap_err(),
        ContractError::BridgeHalted {}
    );
}

const FACTORY: &str = "orai1tokenfactory";

fn config() -> BridgeConfig {
    BridgeConfig {
        relayers: vec![],
        evidence_threshold: 1,
        used_ticket_sequence_threshold: 4,
        trust_set_limit_amount: 1_000_000,
        bridge_xrpl_address: "rU6K7V3Po4snVhBBaU29sesqs2qTQJWDw1".to_string(),
        xrpl_base_fee: 10,
        token_factory_addr: FACTORY.to_string(),
        rate_limit_addr: None,
        osor_entry_point: None,
    }
}

fn queue(tickets: Vec<u64>) -> OperationQueue<String> {
    OperationQueue {
        available_tickets: tickets,
        pending_operations: vec![],
        pending_ticket_update: false,
        used_tickets_counter: 0,
    }
}

fn register(
    issuer: &str,
    currency: &str,
    precision: i32,
    prohibited: &Vec<String>,
    registered: bool,
    q: &mut OperationQueue<String>,
) -> Result<XRPLTokenRegistration, ContractError> {
    cw_xrpl::registration::register_xrpl_token(
        issuer.to_string(),
        currency.to_string(),
        precision,
        1000,
        3,
        7,
        &config(),
        prohibited,
        registered,
        &vec![],
        q,
        "op".to_string(),
    )
}

#[test]
fn register_xrpl_token() {
    let prohibited = vec!["rU6K7V3Po4snVhBBaU29sesqs2qTQJWDw1".to_string()];
    let mut q = queue(vec![5, 6, 7]);
    let r = register(ISSUER, "USD", 10, &prohibited, false, &mut q).unwrap();
    let subdenom = xrpl_token_subdenom(ISSUER, "USD", 7);
    let denom = full_denom(FACTORY, &subdenom);
    assert_eq!(denom, format!("factory/{}/{}", FACTORY, subdenom));
    assert_eq!(r.subdenom, subdenom);
    assert_eq!(r.ticket, 5);
    assert_eq!(r.token.issuer, ISSUER);
    assert_eq!(r.token.currency, "USD");
    assert_eq!(r.token.cosmos_denom, denom);
    assert_eq!(r.token.sending_precision, 10);
    assert_eq!(r.token.max_holding_amount, 1000);
    assert_eq!(r.token.state, TokenState::Processing);
    assert_eq!(r.token.bridging_fee, 3);
    // The first ticket went to the trust set operation.
    assert_eq!(q.available_tickets, vec![6, 7]);
    assert_eq!(q.pending_operations.len(), 1);
    let op = &q.pending_operations[0];
    assert_eq!((op.version, op.ticket_sequence, op.account_sequence, op.xrpl_base_fee), (1, Some(5), None, 10));
    assert!(op.signatures.is_empty());
    match &op.operation_type {
        OperationType::TrustSet { issuer, currency, trust_set_limit_amount } => {
            assert_eq!((issuer.as_str(), currency.as_str(), *trust_set_limit_amount), (ISSUER, "USD", 1_000_000));
        }
        other => panic!("unexpected operation {:?}", other),
    }

    assert_eq!(
        register("bad", "USD", 10, &prohibited, false, &mut q).err(),
        Some(ContractError::InvalidXRPLAddress {
            address: "bad".to_string()
        })
    );
    assert_eq!(
        register(&prohibited[0], "USD", 10, &prohibited, false, &mut q).err(),
        Some(ContractError::ProhibitedAddress {})
    );
    assert_eq!(
        register(ISSUER, "XRP", 10, &prohibited, false, &mut q).err(),
        Some(ContractError::InvalidXRPLCurrency {})
    );
    assert_eq!(
        register(ISSUER, "USD", 16, &prohibited, false, &mut q).err(),
        Some(ContractError::InvalidSendingPrecision {})
    );
    assert_eq!(
        register(ISSUER, "USD", 10, &prohibited, true, &mut q).err(),
        Some(ContractError::XRPLTokenAlreadyRegistered {
            issuer: ISSUER.to_string(),
            currency: "USD".to_string()
        })
    );
    // The denom derived for the token is already a registered Cosmos token's.
    assert_eq!(
        cw_xrpl::registration::register_xrpl_token(
            ISSUER.to_string(),
            "USD".to_string(),
            10,
            1000,
            3,
            7,
            &config(),
            &prohibited,
            false,
            &vec!["uother".to_string(), denom],
            &mut q,
            "op2".to_string(),
        )
        .err(),
        Some(ContractError::RegistrationFailure {})
    );
    assert_eq!(q.available_tickets, vec![6, 7]);

    // Without a usable ticket the registration fails and nothing changes, so
    // the same token registers once tickets exist.
    let mut last = queue(vec![9]);
    assert_eq!(
        register(ISSUER, "EUR", 10, &prohibited, false, &mut last).err(),
        Some(ContractError::LastTicketReserved {})
    );
    assert_eq!(last.available_tickets, vec![9]);
    assert!(last.pending_operations.is_empty());
    let mut none = queue(vec![]);
    assert_eq!(
        register(ISSUER, "EUR", 10, &prohibited, false, &mut none).err(),
        Some(ContractError::NoAvailableTickets {})
    );
    let mut refilled = queue(vec![9, 10]);
    assert_eq!(register(ISSUER, "EUR", 10, &prohibited, false, &mut refilled).unwrap().ticket, 9);
}

#[test]
fn full_denoms_name_the_token_factory() {
    assert_eq!(full_denom("orai1abc", "XRPL0123456789"), "factory/orai1abc/XRPL0123456789");
}

#[test]
fn recovering_xrpl_token_registration() {
    let mut token = XRPLToken {
        issuer: ISSUER.to_string(),
        currency: "USD".to_string(),
        cosmos_denom: "factory/orai1tf/XRPL0123456789".to_string(),
        sending_precision: 10,
        max_holding_amount: 100,
        state: TokenState::Inactive,
        bridging_fee: 1,
    };
    // Without a usable ticket the token stays inactive.
    let mut last = queue(vec![3]);
    assert_eq!(
        recover_xrpl_token_registration(&mut token, &config(), &mut last, "op".to_string()),
        Err(ContractError::LastTicketReserved {})
    );
    assert_eq!(token.state, TokenState::Inactive);
    let mut q = queue(vec![3, 4]);
    assert_eq!(recover_xrpl_token_registration(&mut token, &config(), &mut q, "op".to_string()), Ok(3));
    assert_eq!(token.state, TokenState::Processing);
    assert_eq!(q.available_tickets, vec![4]);
    assert!(matches!(q.pending_operations[0].operation_type, OperationType::TrustSet { .. }));
    assert_eq!(
        recover_xrpl_token_registration(&mut token, &config(), &mut q, "op".to_string()),
        Err(ContractError::XRPLTokenNotInactive {})
    );
    assert_eq!(token.state, TokenState::Processing);
}

#[test]
fn new_xrpl_tokens_are_processing() {
    let token = pending_xrpl_token(
        ISSUER.to_string(),
        "USD".to_string(),
        "factory/orai1tf/XRPL0123456789".to_string(),
        10,
        1000,
        5,
    );
    assert_eq!(token.state, TokenState::Processing);
    assert_eq!(token.issuer, ISSUER);
    assert_eq!(token.currency, "USD");
    assert_eq!(token.cosmos_denom, "factory/orai1tf/XRPL0123456789");
    assert_eq!(token.sending_precision, 10);
    assert_eq!(token.max_holding_amount, 1000);
    assert_eq!(token.bridging_fee, 5);
}
