use cw_xrpl::bridge::BridgeState;
use cw_xrpl::error::ContractError;
use cw_xrpl::token::{set_token_state, update_cosmos_token, update_xrpl_token, CosmosToken, TokenState, XRPLToken};

const ISSUER: &str = "rLUEXYuLiQptky37CqLcm9USQpPiz5rkpD";

fn xrpl_token(state: TokenState) -> XRPLToken {
    XRPLToken {
        issuer: ISSUER.to_string(),
        currency: "USD".to_string(),
        cosmos_denom: "factory/orai1tf/XRPL0123456789".to_string(),
        sending_precision: 10,
        max_holding_amount: 1000,
        state,
        bridging_fee: 1,
    }
}

fn cosmos_token() -> CosmosToken {
    CosmosToken {
        denom: "utest".to_string(),
        decimals: 6,
        xrpl_currency: "USD".to_string(),
        sending_precision: 4,
        max_holding_amount: 5000,
        state: TokenState::Enabled,
        bridging_fee: 0,
    }
}

#[test]
fn token_states_update() {
    let mut state = TokenState::Enabled;
    set_token_state(&mut state, Some(TokenState::Disabled)).unwrap();
    assert_eq!(state, TokenState::Disabled);
    set_token_state(&mut state, None).unwrap();
    assert_eq!(state, TokenState::Disabled);
    assert_eq!(
        set_token_state(&mut state, Some(TokenState::Processing)),
        Err(ContractError::InvalidTargetTokenState {})
    );
    assert_eq!(state, TokenState::Disabled);

    let mut processing = TokenState::Processing;
    assert_eq!(
        set_token_state(&mut processing, Some(TokenState::Enabled)),
        Err(ContractError::TokenStateIsImmutable {})
    );
    let mut inactive = TokenState::Inactive;
    assert_eq!(
        set_token_state(&mut inactive, Some(TokenState::Enabled)),
        Err(ContractError::TokenStateIsImmutable {})
    );
    assert_eq!(inactive, TokenState::Inactive);
}

#[test]
fn xrpl_token_updates() {
    let mut token = xrpl_token(TokenState::Enabled);
    update_xrpl_token(BridgeState::Active, &mut token, Some(TokenState::Disabled), Some(-5), Some(7), Some(2000), 1500).unwrap();
    assert_eq!(token.state, TokenState::Disabled);
    assert_eq!(token.sending_precision, -5);
    assert_eq!(token.bridging_fee, 7);
    assert_eq!(token.max_holding_amount, 2000);

    // Nothing changes when an update is refused.
    assert_eq!(
        update_xrpl_token(BridgeState::Active, &mut token, Some(TokenState::Enabled), Some(16), Some(9), None, 0),
        Err(ContractError::InvalidSendingPrecision {})
    );
    assert_eq!(
        update_xrpl_token(BridgeState::Active, &mut token, Some(TokenState::Enabled), None, Some(9), Some(100), 1500),
        Err(ContractError::InvalidTargetMaxHoldingAmount {})
    );
    assert_eq!(token.state, TokenState::Disabled);
    assert_eq!(token.sending_precision, -5);
    assert_eq!(token.bridging_fee, 7);
    assert_eq!(token.max_holding_amount, 2000);

    let mut processing = xrpl_token(TokenState::Processing);
    assert_eq!(
        update_xrpl_token(BridgeState::Active, &mut processing, Some(TokenState::Enabled), None, None, None, 0),
        Err(ContractError::TokenStateIsImmutable {})
    );
}

#[test]
fn cosmos_token_updates() {
    let mut token = cosmos_token();
    update_cosmos_token(BridgeState::Active, &mut token, None, Some(-6), None, Some(6000), 5000).unwrap();
    assert_eq!(token.sending_precision, -6);
    assert_eq!(token.max_holding_amount, 6000);
    assert_eq!(token.state, TokenState::Enabled);
    // 6 decimals: a precision of -7 is refused.
    assert_eq!(
        update_cosmos_token(BridgeState::Active, &mut token, None, Some(-7), None, None, 0),
        Err(ContractError::InvalidSendingPrecision {})
    );
    assert_eq!(token.sending_precision, -6);
}

#[test]
fn token_updates_need_an_active_bridge() {
    let mut token = cosmos_token();
    assert_eq!(
        update_cosmos_token(BridgeState::Halted, &mut token, None, Some(-6), None, None, 0),
        Err(ContractError::BridgeHalted {})
    );
    assert_eq!(token.sending_precision, 4);
    let mut xrpl = xrpl_token(TokenState::Enabled);
    assert_eq!(
        update_xrpl_token(BridgeState::Halted, &mut xrpl, Some(TokenState::Disabled), None, None, None, 0),
        Err(ContractError::BridgeHalted {})
    );
    assert_eq!(xrpl.state, TokenState::Enabled);
}
