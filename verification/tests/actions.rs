use cw_xrpl::actions::{
    collected_fee, cosmos_token_payment_actions, create_cosmos_token, handle_cosmos_token_payment,
    handle_xrpl_token_payment, mint_cosmos_token, reply_refunds_swap, xrpl_token_payment_actions, InitialBalance, PaymentAction,
    UNIVERSAL_SWAP_ERROR_ID,
};
use cw_xrpl::bridge::BridgeState;
use cw_xrpl::error::{ContractError, OverflowError, OverflowOperation};
use cw_xrpl::token::{CosmosToken, TokenState, XRPLToken};
use cw_xrpl::transfers::{receive_cosmos_token_amounts, receive_xrpl_token_amounts, XRPLToCosmosAmounts};

const ISSUER: &str = "rLUEXYuLiQptky37CqLcm9USQpPiz5rkpD";
const CONTRACT: &str = "orai1bridge";
const RECIPIENT: &str = "orai1recipient";

fn xrpl_token(bridging_fee: u128) -> XRPLToken {
    XRPLToken {
        issuer: ISSUER.to_string(),
        currency: "USD".to_string(),
        cosmos_denom: "factory/orai1tf/XRPL0123456789".to_string(),
        sending_precision: 10,
        max_holding_amount: 1_000_000_000_000_000_000,
        state: TokenState::Enabled,
        bridging_fee,
    }
}

fn cosmos_token(bridging_fee: u128) -> CosmosToken {
    CosmosToken {
        denom: "utest".to_string(),
        decimals: 6,
        xrpl_currency: "USD".to_string(),
        sending_precision: 4,
        max_holding_amount: 5000,
        state: TokenState::Enabled,
        bridging_fee,
    }
}

#[test]
fn creating_cosmos_tokens_uppercases_the_subdenom() {
    let balances = vec![
        InitialBalance { address: "orai1a".to_string(), amount: 10 },
        InitialBalance { address: "orai1b".to_string(), amount: 20 },
    ];
    let creation = create_cosmos_token("orai1tf", "usdt", &balances);
    assert_eq!(creation.subdenom, "USDT");
    assert_eq!(creation.denom, "factory/orai1tf/USDT");
    assert_eq!(creation.mints.len(), 2);
    assert_eq!(creation.mints[0].denom, "factory/orai1tf/USDT");
    assert_eq!(creation.mints[0].amount, 10);
    assert_eq!(creation.mints[0].mint_to_address, "orai1a");
    assert_eq!(creation.mints[1].amount, 20);
    assert_eq!(creation.mints[1].mint_to_address, "orai1b");
    assert!(create_cosmos_token("orai1tf", "usdt", &vec![]).mints.is_empty());
}

#[test]
fn minting_cosmos_tokens() {
    let balances = vec![InitialBalance { address: "orai1a".to_string(), amount: 7 }];
    let mints = mint_cosmos_token("factory/orai1tf/USDT", &balances);
    assert_eq!(mints.len(), 1);
    assert_eq!(mints[0].denom, "factory/orai1tf/USDT");
    assert_eq!(mints[0].amount, 7);
    assert_eq!(mints[0].mint_to_address, "orai1a");
}

#[test]
fn collected_fees() {
    assert_eq!(collected_fee(3, 4), Ok(7));
    assert_eq!(
        collected_fee(u128::MAX, 1),
        Err(ContractError::OverflowError(OverflowError {
            operation: OverflowOperation::Add,
            operand1: u128::MAX,
            operand2: 1
        }))
    );
}

#[test]
fn xrpl_token_payments_mint_fee_and_amount() {
    let token = xrpl_token(100);
    // 15 decimals, precision 10: the last 5 digits are truncated.
    let amounts = receive_xrpl_token_amounts(&token, 1_234_567, 0).unwrap();
    assert_eq!(amounts.amount_to_send, 1_200_000);
    assert_eq!(amounts.remainder, 34_467);
    let (fee, actions) = xrpl_token_payment_actions(
        &token,
        &amounts,
        RECIPIENT.to_string(),
        CONTRACT.to_string(),
        String::new(),
        false,
        Some("key".to_string()),
    )
    .unwrap();
    assert_eq!(fee, 34_567);
    assert_eq!(
        actions,
        vec![
            PaymentAction::Mint { denom: token.cosmos_denom.clone(), amount: 34_567, to: CONTRACT.to_string() },
            PaymentAction::Mint { denom: token.cosmos_denom.clone(), amount: 1_200_000, to: RECIPIENT.to_string() },
            PaymentAction::RateLimitReceive { key: "key".to_string(), amount: 1_200_000 },
        ]
    );
    assert_eq!(fee + amounts.amount_to_send, 1_234_567);
}

#[test]
fn xrpl_token_payments_through_a_swap() {
    let token = xrpl_token(0);
    let amounts = XRPLToCosmosAmounts { amount_to_send: 500_000, remainder: 0, rate_limit_amount: 500_000 };
    let (fee, actions) = xrpl_token_payment_actions(
        &token,
        &amounts,
        RECIPIENT.to_string(),
        CONTRACT.to_string(),
        "swap".to_string(),
        true,
        None,
    )
    .unwrap();
    assert_eq!(fee, 0);
    assert_eq!(
        actions,
        vec![
            PaymentAction::Mint { denom: token.cosmos_denom.clone(), amount: 500_000, to: CONTRACT.to_string() },
            PaymentAction::UniversalSwap { memo: "swap".to_string(), denom: token.cosmos_denom.clone(), amount: 500_000 },
        ]
    );
    // Nothing left to send: only the fee is minted.
    let amounts = XRPLToCosmosAmounts { amount_to_send: 0, remainder: 9, rate_limit_amount: 0 };
    let (_, actions) = xrpl_token_payment_actions(
        &token,
        &amounts,
        RECIPIENT.to_string(),
        CONTRACT.to_string(),
        "swap".to_string(),
        true,
        Some("key".to_string()),
    )
    .unwrap();
    assert_eq!(
        actions,
        vec![PaymentAction::Mint { denom: token.cosmos_denom.clone(), amount: 9, to: CONTRACT.to_string() }]
    );
}

#[test]
fn cosmos_token_payments_release_from_escrow() {
    let token = cosmos_token(10);
    // 1 of a 15 decimals XRPL amount is 1 of the 6 decimals token.
    let amounts = receive_cosmos_token_amounts(&token, 1_234_567_000_000_000).unwrap();
    let (fee, actions) = cosmos_token_payment_actions(
        &token,
        &amounts,
        RECIPIENT.to_string(),
        String::new(),
        false,
        Some("key".to_string()),
    )
    .unwrap();
    assert_eq!(amounts.rate_limit_amount, 1_234_567);
    assert_eq!(amounts.amount_to_send, 1_234_500);
    assert_eq!(fee, 67);
    assert_eq!(
        actions,
        vec![
            PaymentAction::Send { denom: "utest".to_string(), amount: 1_234_500, to: RECIPIENT.to_string() },
            PaymentAction::RateLimitReceive { key: "key".to_string(), amount: 1_234_567 },
        ]
    );
    let (_, actions) = cosmos_token_payment_actions(&token, &amounts, RECIPIENT.to_string(), "m".to_string(), true, None)
        .unwrap();
    assert_eq!(
        actions,
        vec![PaymentAction::UniversalSwap { memo: "m".to_string(), denom: "utest".to_string(), amount: 1_234_500 }]
    );
    let overflowing = XRPLToCosmosAmounts { amount_to_send: 0, remainder: u128::MAX, rate_limit_amount: 0 };
    assert!(cosmos_token_payment_actions(&token, &overflowing, RECIPIENT.to_string(), String::new(), false, None)
        .is_err());
}

#[test]
fn handling_xrpl_token_payments() {
    let token = xrpl_token(100);
    let handle = |state: BridgeState, amount: u128, recipient: &str, supply: u128, reached: bool| {
        handle_xrpl_token_payment(
            state,
            &token,
            amount,
            supply,
            recipient.to_string(),
            CONTRACT.to_string(),
            "memo".to_string(),
            true,
            None,
            reached,
        )
    };
    assert_eq!(handle(BridgeState::Active, 0, RECIPIENT, 0, true), Err(ContractError::InvalidAmount {}));
    assert_eq!(handle(BridgeState::Halted, 5, RECIPIENT, 0, true), Err(ContractError::BridgeHalted {}));
    assert_eq!(handle(BridgeState::Active, 5, CONTRACT, 0, true), Err(ContractError::ProhibitedAddress {}));
    assert_eq!(
        handle(BridgeState::Active, 1_234_567, RECIPIENT, token.max_holding_amount, false),
        Err(ContractError::MaximumBridgedAmountReached {})
    );
    // Before the threshold is reached nothing is sent.
    assert_eq!(handle(BridgeState::Active, 1_234_567, RECIPIENT, 0, false), Ok((0, vec![])));
    let (fee, actions) = handle(BridgeState::Active, 1_234_567, RECIPIENT, 0, true).unwrap();
    assert_eq!(fee, 34_567);
    assert_eq!(
        actions,
        vec![
            PaymentAction::Mint { denom: token.cosmos_denom.clone(), amount: 34_567, to: CONTRACT.to_string() },
            PaymentAction::Mint { denom: token.cosmos_denom.clone(), amount: 1_200_000, to: CONTRACT.to_string() },
            PaymentAction::UniversalSwap {
                memo: "memo".to_string(),
                denom: token.cosmos_denom.clone(),
                amount: 1_200_000
            },
        ]
    );
}

#[test]
fn handling_cosmos_token_payments() {
    let token = cosmos_token(10);
    let (fee, actions) = handle_cosmos_token_payment(
        BridgeState::Active,
        &token,
        1_234_567_000_000_000,
        RECIPIENT.to_string(),
        CONTRACT.to_string(),
        String::new(),
        true,
        None,
        true,
    )
    .unwrap();
    assert_eq!(fee, 67);
    assert_eq!(
        actions,
        vec![PaymentAction::Send { denom: "utest".to_string(), amount: 1_234_500, to: RECIPIENT.to_string() }]
    );
    let mut disabled = cosmos_token(10);
    disabled.state = TokenState::Disabled;
    assert_eq!(
        handle_cosmos_token_payment(
            BridgeState::Active,
            &disabled,
            1_000_000_000,
            RECIPIENT.to_string(),
            CONTRACT.to_string(),
            String::new(),
            false,
            None,
            true,
        ),
        Err(ContractError::TokenNotEnabled {})
    );
}

#[test]
fn replies_refund_failed_swaps() {
    assert_eq!(reply_refunds_swap(UNIVERSAL_SWAP_ERROR_ID, true), Ok(true));
    assert_eq!(reply_refunds_swap(UNIVERSAL_SWAP_ERROR_ID, false), Ok(false));
    assert_eq!(reply_refunds_swap(7, false), Ok(false));
    assert_eq!(reply_refunds_swap(7, true), Err(ContractError::UnknownReplyId { id: 7 }));
}
