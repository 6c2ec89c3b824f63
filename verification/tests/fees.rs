use cw_xrpl::bridge::BridgeState;
use cw_xrpl::error::ContractError;
use cw_xrpl::error::{OverflowError, OverflowOperation};
use cw_xrpl::fees::{add_fee, claim_pending_refund, claim_relayer_fees, split_collected_fee, Coin};
use cw_xrpl::tickets::allocate_ticket;

fn coin(amount: u128, denom: &str) -> Coin {
    Coin { denom: denom.to_string(), amount }
}

fn amounts(fees: &Option<Vec<Coin>>) -> Vec<(String, u128)> {
    fees.as_ref().unwrap().iter().map(|c| (c.denom.clone(), c.amount)).collect()
}

#[test]
fn claiming_relayer_fees() {
    let mut fees = Some(vec![coin(176666, "xrpl"), coin(300006, "utest")]);
    let err = claim_relayer_fees(BridgeState::Active, &mut fees, &vec![coin(176666, "xrpl"), coin(300007, "utest")])
        .unwrap_err();
    assert_eq!(err, ContractError::NotEnoughFeesToClaim { denom: "utest".to_string(), amount: 300007 });
    // Claims of one denom add up.
    let err = claim_relayer_fees(
        BridgeState::Active,
        &mut fees,
        &vec![coin(176666, "xrpl"), coin(300006, "utest"), coin(1, "utest")],
    )
    .unwrap_err();
    assert_eq!(err, ContractError::NotEnoughFeesToClaim { denom: "utest".to_string(), amount: 1 });
    // Nothing was taken by the refused claims.
    assert_eq!(amounts(&fees), vec![("xrpl".to_string(), 176666), ("utest".to_string(), 300006)]);

    claim_relayer_fees(BridgeState::Active, &mut fees, &vec![coin(176666, "xrpl"), coin(300005, "utest")]).unwrap();
    assert_eq!(amounts(&fees), vec![("utest".to_string(), 1)]);

    let err = claim_relayer_fees(BridgeState::Active, &mut fees, &vec![coin(1, "xrpl")]).unwrap_err();
    assert_eq!(err, ContractError::NotEnoughFeesToClaim { denom: "xrpl".to_string(), amount: 1 });
    claim_relayer_fees(BridgeState::Active, &mut fees, &vec![coin(1, "utest")]).unwrap();
    assert!(amounts(&fees).is_empty());
}

#[test]
fn claiming_fees_needs_an_active_bridge_and_collected_fees() {
    let mut fees = Some(vec![coin(5, "utest")]);
    assert_eq!(
        claim_relayer_fees(BridgeState::Halted, &mut fees, &vec![coin(1, "utest")]),
        Err(ContractError::BridgeHalted {})
    );
    let mut none: Option<Vec<Coin>> = None;
    assert_eq!(
        claim_relayer_fees(BridgeState::Active, &mut none, &vec![]),
        Err(ContractError::UnauthorizedSender {})
    );
}

#[test]
fn claiming_pending_refunds() {
    let refund = claim_pending_refund(BridgeState::Active, Some(coin(9, "utest"))).unwrap();
    assert_eq!((refund.denom.as_str(), refund.amount), ("utest", 9));
    assert_eq!(
        claim_pending_refund(BridgeState::Active, None).unwrap_err(),
        ContractError::PendingRefundNotFound {}
    );
    assert_eq!(
        claim_pending_refund(BridgeState::Halted, Some(coin(9, "utest"))).unwrap_err(),
        ContractError::BridgeHalted {}
    );
}

#[test]
fn allocating_tickets() {
    let mut tickets = vec![5, 6, 7];
    assert_eq!(allocate_ticket(&mut tickets), Ok(5));
    assert_eq!(tickets, vec![6, 7]);
    assert_eq!(allocate_ticket(&mut tickets), Ok(6));
    assert_eq!(allocate_ticket(&mut tickets), Err(ContractError::LastTicketReserved {}));
    assert_eq!(tickets, vec![7]);
    let mut empty: Vec<u64> = vec![];
    assert_eq!(allocate_ticket(&mut empty), Err(ContractError::NoAvailableTickets {}));
}

#[test]
fn collected_fees_are_split_among_relayers() {
    // 300010 collected with 1 left over from before, among 3 relayers.
    assert_eq!(split_collected_fee(300010, 1, 3), Ok((100003, 2)));
    assert_eq!(split_collected_fee(9, 0, 1), Ok((9, 0)));
    assert_eq!(
        split_collected_fee(u128::MAX, 1, 3),
        Err(ContractError::OverflowError(OverflowError {
            operation: OverflowOperation::Add,
            operand1: u128::MAX,
            operand2: 1
        }))
    );
}

#[test]
fn crediting_relayer_fees() {
    let mut fees = vec![coin(200003, "utest")];
    add_fee(&mut fees, &"utest".to_string(), 100003).unwrap();
    add_fee(&mut fees, &"xrpl".to_string(), 5).unwrap();
    add_fee(&mut fees, &"other".to_string(), 0).unwrap();
    let held: Vec<(String, u128)> = fees.iter().map(|c| (c.denom.clone(), c.amount)).collect();
    assert_eq!(held, vec![("utest".to_string(), 300006), ("xrpl".to_string(), 5)]);
    assert!(add_fee(&mut fees, &"xrpl".to_string(), u128::MAX).is_err());
    assert_eq!(fees[1].amount, 5);
}
