use cw_xrpl::bridge::TransactionResult;
use cw_xrpl::error::ContractError;
use cw_xrpl::evidence::{
    cancellation_result, record_evidence, validate_transaction_result_evidence, validate_transfer_evidence,
    OperationResult,
};

fn tickets(t: Option<Vec<u64>>) -> Option<OperationResult> {
    Some(OperationResult::TicketsAllocation { tickets: t })
}

#[test]
fn invalid_transaction_evidences() {
    let hash = Some("ABCD".to_string());
    let allocated: Vec<u64> = (1..6).collect();
    let cases = vec![
        (hash.clone(), None, None, TransactionResult::Rejected, tickets(Some(allocated.clone()))),
        (hash.clone(), Some(1), Some(2), TransactionResult::Rejected, tickets(Some(allocated.clone()))),
        (None, Some(1), None, TransactionResult::Rejected, tickets(Some(allocated.clone()))),
        (hash.clone(), Some(1), None, TransactionResult::Rejected, tickets(Some(allocated.clone()))),
        (hash.clone(), Some(1), None, TransactionResult::Invalid, tickets(None)),
        (None, Some(1), None, TransactionResult::Invalid, tickets(Some(allocated.clone()))),
    ];
    let expected = vec![
        ContractError::InvalidTransactionResultEvidence {},
        ContractError::InvalidTransactionResultEvidence {},
        ContractError::InvalidSuccessfulTransactionResultEvidence {},
        ContractError::InvalidTicketAllocationEvidence {},
        ContractError::InvalidFailedTransactionResultEvidence {},
        ContractError::InvalidTicketAllocationEvidence {},
    ];
    for ((h, a, t, r, o), e) in cases.into_iter().zip(expected) {
        assert_eq!(validate_transaction_result_evidence(&h, a, t, r, &o), Err(e));
    }
}

#[test]
fn valid_transaction_evidences() {
    let hash = Some("ABCD".to_string());
    validate_transaction_result_evidence(&hash, Some(1), None, TransactionResult::Accepted, &tickets(Some(vec![2, 3])))
        .unwrap();
    validate_transaction_result_evidence(&hash, None, Some(4), TransactionResult::Rejected, &tickets(None)).unwrap();
    validate_transaction_result_evidence(&None, None, Some(4), TransactionResult::Invalid, &None).unwrap();
    validate_transaction_result_evidence(&hash, None, Some(4), TransactionResult::Accepted, &None).unwrap();
}

#[test]
fn transfer_evidences_carry_an_amount() {
    validate_transfer_evidence(1).unwrap();
    assert_eq!(validate_transfer_evidence(0), Err(ContractError::InvalidAmount {}));
}

#[test]
fn cancelled_operations_are_handled_as_invalid() {
    let (result, operation_result) = cancellation_result(true);
    assert_eq!(result, TransactionResult::Invalid);
    assert!(matches!(operation_result, Some(OperationResult::TicketsAllocation { tickets: None })));
    validate_transaction_result_evidence(&None, None, Some(3), result, &operation_result).unwrap();
    let (result, operation_result) = cancellation_result(false);
    assert_eq!(result, TransactionResult::Invalid);
    assert!(operation_result.is_none());
}

#[test]
fn counting_evidences() {
    let mut provided: Vec<String> = vec![];
    assert_eq!(record_evidence(&mut provided, &"r1".to_string(), 2, false), Ok(false));
    assert_eq!(provided, vec!["r1".to_string()]);
    assert_eq!(
        record_evidence(&mut provided, &"r1".to_string(), 2, false),
        Err(ContractError::EvidenceAlreadyProvided {})
    );
    assert_eq!(provided, vec!["r1".to_string()]);
    assert_eq!(record_evidence(&mut provided, &"r2".to_string(), 2, false), Ok(true));
    assert!(provided.is_empty());
    assert_eq!(
        record_evidence(&mut provided, &"r3".to_string(), 2, true),
        Err(ContractError::OperationAlreadyExecuted {})
    );
    // With a threshold of one, the first report is enough.
    assert_eq!(record_evidence(&mut provided, &"r3".to_string(), 1, false), Ok(true));
}
