use cw_xrpl::bridge::Operation;
use cw_xrpl::error::ContractError;
use cw_xrpl::bridge::TransactionResult;
use cw_xrpl::operations::{
    cancel_pending_operation, complete_ticket_allocation, create_pending_operation, save_signature, OperationQueue, OperationType, Signature,
};
use cw_xrpl::registration::complete_trust_set;
use cw_xrpl::token::{TokenState, XRPLToken};

fn allocate(number: u32) -> OperationType {
    OperationType::AllocateTickets { number }
}

#[test]
fn pending_operations_are_unique_per_sequence() {
    let mut ops: Vec<Operation<Signature, OperationType>> = vec![];
    create_pending_operation(&mut ops, "a".to_string(), None, Some(7), allocate(5), 10).unwrap();
    create_pending_operation(&mut ops, "b".to_string(), Some(3), None, allocate(6), 10).unwrap();
    assert_eq!(
        create_pending_operation(&mut ops, "c".to_string(), Some(7), None, allocate(5), 10),
        Err(ContractError::PendingOperationAlreadyExists {})
    );
    assert_eq!(ops.len(), 2);
    assert_eq!(ops[1].id, "b");
    assert_eq!(ops[1].version, 1);
}

#[test]
fn tickets_go_to_operations_first_come_first_served() {
    let mut q: OperationQueue<Signature> = OperationQueue {
        available_tickets: vec![3, 4, 5],
        pending_operations: vec![],
        pending_ticket_update: false,
        used_tickets_counter: 0,
    };
    assert_eq!(q.create_ticketed_operation("a".to_string(), allocate(1), 10), Ok(3));
    assert_eq!(q.create_ticketed_operation("b".to_string(), allocate(1), 10), Ok(4));
    assert_eq!(
        q.create_ticketed_operation("c".to_string(), allocate(1), 10),
        Err(ContractError::LastTicketReserved {})
    );
    assert_eq!(q.available_tickets, vec![5]);
    assert_eq!(q.pending_operations.len(), 2);
    // A ticket that already carries an operation is not reused.
    let mut clash: OperationQueue<Signature> = OperationQueue {
        available_tickets: vec![3, 9],
        pending_operations: vec![],
        pending_ticket_update: false,
        used_tickets_counter: 0,
    };
    create_pending_operation(&mut clash.pending_operations, "x".to_string(), None, Some(3), allocate(1), 10).unwrap();
    assert_eq!(
        clash.create_ticketed_operation("y".to_string(), allocate(1), 10),
        Err(ContractError::PendingOperationAlreadyExists {})
    );
    assert_eq!(clash.available_tickets, vec![3, 9]);
}

#[test]
fn saving_signatures() {
    let mut ops: Vec<Operation<Signature, OperationType>> = vec![];
    create_pending_operation(&mut ops, "a".to_string(), None, Some(1), allocate(5), 10).unwrap();
    let good = "3045022100DFA01DA5D6C9877F9DAA59A06032247F3D7ED6444EAD5C90A3AC33CCB7F19B3F02204D8D50E4D085BB1BC9DFB8281B8F35BDAEB7C74AE4B825F8CAE1217CFBDF4EA1";
    let too_long = format!("{}{}", good, good);
    assert_eq!(
        save_signature(&mut ops, 1, 1, "r1".to_string(), too_long),
        Err(ContractError::InvalidSignatureLength {})
    );
    save_signature(&mut ops, 1, 1, "r1".to_string(), good.to_string()).unwrap();
    assert_eq!(ops[0].signatures.len(), 1);
    assert_eq!(ops[0].signatures[0].relayer_cosmos_address, "r1");
    assert_eq!(
        save_signature(&mut ops, 1, 1, "r1".to_string(), good.to_string()),
        Err(ContractError::SignatureAlreadyProvided {})
    );
    assert_eq!(
        save_signature(&mut ops, 2, 1, "r2".to_string(), good.to_string()),
        Err(ContractError::PendingOperationNotFound {})
    );
    assert_eq!(
        save_signature(&mut ops, 1, 2, "r2".to_string(), good.to_string()),
        Err(ContractError::OperationVersionMismatch {})
    );
    save_signature(&mut ops, 1, 1, "r2".to_string(), good.to_string()).unwrap();
    assert_eq!(ops[0].signatures.len(), 2);
    assert_eq!(ops[0].version, 1);
}

#[test]
fn operation_cancel_pending_operation() {
    let mut q: OperationQueue<Signature> = OperationQueue {
        available_tickets: (1..=10).collect(),
        pending_operations: vec![],
        pending_ticket_update: false,
        used_tickets_counter: 0,
    };
    let trust_set = OperationType::TrustSet {
        issuer: "rLUEXYuLiQptky37CqLcm9USQpPiz5rkpD".to_string(),
        currency: "USD".to_string(),
        trust_set_limit_amount: 100,
    };
    assert_eq!(q.create_ticketed_operation("a".to_string(), trust_set, 10), Ok(1));
    assert_eq!(q.create_ticketed_operation("b".to_string(), OperationType::AllocateTickets { number: 5 }, 10), Ok(2));
    assert_eq!(q.available_tickets.len(), 8);
    assert_eq!(cancel_pending_operation(&mut q, 50).err(), Some(ContractError::PendingOperationNotFound {}));

    // Cancelling the trust set gives its ticket back and leaves the token inactive.
    let cancelled = cancel_pending_operation(&mut q, 1).unwrap();
    assert_eq!(cancelled.id, "a");
    assert_eq!(q.available_tickets.len(), 9);
    assert_eq!(*q.available_tickets.last().unwrap(), 1);
    assert_eq!(q.pending_operations.len(), 1);
    let mut token = XRPLToken {
        issuer: "rLUEXYuLiQptky37CqLcm9USQpPiz5rkpD".to_string(),
        currency: "USD".to_string(),
        cosmos_denom: "factory/orai1tf/XRPL0123456789".to_string(),
        sending_precision: 10,
        max_holding_amount: 100,
        state: TokenState::Processing,
        bridging_fee: 0,
    };
    complete_trust_set(&mut token, TransactionResult::Invalid);
    assert_eq!(token.state, TokenState::Inactive);
    complete_trust_set(&mut token, TransactionResult::Accepted);
    assert_eq!(token.state, TokenState::Enabled);

    q.pending_ticket_update = true;
    cancel_pending_operation(&mut q, 2).unwrap();
    assert!(!q.pending_ticket_update);
    assert!(q.pending_operations.is_empty());
    assert_eq!(q.available_tickets.len(), 10);
}

#[test]
fn confirming_ticket_allocations() {
    let mut q: OperationQueue<Signature> = OperationQueue {
        available_tickets: vec![],
        pending_operations: vec![],
        pending_ticket_update: false,
        used_tickets_counter: 6,
    };
    assert_eq!(cw_xrpl::bridge::recover_tickets(&mut q, 1, Some(5), 4, "op".to_string(), 10), Ok(5));
    assert!(q.pending_ticket_update);
    cancel_pending_operation(&mut q, 1).unwrap();
    complete_ticket_allocation(&mut q, TransactionResult::Accepted, Some((1..6).collect()));
    assert!(!q.pending_ticket_update);
    assert_eq!(q.available_tickets, vec![1, 2, 3, 4, 5]);
    assert_eq!(q.used_tickets_counter, 0);
    q.pending_ticket_update = true;
    complete_ticket_allocation(&mut q, TransactionResult::Rejected, None);
    assert!(!q.pending_ticket_update);
    assert_eq!(q.available_tickets, vec![1, 2, 3, 4, 5]);
}
