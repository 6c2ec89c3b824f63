//! The checks on an evidence a relayer reports before it is counted, and the
//! result with which a cancelled operation is handled.
use vstd::prelude::*;
use crate::bridge::{string_views, TransactionResult};
use crate::registration::contains_string;
use crate::error::ContractError;

verus! {

/// What an XRPL transaction that allocates tickets reports back: the
/// tickets it created, where it was accepted.
#[derive(Debug, Clone)]
pub enum OperationResult {
    TicketsAllocation { tickets: Option<Vec<u64>> },
}

/// A reported XRPL payment to the bridge must carry a positive amount.
pub fn validate_transfer_evidence(amount: u128) -> (res: Result<(), ContractError>)
    ensures
        res is Ok <==> amount > 0,
        res matches Err(e) ==> e == (ContractError::InvalidAmount {  }),
{
    if amount == 0 {
        return Err(ContractError::InvalidAmount {  });
    }
    Ok(())
}

/// The first rule a reported transaction result breaks, if any: it names
/// exactly one of an account sequence and a ticket; a transaction that was
/// not invalid has a hash and an invalid one has none; a ticket allocation
/// reports tickets exactly when it was accepted.
pub open spec fn transaction_result_evidence_error(
    has_tx_hash: bool,
    account_sequence: Option<u64>,
    ticket_sequence: Option<u64>,
    transaction_result: TransactionResult,
    operation_result: Option<OperationResult>,
) -> Option<ContractError> {
    if (account_sequence is Some) == (ticket_sequence is Some) {
        Some(ContractError::InvalidTransactionResultEvidence {  })
    } else if transaction_result != TransactionResult::Invalid && !has_tx_hash {
        Some(ContractError::InvalidSuccessfulTransactionResultEvidence {  })
    } else if transaction_result == TransactionResult::Invalid && has_tx_hash {
        Some(ContractError::InvalidFailedTransactionResultEvidence {  })
    } else {
        match operation_result {
            Some(OperationResult::TicketsAllocation { tickets }) => if (transaction_result
                == TransactionResult::Accepted) != (tickets is Some) {
                Some(ContractError::InvalidTicketAllocationEvidence {  })
            } else {
                None
            },
            None => None,
        }
    }
}

/// Checks a reported transaction result before it is counted.
pub fn validate_transaction_result_evidence(
    tx_hash: &Option<String>,
    account_sequence: Option<u64>,
    ticket_sequence: Option<u64>,
    transaction_result: TransactionResult,
    operation_result: &Option<OperationResult>,
) -> (res: Result<(), ContractError>)
    ensures
        match transaction_result_evidence_error(
            tx_hash is Some,
            account_sequence,
            ticket_sequence,
            transaction_result,
            *operation_result,
        ) {
            Some(e) => res == Err::<(), ContractError>(e),
            None => res is Ok,
        },
{
    if account_sequence.is_some() == ticket_sequence.is_some() {
        return Err(ContractError::InvalidTransactionResultEvidence {  });
    }
    let invalid = match transaction_result {
        TransactionResult::Invalid => true,
        _ => false,
    };
    if !invalid && tx_hash.is_none() {
        return Err(ContractError::InvalidSuccessfulTransactionResultEvidence {  });
    }
    if invalid && tx_hash.is_some() {
        return Err(ContractError::InvalidFailedTransactionResultEvidence {  });
    }
    match operation_result {
        Some(OperationResult::TicketsAllocation { tickets }) => {
            let accepted = match transaction_result {
                TransactionResult::Accepted => true,
                _ => false,
            };
            if accepted != tickets.is_some() {
                return Err(ContractError::InvalidTicketAllocationEvidence {  });
            }
        },
        None => {},
    }
    Ok(())
}

/// Counts a relayer's report of an evidence. `provided_by` lists the
/// relayers that reported the same evidence so far, and `already_processed`
/// tells whether its XRPL transaction was already handled. A relayer counts
/// once; the result tells whether the evidence threshold is now reached, and
/// then the reports are cleared. Nothing changes when the report is refused.
pub fn record_evidence(
    provided_by: &mut Vec<String>,
    relayer: &String,
    evidence_threshold: u32,
    already_processed: bool,
) -> (res: Result<bool, ContractError>)
    ensures
        already_processed ==> res == Err::<bool, ContractError>(
            ContractError::OperationAlreadyExecuted {  },
        ),
        !already_processed && string_views(old(provided_by)@).contains(relayer@) ==> res == Err::<
            bool,
            ContractError,
        >(ContractError::EvidenceAlreadyProvided {  }),
        res is Err ==> final(provided_by)@ == old(provided_by)@,
        res matches Ok(reached) ==> {
            &&& !already_processed
            &&& !string_views(old(provided_by)@).contains(relayer@)
            &&& reached == (old(provided_by)@.len() + 1 >= evidence_threshold)
            &&& reached ==> final(provided_by)@.len() == 0
            &&& !reached ==> final(provided_by)@ == old(provided_by)@.push(*relayer)
        },
{
    if already_processed {
        return Err(ContractError::OperationAlreadyExecuted {  });
    }
    if contains_string(provided_by, relayer) {
        return Err(ContractError::EvidenceAlreadyProvided {  });
    }
    provided_by.push(relayer.clone());
    if provided_by.len() as u64 >= evidence_threshold as u64 {
        *provided_by = Vec::new();
        return Ok(true);
    }
    Ok(false)
}

/// No relayer is counted twice: the reports of an evidence, which
/// `record_evidence` extends only with a relayer not yet among them, stay
/// free of duplicates, so the threshold counts distinct relayers.
pub proof fn lemma_evidence_relayers_distinct(provided_by: Seq<String>, relayer: String)
    requires
        string_views(provided_by).no_duplicates(),
        !string_views(provided_by).contains(relayer@),
    ensures
        string_views(provided_by.push(relayer)).no_duplicates(),
{
    assert(string_views(provided_by.push(relayer)) =~= string_views(provided_by).push(relayer@));
}

/// The operation result a cancelled operation is handled with: for a ticket
/// allocation, no tickets.
pub open spec fn cancelled_operation_result(allocates_tickets: bool) -> Option<OperationResult> {
    if allocates_tickets {
        Some(OperationResult::TicketsAllocation { tickets: None })
    } else {
        None
    }
}

/// The result a cancelled operation is handled with: an invalid transaction,
/// and for a ticket allocation no tickets.
pub fn cancellation_result(allocates_tickets: bool) -> (res: (TransactionResult, Option<OperationResult>))
    ensures
        res.0 == TransactionResult::Invalid,
        res.1 == cancelled_operation_result(allocates_tickets),
{
    let operation_result = if allocates_tickets {
        Some(OperationResult::TicketsAllocation { tickets: None })
    } else {
        None
    };
    (TransactionResult::Invalid, operation_result)
}

/// What a cancellation hands to the operation's handler passes the checks
/// on a reported transaction result: an invalid transaction without a hash,
/// under the operation's one sequence.
pub proof fn lemma_cancellation_result_is_valid(allocates_tickets: bool, sequence: u64, by_ticket: bool)
    ensures
        transaction_result_evidence_error(
            false,
            if by_ticket { None } else { Some(sequence) },
            if by_ticket { Some(sequence) } else { None },
            TransactionResult::Invalid,
            cancelled_operation_result(allocates_tickets),
        ) is None,
{
}

/// A ticket allocation report passes the checks only if it reports tickets
/// exactly when its transaction was accepted: an accepted allocation without
/// tickets, or a rejected or invalid one with tickets, is refused.
pub proof fn lemma_ticket_allocation_reports_tickets_iff_accepted(
    has_tx_hash: bool,
    account_sequence: Option<u64>,
    ticket_sequence: Option<u64>,
    transaction_result: TransactionResult,
    tickets: Option<Vec<u64>>,
)
    ensures
        transaction_result_evidence_error(
            has_tx_hash,
            account_sequence,
            ticket_sequence,
            transaction_result,
            Some(OperationResult::TicketsAllocation { tickets }),
        ) is None ==> ((transaction_result == TransactionResult::Accepted) <==> tickets is Some),
        (transaction_result == TransactionResult::Accepted) != (tickets is Some) ==> transaction_result_evidence_error(
            has_tx_hash,
            account_sequence,
            ticket_sequence,
            transaction_result,
            Some(OperationResult::TicketsAllocation { tickets }),
        ) is Some,
{
}

/// A report passes the checks only if it names exactly one of an account
/// sequence and a ticket, and has a transaction hash exactly when its
/// transaction was not invalid.
pub proof fn lemma_transaction_result_reports_are_consistent(
    has_tx_hash: bool,
    account_sequence: Option<u64>,
    ticket_sequence: Option<u64>,
    transaction_result: TransactionResult,
    operation_result: Option<OperationResult>,
)
    requires
        transaction_result_evidence_error(
            has_tx_hash,
            account_sequence,
            ticket_sequence,
            transaction_result,
            operation_result,
        ) is None,
    ensures
        (account_sequence is Some) != (ticket_sequence is Some),
        has_tx_hash <==> transaction_result != TransactionResult::Invalid,
{
}

} // verus!
