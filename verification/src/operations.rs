//! The operations the bridge keeps pending until XRPL reports their result,
//! and the tickets they are executed with.
use vstd::prelude::*;
use crate::bridge::{Operation, TransactionResult};
use crate::error::ContractError;
use crate::relayer::Relayer;
use crate::tickets::allocate_ticket;
use vstd::utf8::encode_utf8;

verus! {

/// What a pending operation does on XRPL.
#[derive(Debug, Clone)]
pub enum OperationType {
    /// Creates `number` new tickets.
    AllocateTickets { number: u32 },
    /// Opens the bridge's trust line for an XRPL token.
    TrustSet { issuer: String, currency: String, trust_set_limit_amount: u128 },
    /// Replaces the relayer keys of the bridge's multisig account.
    RotateKeys { new_relayers: Vec<Relayer>, new_evidence_threshold: u32 },
    /// Pays `amount` of a token to `recipient` on XRPL, spending at most
    /// `max_amount`, for coins `sender` sent to the bridge.
    CosmosToXRPLTransfer {
        issuer: String,
        currency: String,
        amount: u128,
        max_amount: Option<u128>,
        sender: String,
        recipient: String,
    },
}

/// The tickets the bridge holds and the operations waiting for XRPL.
pub struct OperationQueue<Sig> {
    /// Tickets not yet given to an operation, first to be used first.
    pub available_tickets: Vec<u64>,
    /// Operations waiting for their signatures and their result.
    pub pending_operations: Vec<Operation<Sig, OperationType>>,
    /// Whether an operation allocating tickets is pending.
    pub pending_ticket_update: bool,
    /// Tickets used since the last allocation.
    pub used_tickets_counter: u32,
}

/// The sequence an operation is stored under: its ticket, else its account
/// sequence (every operation has one of the two).
pub open spec fn sequence_of(ticket_sequence: Option<u64>, account_sequence: Option<u64>) -> u64 {
    match ticket_sequence {
        Some(t) => t,
        None => match account_sequence {
            Some(a) => a,
            None => 0,
        },
    }
}

/// Some pending operation is stored under `sequence`.
pub open spec fn has_pending_operation<Sig>(ops: Seq<Operation<Sig, OperationType>>, sequence: u64) -> bool {
    exists|i: int|
        0 <= i < ops.len() && sequence_of(
            (#[trigger] ops[i]).ticket_sequence,
            ops[i].account_sequence,
        ) == sequence
}

/// `after` is `before` with one new operation at the end: `id`, first
/// version, no signature yet, the given sequences, kind and base fee.
pub open spec fn adds_operation<Sig>(
    before: Seq<Operation<Sig, OperationType>>,
    after: Seq<Operation<Sig, OperationType>>,
    id: Seq<char>,
    ticket_sequence: Option<u64>,
    account_sequence: Option<u64>,
    operation_type: OperationType,
    xrpl_base_fee: u64,
) -> bool {
    &&& after.len() == before.len() + 1
    &&& after.subrange(0, before.len() as int) == before
    &&& after.last().id@ == id
    &&& after.last().version == 1
    &&& after.last().ticket_sequence == ticket_sequence
    &&& after.last().account_sequence == account_sequence
    &&& after.last().signatures@.len() == 0
    &&& after.last().operation_type == operation_type
    &&& after.last().xrpl_base_fee == xrpl_base_fee
}

fn pending_operation_exists<Sig>(ops: &Vec<Operation<Sig, OperationType>>, sequence: u64) -> (r: bool)
    ensures
        r == has_pending_operation(ops@, sequence),
{
    let mut i: usize = 0;
    while i < ops.len()
        invariant
            i <= ops@.len(),
            forall|j: int|
                0 <= j < i ==> sequence_of(
                    (#[trigger] ops@[j]).ticket_sequence,
                    ops@[j].account_sequence,
                ) != sequence,
        decreases ops@.len() - i,
    {
        let op = &ops[i];
        let s = match op.ticket_sequence {
            Some(t) => t,
            None => match op.account_sequence {
                Some(a) => a,
                None => 0,
            },
        };
        if s == sequence {
            return true;
        }
        i = i + 1;
    }
    false
}

/// Stores a new operation, signed at its first version and without
/// signatures, under its ticket or else its account sequence; refused when an
/// operation is already pending there. Nothing changes when refused.
pub fn create_pending_operation<Sig>(
    ops: &mut Vec<Operation<Sig, OperationType>>,
    id: String,
    ticket_sequence: Option<u64>,
    account_sequence: Option<u64>,
    operation_type: OperationType,
    xrpl_base_fee: u64,
) -> (res: Result<(), ContractError>)
    requires
        ticket_sequence is Some || account_sequence is Some,
    ensures
        has_pending_operation(old(ops)@, sequence_of(ticket_sequence, account_sequence)) ==> (res
            == Err::<(), ContractError>(ContractError::PendingOperationAlreadyExists {  })
            && final(ops)@ == old(ops)@),
        !has_pending_operation(old(ops)@, sequence_of(ticket_sequence, account_sequence)) ==> (res
            is Ok && adds_operation(
            old(ops)@,
            final(ops)@,
            id@,
            ticket_sequence,
            account_sequence,
            operation_type,
            xrpl_base_fee,
        )),
{
    let sequence = match ticket_sequence {
        Some(t) => t,
        None => account_sequence.unwrap(),
    };
    if pending_operation_exists(ops, sequence) {
        return Err(ContractError::PendingOperationAlreadyExists {  });
    }
    ops.push(
        Operation {
            id,
            version: 1,
            ticket_sequence,
            account_sequence,
            signatures: Vec::new(),
            operation_type,
            xrpl_base_fee,
        },
    );
    assert(final(ops)@.subrange(0, old(ops)@.len() as int) =~= old(ops)@);
    Ok(())
}

/// Why an operation cannot be given a ticket, if it cannot: no ticket left,
/// only the last one left (kept for allocating tickets), or an operation
/// already pending on the first ticket.
pub open spec fn ticketed_operation_error<Sig>(
    tickets: Seq<u64>,
    ops: Seq<Operation<Sig, OperationType>>,
) -> Option<ContractError> {
    if tickets.len() == 0 {
        Some(ContractError::NoAvailableTickets {  })
    } else if tickets.len() == 1 {
        Some(ContractError::LastTicketReserved {  })
    } else if has_pending_operation(ops, tickets[0]) {
        Some(ContractError::PendingOperationAlreadyExists {  })
    } else {
        None
    }
}

/// `after` is `before` where the first ticket went to a new operation.
pub open spec fn takes_ticket_for<Sig>(
    before: OperationQueue<Sig>,
    after: OperationQueue<Sig>,
    id: Seq<char>,
    operation_type: OperationType,
    xrpl_base_fee: u64,
) -> bool {
    &&& after.available_tickets@ == before.available_tickets@.subrange(
        1,
        before.available_tickets@.len() as int,
    )
    &&& adds_operation(
        before.pending_operations@,
        after.pending_operations@,
        id,
        Some(before.available_tickets@[0]),
        None,
        operation_type,
        xrpl_base_fee,
    )
    &&& after.pending_ticket_update == before.pending_ticket_update
    &&& after.used_tickets_counter == before.used_tickets_counter
}

/// `after` holds the same tickets, operations and counters as `before`.
pub open spec fn same_queue<Sig>(before: OperationQueue<Sig>, after: OperationQueue<Sig>) -> bool {
    &&& after.available_tickets@ == before.available_tickets@
    &&& after.pending_operations@ == before.pending_operations@
    &&& after.pending_ticket_update == before.pending_ticket_update
    &&& after.used_tickets_counter == before.used_tickets_counter
}

/// An operation gets a ticket only while at least two are available, and it
/// gets the first: the last available ticket always stays for allocating new
/// tickets, and no two pending operations share a ticket.
pub proof fn lemma_ticketed_operation_keeps_last_ticket<Sig>(
    before: OperationQueue<Sig>,
    after: OperationQueue<Sig>,
    id: Seq<char>,
    operation_type: OperationType,
    xrpl_base_fee: u64,
)
    requires
        ticketed_operation_error(before.available_tickets@, before.pending_operations@) is None,
        takes_ticket_for(before, after, id, operation_type, xrpl_base_fee),
    ensures
        before.available_tickets@.len() >= 2,
        after.available_tickets@.len() == before.available_tickets@.len() - 1 >= 1,
        after.available_tickets@.last() == before.available_tickets@.last(),
        after.pending_operations@.last().ticket_sequence == Some(before.available_tickets@[0]),
        !has_pending_operation(before.pending_operations@, before.available_tickets@[0]),
{
}

impl<Sig> OperationQueue<Sig> {
    /// Gives the first available ticket to a new operation and stores it
    /// pending under that ticket; the ticket is returned. Nothing changes when
    /// refused.
    pub fn create_ticketed_operation(
        &mut self,
        id: String,
        operation_type: OperationType,
        xrpl_base_fee: u64,
    ) -> (res: Result<u64, ContractError>)
        ensures
            match ticketed_operation_error(
                old(self).available_tickets@,
                old(self).pending_operations@,
            ) {
                Some(e) => res == Err::<u64, ContractError>(e) && same_queue(*old(self), *final(self)),
                None => res == Ok::<u64, ContractError>(old(self).available_tickets@[0])
                    && takes_ticket_for(*old(self), *final(self), id@, operation_type, xrpl_base_fee),
            },
    {
        if self.available_tickets.len() == 0 {
            return Err(ContractError::NoAvailableTickets {  });
        }
        if self.available_tickets.len() == 1 {
            return Err(ContractError::LastTicketReserved {  });
        }
        let ticket = self.available_tickets[0];
        if pending_operation_exists(&self.pending_operations, ticket) {
            return Err(ContractError::PendingOperationAlreadyExists {  });
        }
        let allocated = allocate_ticket(&mut self.available_tickets);
        assert(allocated == Ok::<u64, ContractError>(ticket));
        let r = create_pending_operation(
            &mut self.pending_operations,
            id,
            Some(ticket),
            None,
            operation_type,
            xrpl_base_fee,
        );
        assert(r is Ok);
        Ok(ticket)
    }
}

/// `after` is `before` without its pending operation `i`: the operation's
/// ticket, if it has one, is available again, at the end, and a ticket
/// allocation is no longer pending.
pub open spec fn cancels_operation<Sig>(before: OperationQueue<Sig>, after: OperationQueue<Sig>, i: int) -> bool {
    let op = before.pending_operations@[i];
    &&& after.pending_operations@ == before.pending_operations@.remove(i)
    &&& after.available_tickets@ == match op.ticket_sequence {
        Some(t) => before.available_tickets@.push(t),
        None => before.available_tickets@,
    }
    &&& after.pending_ticket_update == if op.operation_type is AllocateTickets {
        false
    } else {
        before.pending_ticket_update
    }
    &&& after.used_tickets_counter == before.used_tickets_counter
}

/// Cancelling an operation right after it was given a ticket undoes it: the
/// same operations are pending as before, and the ticket is available again,
/// now the last one.
pub proof fn lemma_cancel_undoes_ticketed_operation<Sig>(
    before: OperationQueue<Sig>,
    created: OperationQueue<Sig>,
    after: OperationQueue<Sig>,
    id: Seq<char>,
    operation_type: OperationType,
    xrpl_base_fee: u64,
)
    requires
        ticketed_operation_error(before.available_tickets@, before.pending_operations@) is None,
        takes_ticket_for(before, created, id, operation_type, xrpl_base_fee),
        cancels_operation(
            created,
            after,
            choose|i: int|
                is_operation_index(created.pending_operations@, before.available_tickets@[0], i),
        ),
    ensures
        after.pending_operations@ == before.pending_operations@,
        after.available_tickets@ == before.available_tickets@.subrange(
            1,
            before.available_tickets@.len() as int,
        ).push(before.available_tickets@[0]),
        after.used_tickets_counter == before.used_tickets_counter,
        !(operation_type is AllocateTickets) ==> after.pending_ticket_update
            == before.pending_ticket_update,
{
    let t = before.available_tickets@[0];
    let n = before.pending_operations@.len() as int;
    let ops = created.pending_operations@;
    assert(ops[n] == ops.last());
    assert forall|j: int| 0 <= j < n implies ops[j] == before.pending_operations@[j] by {
        assert(ops.subrange(0, n)[j] == ops[j]);
    }
    assert(is_operation_index(ops, t, n));
    assert forall|k: int| is_operation_index(ops, t, k) implies k == n by {
        if k < n {
            assert(ops[k] == before.pending_operations@[k]);
        }
    }
    let i = choose|i: int| is_operation_index(ops, t, i);
    assert(i == n);
    assert(ops.remove(n) =~= before.pending_operations@);
}

/// Cancels the pending operation stored under `operation_id`, as if XRPL
/// had reported its transaction invalid: the operation is removed and given
/// back for its own handling, its ticket (if it has one) is available again,
/// at the end, and a cancelled ticket allocation is no longer pending.
/// Nothing changes when no such operation is pending.
pub fn cancel_pending_operation<Sig>(queue: &mut OperationQueue<Sig>, operation_id: u64) -> (res: Result<
    Operation<Sig, OperationType>,
    ContractError,
>)
    ensures
        !has_pending_operation(old(queue).pending_operations@, operation_id) ==> res == Err::<
            Operation<Sig, OperationType>,
            ContractError,
        >(ContractError::PendingOperationNotFound {  }) && same_queue(*old(queue), *final(queue)),
        has_pending_operation(old(queue).pending_operations@, operation_id) ==> ({
            let i = choose|i: int| is_operation_index(old(queue).pending_operations@, operation_id, i);
            &&& res == Ok::<Operation<Sig, OperationType>, ContractError>(
                old(queue).pending_operations@[i],
            )
            &&& cancels_operation(*old(queue), *final(queue), i)
        }),
{
    let i = match operation_index(&queue.pending_operations, operation_id) {
        Some(i) => i,
        None => {
            return Err(ContractError::PendingOperationNotFound {  });
        },
    };
    assert(forall|k: int|
        is_operation_index(queue.pending_operations@, operation_id, k) ==> k == i as int);
    let op = queue.pending_operations.remove(i);
    if let Some(t) = op.ticket_sequence {
        queue.available_tickets.push(t);
    }
    if let OperationType::AllocateTickets { .. } = op.operation_type {
        queue.pending_ticket_update = false;
    }
    Ok(op)
}

/// Completes a ticket allocation with the result XRPL reported for it: the
/// allocation is no longer pending; where it was accepted, the tickets it
/// created become available, after any still there, and the count of used
/// tickets starts again from zero.
pub fn complete_ticket_allocation<Sig>(
    queue: &mut OperationQueue<Sig>,
    transaction_result: TransactionResult,
    tickets: Option<Vec<u64>>,
)
    ensures
        !final(queue).pending_ticket_update,
        final(queue).pending_operations@ == old(queue).pending_operations@,
        transaction_result == TransactionResult::Accepted ==> final(queue).available_tickets@
            == old(queue).available_tickets@ + match tickets {
            Some(t) => t@,
            None => Seq::empty(),
        } && final(queue).used_tickets_counter == 0,
        transaction_result != TransactionResult::Accepted ==> final(queue).available_tickets@
            == old(queue).available_tickets@ && final(queue).used_tickets_counter
            == old(queue).used_tickets_counter,
{
    queue.pending_ticket_update = false;
    if let TransactionResult::Accepted = transaction_result {
        if let Some(t) = tickets {
            let mut i: usize = 0;
            while i < t.len()
                invariant
                    i <= t@.len(),
                    queue.available_tickets@ == old(queue).available_tickets@ + t@.subrange(0, i as int),
                    queue.pending_operations@ == old(queue).pending_operations@,
                    !queue.pending_ticket_update,
                decreases t@.len() - i,
            {
                queue.available_tickets.push(t[i]);
                assert(t@.subrange(0, i + 1) =~= t@.subrange(0, i as int).push(t@[i as int]));
                assert(queue.available_tickets@ =~= old(queue).available_tickets@ + t@.subrange(0, i + 1));
                i = i + 1;
            }
            assert(t@.subrange(0, i as int) =~= t@);
        } else {
            assert(queue.available_tickets@ =~= old(queue).available_tickets@ + Seq::<u64>::empty());
        }
        queue.used_tickets_counter = 0;
    }
}

/// Longest signature a relayer may give, in bytes.
pub const MAX_SIGNATURE_LENGTH: usize = 200;

/// A relayer's signature of a pending operation.
#[derive(Debug, Clone)]
pub struct Signature {
    pub relayer_cosmos_address: String,
    pub signature: String,
}

/// `i` is the first pending operation stored under `sequence`.
pub open spec fn is_operation_index<Sig>(ops: Seq<Operation<Sig, OperationType>>, sequence: u64, i: int) -> bool {
    &&& 0 <= i < ops.len()
    &&& sequence_of(ops[i].ticket_sequence, ops[i].account_sequence) == sequence
    &&& forall|j: int|
        0 <= j < i ==> sequence_of(
            (#[trigger] ops[j]).ticket_sequence,
            ops[j].account_sequence,
        ) != sequence
}

/// The relayer already signed the operation.
pub open spec fn has_signed(signatures: Seq<Signature>, relayer: Seq<char>) -> bool {
    exists|k: int| 0 <= k < signatures.len() && (#[trigger] signatures[k]).relayer_cosmos_address@ == relayer
}

/// Why a relayer's signature of the operation under `operation_id` is
/// refused, if it is: no such operation, a signature longer than
/// `MAX_SIGNATURE_LENGTH` bytes, another version of the operation, or a
/// signature of this relayer already there.
pub open spec fn signature_error(
    ops: Seq<Operation<Signature, OperationType>>,
    operation_id: u64,
    operation_version: u64,
    relayer: Seq<char>,
    signature: Seq<char>,
) -> Option<ContractError> {
    if !has_pending_operation(ops, operation_id) {
        Some(ContractError::PendingOperationNotFound {  })
    } else {
        let i = choose|i: int| is_operation_index(ops, operation_id, i);
        if encode_utf8(signature).len() > MAX_SIGNATURE_LENGTH {
            Some(ContractError::InvalidSignatureLength {  })
        } else if ops[i].version != operation_version {
            Some(ContractError::OperationVersionMismatch {  })
        } else if has_signed(ops[i].signatures@, relayer) {
            Some(ContractError::SignatureAlreadyProvided {  })
        } else {
            None
        }
    }
}

fn operation_index<Sig>(ops: &Vec<Operation<Sig, OperationType>>, sequence: u64) -> (res: Option<usize>)
    ensures
        res matches Some(i) ==> is_operation_index(ops@, sequence, i as int),
        res is None ==> !has_pending_operation(ops@, sequence),
{
    let mut i: usize = 0;
    while i < ops.len()
        invariant
            i <= ops@.len(),
            forall|j: int|
                0 <= j < i ==> sequence_of(
                    (#[trigger] ops@[j]).ticket_sequence,
                    ops@[j].account_sequence,
                ) != sequence,
        decreases ops@.len() - i,
    {
        let op = &ops[i];
        let s = match op.ticket_sequence {
            Some(t) => t,
            None => match op.account_sequence {
                Some(a) => a,
                None => 0,
            },
        };
        if s == sequence {
            return Some(i);
        }
        i = i + 1;
    }
    None
}

fn signed_by(signatures: &Vec<Signature>, relayer: &String) -> (r: bool)
    ensures
        r == has_signed(signatures@, relayer@),
{
    let mut k: usize = 0;
    while k < signatures.len()
        invariant
            k <= signatures@.len(),
            forall|j: int| 0 <= j < k ==> (#[trigger] signatures@[j]).relayer_cosmos_address@ != relayer@,
        decreases signatures@.len() - k,
    {
        if signatures[k].relayer_cosmos_address == *relayer {
            return true;
        }
        k = k + 1;
    }
    false
}

/// Records a relayer's signature of the pending operation stored under
/// `operation_id`, signed at `operation_version`: the signature is added to
/// the operation's, which otherwise stays as it was. Nothing changes when it
/// is refused.
pub fn save_signature(
    ops: &mut Vec<Operation<Signature, OperationType>>,
    operation_id: u64,
    operation_version: u64,
    relayer: String,
    signature: String,
) -> (res: Result<(), ContractError>)
    ensures
        match signature_error(old(ops)@, operation_id, operation_version, relayer@, signature@) {
            Some(e) => res == Err::<(), ContractError>(e) && final(ops)@ == old(ops)@,
            None => {
                let i = choose|i: int| is_operation_index(old(ops)@, operation_id, i);
                let op = old(ops)@[i];
                &&& res is Ok
                &&& final(ops)@.len() == old(ops)@.len()
                &&& forall|j: int| 0 <= j < old(ops)@.len() && j != i ==> final(ops)@[j] == old(ops)@[j]
                &&& final(ops)@[i].id == op.id
                &&& final(ops)@[i].version == op.version
                &&& final(ops)@[i].ticket_sequence == op.ticket_sequence
                &&& final(ops)@[i].account_sequence == op.account_sequence
                &&& final(ops)@[i].operation_type == op.operation_type
                &&& final(ops)@[i].xrpl_base_fee == op.xrpl_base_fee
                &&& final(ops)@[i].signatures@ == op.signatures@.push(
                    Signature { relayer_cosmos_address: relayer, signature },
                )
            },
        },
{
    let i = match operation_index(ops, operation_id) {
        Some(i) => i,
        None => {
            return Err(ContractError::PendingOperationNotFound {  });
        },
    };
    assert(forall|k: int| is_operation_index(ops@, operation_id, k) ==> k == i as int);
    if signature.as_str().as_bytes().len() > MAX_SIGNATURE_LENGTH {
        return Err(ContractError::InvalidSignatureLength {  });
    }
    if ops[i].version != operation_version {
        return Err(ContractError::OperationVersionMismatch {  });
    }
    if signed_by(&ops[i].signatures, &relayer) {
        return Err(ContractError::SignatureAlreadyProvided {  });
    }
    let ghost before = ops@;
    let mut op = ops.remove(i);
    op.signatures.push(Signature { relayer_cosmos_address: relayer, signature });
    ops.insert(i, op);
    assert forall|j: int| 0 <= j < before.len() && j != i implies ops@[j] == before[j] by {
        if j < i {
            assert(ops@[j] == before.remove(i as int)[j]);
        } else {
            assert(ops@[j] == before.remove(i as int)[j - 1]);
        }
    }
    Ok(())
}

} // verus!
