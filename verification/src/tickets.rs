//! The XRPL tickets the bridge holds for its operations.
use vstd::prelude::*;
use crate::error::ContractError;

verus! {

/// Takes the first available ticket for a new operation. The last ticket is
/// kept for the operation that allocates new tickets, so at least two must be
/// available; nothing changes on an error.
pub fn allocate_ticket(available_tickets: &mut Vec<u64>) -> (res: Result<u64, ContractError>)
    ensures
        old(available_tickets)@.len() == 0 ==> res == Err::<u64, ContractError>(
            ContractError::NoAvailableTickets {  },
        ),
        old(available_tickets)@.len() == 1 ==> res == Err::<u64, ContractError>(
            ContractError::LastTicketReserved {  },
        ),
        old(available_tickets)@.len() >= 2 ==> res == Ok::<u64, ContractError>(
            old(available_tickets)@[0],
        ) && final(available_tickets)@ == old(available_tickets)@.subrange(
            1,
            old(available_tickets)@.len() as int,
        ),
        res is Err ==> final(available_tickets)@ == old(available_tickets)@,
{
    if available_tickets.len() == 0 {
        return Err(ContractError::NoAvailableTickets {  });
    }
    if available_tickets.len() == 1 {
        return Err(ContractError::LastTicketReserved {  });
    }
    let ticket = available_tickets.remove(0);
    assert(available_tickets@ =~= old(available_tickets)@.subrange(
        1,
        old(available_tickets)@.len() as int,
    ));
    Ok(ticket)
}

} // verus!
