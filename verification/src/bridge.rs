//! Decisions of the bridge's administrative handlers, taken on the values
//! the contract loads from storage: bridge halting and key rotation, ticket
//! recovery, instantiation checks, prohibited recipients and XRPL fee updates.
use vstd::prelude::*;
use vstd::string::*;
use crate::address::{is_valid_xrpl_address, validate_xrpl_address_format, INITIAL_PROHIBITED_XRPL_ADDRESSES};
use crate::amount::{is_valid_xrpl_amount, validate_xrpl_amount};
use crate::error::ContractError;
use crate::relayer::{is_relayer_set_error, is_valid_relayer_set, validate_relayers, Relayer};
use crate::operations::{
    adds_operation, create_pending_operation, has_pending_operation, same_queue, takes_ticket_for,
    ticketed_operation_error, OperationQueue, OperationType,
};
use crate::token::{
    TokenState, XRPLToken, XRP_CURRENCY, XRP_DEFAULT_FEE, XRP_DEFAULT_MAX_HOLDING_AMOUNT,
    XRP_DEFAULT_SENDING_PRECISION, XRP_ISSUER, XRP_SYMBOL,
};
use crate::registration::{full_denom, full_denom_of};

verus! {

/// XRPL limit on the number of tickets an account can hold.
pub const MAX_TICKETS: u32 = 250;

/// Largest relayer set the bridge accepts.
pub const MAX_RELAYERS: usize = 32;

/// Maximum page size of the paginated queries.
pub const MAX_PAGE_LIMIT: u32 = 250;

/// Whether the bridge accepts operations.
#[derive(Debug, Clone, Copy, PartialEq, Eq, Structural)]
pub enum BridgeState {
    Active,
    Halted,
}

/// Fails with `BridgeHalted` unless the bridge is active.
pub fn assert_bridge_active(bridge_state: BridgeState) -> (res: Result<(), ContractError>)
    ensures
        res is Ok <==> bridge_state == BridgeState::Active,
        res matches Err(e) ==> e == (ContractError::BridgeHalted {  }),
{
    if bridge_state != BridgeState::Active {
        return Err(ContractError::BridgeHalted {  });
    }
    Ok(())
}

/// The bridge's state together with the flag of an ongoing key rotation.
#[derive(Debug, Clone, Copy, PartialEq, Eq, Structural)]
pub struct BridgeStatus {
    pub bridge_state: BridgeState,
    pub pending_rotate_keys: bool,
}

/// Halting: allowed only on an active bridge.
pub open spec fn halt_result(s: BridgeStatus) -> Result<BridgeStatus, ContractError> {
    if s.bridge_state == BridgeState::Active {
        Ok(BridgeStatus { bridge_state: BridgeState::Halted, ..s })
    } else {
        Err(ContractError::BridgeHalted {  })
    }
}

/// Resuming: allowed unless a key rotation is ongoing.
pub open spec fn resume_result(s: BridgeStatus) -> Result<BridgeStatus, ContractError> {
    if s.pending_rotate_keys {
        Err(ContractError::RotateKeysOngoing {  })
    } else {
        Ok(BridgeStatus { bridge_state: BridgeState::Active, ..s })
    }
}

/// Starting a key rotation: allowed unless one is ongoing; halts the bridge.
pub open spec fn start_key_rotation_result(s: BridgeStatus) -> Result<BridgeStatus, ContractError> {
    if s.pending_rotate_keys {
        Err(ContractError::RotateKeysOngoing {  })
    } else {
        Ok(BridgeStatus { bridge_state: BridgeState::Halted, pending_rotate_keys: true })
    }
}

impl BridgeStatus {
    /// Halts an active bridge; halting a halted bridge fails.
    pub fn halt(&mut self) -> (res: Result<(), ContractError>)
        ensures
            match halt_result(*old(self)) {
                Ok(s) => res is Ok && *final(self) == s,
                Err(e) => res == Err::<(), ContractError>(e) && *final(self) == *old(self),
            },
    {
        assert_bridge_active(self.bridge_state)?;
        self.bridge_state = BridgeState::Halted;
        Ok(())
    }

    /// Resumes the bridge, unless a key rotation is still ongoing.
    pub fn resume(&mut self) -> (res: Result<(), ContractError>)
        ensures
            match resume_result(*old(self)) {
                Ok(s) => res is Ok && *final(self) == s,
                Err(e) => res == Err::<(), ContractError>(e) && *final(self) == *old(self),
            },
    {
        if self.pending_rotate_keys {
            return Err(ContractError::RotateKeysOngoing {  });
        }
        self.bridge_state = BridgeState::Active;
        Ok(())
    }

    /// Starts a key rotation: marks it pending and halts the bridge. Only one
    /// rotation may be ongoing at a time.
    pub fn start_key_rotation(&mut self) -> (res: Result<(), ContractError>)
        ensures
            match start_key_rotation_result(*old(self)) {
                Ok(s) => res is Ok && *final(self) == s,
                Err(e) => res == Err::<(), ContractError>(e) && *final(self) == *old(self),
            },
    {
        if self.pending_rotate_keys {
            return Err(ContractError::RotateKeysOngoing {  });
        }
        self.pending_rotate_keys = true;
        self.bridge_state = BridgeState::Halted;
        Ok(())
    }
}

impl BridgeStatus {
    /// Rotates the relayer keys: refused while a rotation is ongoing; the new
    /// relayer set must be valid (no relayer on a prohibited XRPL address);
    /// the first available ticket then goes to a `RotateKeys` operation, the
    /// rotation is pending and the bridge halted. The relayers in office stay
    /// until XRPL accepts the rotation. Nothing changes when it is refused.
    pub fn rotate_keys<Sig>(
        &mut self,
        queue: &mut OperationQueue<Sig>,
        new_relayers: Vec<Relayer>,
        new_evidence_threshold: u32,
        cosmos_address_errors: &Vec<Option<String>>,
        prohibited_xrpl_addresses: &Vec<String>,
        operation_id: String,
        xrpl_base_fee: u64,
    ) -> (res: Result<u64, ContractError>)
        requires
            cosmos_address_errors@.len() == new_relayers@.len(),
        ensures
            ({
                let prohibited = string_views(prohibited_xrpl_addresses@);
                let valid_set = is_valid_relayer_set(
                    new_relayers@,
                    cosmos_address_errors@,
                    prohibited,
                    new_evidence_threshold,
                );
                let ticket_error = ticketed_operation_error(
                    old(queue).available_tickets@,
                    old(queue).pending_operations@,
                );
                &&& res is Ok <==> !old(self).pending_rotate_keys && valid_set && ticket_error is None
                &&& res matches Ok(t) ==> t == old(queue).available_tickets@[0]
                    && *final(self) == start_key_rotation_result(*old(self))->Ok_0
                    && takes_ticket_for(
                    *old(queue),
                    *final(queue),
                    operation_id@,
                    OperationType::RotateKeys { new_relayers, new_evidence_threshold },
                    xrpl_base_fee,
                )
                &&& res is Err ==> *final(self) == *old(self) && same_queue(*old(queue), *final(queue))
                &&& res matches Err(e) ==> if old(self).pending_rotate_keys {
                    e == (ContractError::RotateKeysOngoing {  })
                } else if !valid_set {
                    is_relayer_set_error(
                        e,
                        new_relayers@,
                        cosmos_address_errors@,
                        prohibited,
                        new_evidence_threshold,
                    )
                } else {
                    ticket_error == Some(e)
                }
            }),
    {
        if self.pending_rotate_keys {
            return Err(ContractError::RotateKeysOngoing {  });
        }
        validate_relayers(
            &new_relayers,
            new_evidence_threshold,
            cosmos_address_errors,
            prohibited_xrpl_addresses,
        )?;
        let ticket = queue.create_ticketed_operation(
            operation_id,
            OperationType::RotateKeys { new_relayers, new_evidence_threshold },
            xrpl_base_fee,
        )?;
        let r = self.start_key_rotation();
        assert(r is Ok);
        Ok(ticket)
    }
}

/// Completing a key rotation, once XRPL reported its transaction: the
/// rotation is no longer pending and the bridge keeps its state, halted,
/// until the owner resumes it.
pub open spec fn complete_key_rotation_result(s: BridgeStatus) -> BridgeStatus {
    BridgeStatus { pending_rotate_keys: false, ..s }
}

impl BridgeStatus {
    /// Completes a key rotation with the result XRPL reported for it: where
    /// the transaction was accepted the new relayer set and evidence
    /// threshold replace the old ones, which stay otherwise.
    pub fn complete_key_rotation(
        &mut self,
        relayers: &mut Vec<Relayer>,
        evidence_threshold: &mut u32,
        transaction_result: TransactionResult,
        new_relayers: Vec<Relayer>,
        new_evidence_threshold: u32,
    )
        ensures
            *final(self) == complete_key_rotation_result(*old(self)),
            transaction_result == TransactionResult::Accepted ==> final(relayers)@ == new_relayers@
                && *final(evidence_threshold) == new_evidence_threshold,
            transaction_result != TransactionResult::Accepted ==> final(relayers)@ == old(relayers)@
                && *final(evidence_threshold) == *old(evidence_threshold),
    {
        if let TransactionResult::Accepted = transaction_result {
            *relayers = new_relayers;
            *evidence_threshold = new_evidence_threshold;
        }
        self.pending_rotate_keys = false;
    }
}

/// A key rotation leaves the bridge halted until it completes, and once it
/// completes, whatever its result, the owner can resume the bridge and start
/// another rotation.
pub proof fn lemma_key_rotation_cycle(s: BridgeStatus)
    requires
        !s.pending_rotate_keys,
    ensures
        ({
            let rotating = start_key_rotation_result(s)->Ok_0;
            let done = complete_key_rotation_result(rotating);
            &&& start_key_rotation_result(s) is Ok
            &&& done.bridge_state == BridgeState::Halted
            &&& resume_result(done) == Ok::<BridgeStatus, ContractError>(
                BridgeStatus { bridge_state: BridgeState::Active, pending_rotate_keys: false },
            )
            &&& start_key_rotation_result(done) is Ok
        }),
{
}

/// While a key rotation is ongoing the bridge cannot be resumed: right after a
/// rotation starts the bridge is halted, resuming is refused, and so is
/// starting another rotation.
pub proof fn lemma_rotation_blocks_resume(s: BridgeStatus)
    requires
        start_key_rotation_result(s) is Ok,
    ensures
        start_key_rotation_result(s)->Ok_0.bridge_state == BridgeState::Halted,
        resume_result(start_key_rotation_result(s)->Ok_0) == Err::<BridgeStatus, ContractError>(
            ContractError::RotateKeysOngoing {  },
        ),
        start_key_rotation_result(start_key_rotation_result(s)->Ok_0) is Err,
{
}

/// Halting then resuming, with no key rotation ongoing, gives back the active
/// bridge; a halted bridge cannot be halted again.
pub proof fn lemma_halt_resume_roundtrip(s: BridgeStatus)
    requires
        s.bridge_state == BridgeState::Active,
        !s.pending_rotate_keys,
    ensures
        halt_result(s) is Ok,
        halt_result(halt_result(s)->Ok_0) is Err,
        resume_result(halt_result(s)->Ok_0) == Ok::<BridgeStatus, ContractError>(s),
{
}

/// Sets a new used ticket threshold, which must be at least two and at most
/// `MAX_TICKETS`.
pub fn update_used_ticket_sequence_threshold(used_ticket_sequence_threshold: u32) -> (res: Result<
    u32,
    ContractError,
>)
    ensures
        res is Ok <==> is_valid_used_ticket_sequence_threshold(used_ticket_sequence_threshold),
        res matches Ok(t) ==> t == used_ticket_sequence_threshold,
        res matches Err(e) ==> e == (ContractError::InvalidUsedTicketSequenceThreshold {  }),
{
    if used_ticket_sequence_threshold <= 1 || used_ticket_sequence_threshold > MAX_TICKETS {
        return Err(ContractError::InvalidUsedTicketSequenceThreshold {  });
    }
    Ok(used_ticket_sequence_threshold)
}

/// Number of tickets to allocate when recovering tickets, or why it is refused.
pub open spec fn recover_tickets_result(
    available_tickets: Seq<u64>,
    pending_ticket_update: bool,
    used_tickets: u32,
    number_of_tickets: Option<u32>,
    used_ticket_sequence_threshold: u32,
) -> Result<u32, ContractError> {
    if available_tickets.len() != 0 {
        Err(ContractError::StillHaveAvailableTickets {  })
    } else if pending_ticket_update {
        Err(ContractError::PendingTicketUpdate {  })
    } else {
        let n = match number_of_tickets {
            Some(n) => n,
            None => used_tickets,
        };
        if n <= used_ticket_sequence_threshold || n > MAX_TICKETS {
            Err(ContractError::InvalidTicketSequenceToAllocate {  })
        } else {
            Ok(n)
        }
    }
}

/// A ticket recovery is accepted only with no ticket left and no ticket
/// update pending, for a number of tickets above the used ticket threshold
/// and at most `MAX_TICKETS`: the number requested, or else the number of
/// tickets used.
pub proof fn lemma_recovered_tickets(
    available_tickets: Seq<u64>,
    pending_ticket_update: bool,
    used_tickets: u32,
    number_of_tickets: Option<u32>,
    used_ticket_sequence_threshold: u32,
)
    requires
        recover_tickets_result(
            available_tickets,
            pending_ticket_update,
            used_tickets,
            number_of_tickets,
            used_ticket_sequence_threshold,
        ) is Ok,
    ensures
        ({
            let n = recover_tickets_result(
                available_tickets,
                pending_ticket_update,
                used_tickets,
                number_of_tickets,
                used_ticket_sequence_threshold,
            )->Ok_0;
            &&& available_tickets.len() == 0
            &&& !pending_ticket_update
            &&& used_ticket_sequence_threshold < n <= MAX_TICKETS
            &&& n == (if number_of_tickets is Some {
                number_of_tickets->Some_0
            } else {
                used_tickets
            })
        }),
{
}

/// Recovers tickets with an XRPL transaction on `account_sequence`: allowed
/// only when no ticket is left and no ticket update is pending. Allocates
/// `number_of_tickets`, or as many tickets as were used, which must exceed
/// the used ticket threshold and not exceed `MAX_TICKETS`. An
/// `AllocateTickets` operation is then pending under the account sequence,
/// and so is a ticket update; the number is returned. Nothing changes when
/// it is refused.
pub fn recover_tickets<Sig>(
    queue: &mut OperationQueue<Sig>,
    account_sequence: u64,
    number_of_tickets: Option<u32>,
    used_ticket_sequence_threshold: u32,
    operation_id: String,
    xrpl_base_fee: u64,
) -> (res: Result<u32, ContractError>)
    ensures
        ({
            let decided = recover_tickets_result(
                old(queue).available_tickets@,
                old(queue).pending_ticket_update,
                old(queue).used_tickets_counter,
                number_of_tickets,
                used_ticket_sequence_threshold,
            );
            let exists = has_pending_operation(old(queue).pending_operations@, account_sequence);
            &&& decided matches Err(e) ==> res == Err::<u32, ContractError>(e)
            &&& decided is Ok && exists ==> res == Err::<u32, ContractError>(
                ContractError::PendingOperationAlreadyExists {  },
            )
            &&& decided is Ok && !exists ==> res == decided
            &&& res matches Ok(n) ==> {
                &&& used_ticket_sequence_threshold < n <= MAX_TICKETS
                &&& final(queue).pending_ticket_update
                &&& final(queue).available_tickets@ == old(queue).available_tickets@
                &&& final(queue).used_tickets_counter == old(queue).used_tickets_counter
                &&& adds_operation(
                    old(queue).pending_operations@,
                    final(queue).pending_operations@,
                    operation_id@,
                    None,
                    Some(account_sequence),
                    OperationType::AllocateTickets { number: n },
                    xrpl_base_fee,
                )
            }
            &&& res is Err ==> same_queue(*old(queue), *final(queue))
        }),
{
    if queue.available_tickets.len() != 0 {
        return Err(ContractError::StillHaveAvailableTickets {  });
    }
    if queue.pending_ticket_update {
        return Err(ContractError::PendingTicketUpdate {  });
    }
    let number_to_allocate = match number_of_tickets {
        Some(n) => n,
        None => queue.used_tickets_counter,
    };
    if number_to_allocate <= used_ticket_sequence_threshold || number_to_allocate > MAX_TICKETS {
        return Err(ContractError::InvalidTicketSequenceToAllocate {  });
    }
    create_pending_operation(
        &mut queue.pending_operations,
        operation_id,
        None,
        Some(account_sequence),
        OperationType::AllocateTickets { number: number_to_allocate },
        xrpl_base_fee,
    )?;
    queue.pending_ticket_update = true;
    Ok(number_to_allocate)
}

/// A used ticket threshold of at least two and at most `MAX_TICKETS`.
pub open spec fn is_valid_used_ticket_sequence_threshold(threshold: u32) -> bool {
    1 < threshold <= MAX_TICKETS
}

/// Checks the parameters of a new bridge, in order: the relayer set with its
/// evidence threshold (no relayer may use an initially prohibited XRPL
/// address, the bridge's own among them), the XRPL multisig address, the used ticket threshold
/// (in `2..=MAX_TICKETS`) and the trust set limit (an amount XRPL can
/// represent). The chain's verdict on each relayer's Cosmos address comes in
/// `cosmos_address_errors`.
pub fn validate_instantiation(
    relayers: &Vec<Relayer>,
    evidence_threshold: u32,
    cosmos_address_errors: &Vec<Option<String>>,
    bridge_xrpl_address: &str,
    used_ticket_sequence_threshold: u32,
    trust_set_limit_amount: u128,
) -> (res: Result<(), ContractError>)
    requires
        cosmos_address_errors@.len() == relayers@.len(),
    ensures
        res is Ok <==> is_valid_relayer_set(
            relayers@,
            cosmos_address_errors@,
            initial_prohibited_addresses(bridge_xrpl_address@),
            evidence_threshold,
        ) && is_valid_xrpl_address(bridge_xrpl_address@)
            && is_valid_used_ticket_sequence_threshold(used_ticket_sequence_threshold)
            && is_valid_xrpl_amount(trust_set_limit_amount),
        res matches Err(e) ==> {
            if !is_valid_relayer_set(
                relayers@,
                cosmos_address_errors@,
                initial_prohibited_addresses(bridge_xrpl_address@),
                evidence_threshold,
            ) {
                is_relayer_set_error(
                    e,
                    relayers@,
                    cosmos_address_errors@,
                    initial_prohibited_addresses(bridge_xrpl_address@),
                    evidence_threshold,
                )
            } else if !is_valid_xrpl_address(bridge_xrpl_address@) {
                e matches ContractError::InvalidXRPLAddress { address: a } && a@
                    == bridge_xrpl_address@
            } else if !is_valid_used_ticket_sequence_threshold(used_ticket_sequence_threshold) {
                e == (ContractError::InvalidUsedTicketSequenceThreshold {  })
            } else {
                e == (ContractError::InvalidXRPLAmount {  })
            }
        },
{
    let prohibited = initial_prohibited_xrpl_addresses(&bridge_xrpl_address.to_owned());
    validate_relayers(relayers, evidence_threshold, cosmos_address_errors, &prohibited)?;
    validate_xrpl_address_format(bridge_xrpl_address)?;
    if used_ticket_sequence_threshold <= 1 || used_ticket_sequence_threshold > MAX_TICKETS {
        return Err(ContractError::InvalidUsedTicketSequenceThreshold {  });
    }
    validate_xrpl_amount(trust_set_limit_amount)?;
    Ok(())
}

/// The bridge's configuration, as given when it is created.
pub struct BridgeConfig {
    pub relayers: Vec<Relayer>,
    pub evidence_threshold: u32,
    pub used_ticket_sequence_threshold: u32,
    pub trust_set_limit_amount: u128,
    pub bridge_xrpl_address: String,
    pub xrpl_base_fee: u64,
    pub token_factory_addr: String,
    pub rate_limit_addr: Option<String>,
    pub osor_entry_point: Option<String>,
}

/// Everything a new bridge starts with.
pub struct BridgeSetup<Sig> {
    pub config: BridgeConfig,
    pub status: BridgeStatus,
    pub queue: OperationQueue<Sig>,
    pub prohibited_xrpl_addresses: Vec<String>,
    pub xrp_token: XRPLToken,
    /// The subdenom to create for XRP through the token factory, when the
    /// bridge issues it.
    pub issue_xrp_subdenom: Option<String>,
}

/// Creates a bridge: its parameters are checked as `validate_instantiation`
/// says; it then starts active, with no key rotation, no ticket, no pending
/// operation or ticket update and no used ticket, the initial prohibited
/// addresses, and XRP registered under the token factory's `XRP` denom, which
/// is created when `issue_token` is set.
pub fn instantiate<Sig>(
    config: BridgeConfig,
    cosmos_address_errors: &Vec<Option<String>>,
    issue_token: bool,
) -> (res: Result<BridgeSetup<Sig>, ContractError>)
    requires
        cosmos_address_errors@.len() == config.relayers@.len(),
    ensures
        res is Ok <==> is_valid_relayer_set(
            config.relayers@,
            cosmos_address_errors@,
            initial_prohibited_addresses(config.bridge_xrpl_address@),
            config.evidence_threshold,
        ) && is_valid_xrpl_address(config.bridge_xrpl_address@)
            && is_valid_used_ticket_sequence_threshold(config.used_ticket_sequence_threshold)
            && is_valid_xrpl_amount(config.trust_set_limit_amount),
        res matches Err(e) ==> {
            if !is_valid_relayer_set(
                config.relayers@,
                cosmos_address_errors@,
                initial_prohibited_addresses(config.bridge_xrpl_address@),
                config.evidence_threshold,
            ) {
                is_relayer_set_error(
                    e,
                    config.relayers@,
                    cosmos_address_errors@,
                    initial_prohibited_addresses(config.bridge_xrpl_address@),
                    config.evidence_threshold,
                )
            } else if !is_valid_xrpl_address(config.bridge_xrpl_address@) {
                e matches ContractError::InvalidXRPLAddress { address: a } && a@
                    == config.bridge_xrpl_address@
            } else if !is_valid_used_ticket_sequence_threshold(config.used_ticket_sequence_threshold) {
                e == (ContractError::InvalidUsedTicketSequenceThreshold {  })
            } else {
                e == (ContractError::InvalidXRPLAmount {  })
            }
        },
        res matches Ok(b) ==> {
            &&& b.config == config
            &&& b.status == BridgeStatus { bridge_state: BridgeState::Active, pending_rotate_keys: false }
            &&& b.queue.available_tickets@.len() == 0
            &&& b.queue.pending_operations@.len() == 0
            &&& !b.queue.pending_ticket_update
            &&& b.queue.used_tickets_counter == 0
            &&& string_views(b.prohibited_xrpl_addresses@) == initial_prohibited_addresses(
                config.bridge_xrpl_address@,
            )
            &&& b.xrp_token.issuer@ == XRP_ISSUER@
            &&& b.xrp_token.currency@ == XRP_CURRENCY@
            &&& b.xrp_token.cosmos_denom@ == full_denom_of(config.token_factory_addr@, XRP_SYMBOL@)
            &&& b.xrp_token.sending_precision == XRP_DEFAULT_SENDING_PRECISION
            &&& b.xrp_token.max_holding_amount == XRP_DEFAULT_MAX_HOLDING_AMOUNT
            &&& b.xrp_token.state == TokenState::Enabled
            &&& b.xrp_token.bridging_fee == XRP_DEFAULT_FEE
            &&& if issue_token {
                b.issue_xrp_subdenom matches Some(d) && d@ == XRP_SYMBOL@
            } else {
                b.issue_xrp_subdenom is None
            }
        },
{
    validate_instantiation(
        &config.relayers,
        config.evidence_threshold,
        cosmos_address_errors,
        config.bridge_xrpl_address.as_str(),
        config.used_ticket_sequence_threshold,
        config.trust_set_limit_amount,
    )?;
    let prohibited_xrpl_addresses = initial_prohibited_xrpl_addresses(&config.bridge_xrpl_address);
    let xrp = xrp_token(full_denom(config.token_factory_addr.as_str(), XRP_SYMBOL));
    let issue_xrp_subdenom = if issue_token {
        Some(XRP_SYMBOL.to_owned())
    } else {
        None
    };
    Ok(
        BridgeSetup {
            config,
            status: BridgeStatus { bridge_state: BridgeState::Active, pending_rotate_keys: false },
            queue: OperationQueue {
                available_tickets: Vec::new(),
                pending_operations: Vec::new(),
                pending_ticket_update: false,
                used_tickets_counter: 0,
            },
            prohibited_xrpl_addresses,
            xrp_token: xrp,
            issue_xrp_subdenom,
        },
    )
}

/// Views of a list of strings.
pub open spec fn string_views(v: Seq<String>) -> Seq<Seq<char>> {
    v.map_values(|s: String| s@)
}

proof fn lemma_views_push(v: Seq<String>, s: String)
    ensures
        string_views(v.push(s)) == string_views(v).push(s@),
{
    assert(string_views(v.push(s)) =~= string_views(v).push(s@));
}

proof fn lemma_views_prefix_extend(v: Seq<String>, i: int)
    requires
        0 <= i < v.len(),
    ensures
        string_views(v.subrange(0, i + 1)) == string_views(v.subrange(0, i)).push(v[i]@),
{
    assert(v.subrange(0, i + 1) =~= v.subrange(0, i).push(v[i]));
    lemma_views_push(v.subrange(0, i), v[i]);
}

/// The addresses prohibited when the bridge is created: the well-known
/// special XRPL addresses and the bridge's own multisig address.
pub open spec fn initial_prohibited_addresses(bridge_xrpl_address: Seq<char>) -> Seq<Seq<char>> {
    INITIAL_PROHIBITED_XRPL_ADDRESSES@.map_values(|s: &str| s@).push(bridge_xrpl_address)
}

/// Lists the recipients prohibited at instantiation.
pub fn initial_prohibited_xrpl_addresses(bridge_xrpl_address: &String) -> (res: Vec<String>)
    ensures
        string_views(res@) == initial_prohibited_addresses(bridge_xrpl_address@),
{
    let mut res: Vec<String> = Vec::new();
    let mut i: usize = 0;
    while i < 5
        invariant
            i <= 5,
            string_views(res@) == INITIAL_PROHIBITED_XRPL_ADDRESSES@.map_values(
                |s: &str| s@,
            ).subrange(0, i as int),
        decreases 5 - i,
    {
        let ghost before = res@;
        let a = INITIAL_PROHIBITED_XRPL_ADDRESSES[i].to_owned();
        res.push(a);
        proof {
            lemma_views_push(before, a);
            assert(string_views(res@) =~= INITIAL_PROHIBITED_XRPL_ADDRESSES@.map_values(
                |s: &str| s@,
            ).subrange(0, i + 1));
        }
        i = i + 1;
    }
    let ghost before = res@;
    let b = bridge_xrpl_address.clone();
    res.push(b);
    proof {
        lemma_views_push(before, b);
        assert(INITIAL_PROHIBITED_XRPL_ADDRESSES@.map_values(|s: &str| s@).subrange(0, 5)
            =~= INITIAL_PROHIBITED_XRPL_ADDRESSES@.map_values(|s: &str| s@));
    }
    assert(string_views(res@) =~= initial_prohibited_addresses(bridge_xrpl_address@));
    res
}

/// The XRP token as registered at instantiation: enabled from the start, with
/// the default sending precision, holding limit and fee.
pub fn xrp_token(cosmos_denom: String) -> (token: XRPLToken)
    ensures
        token.issuer@ == XRP_ISSUER@,
        token.currency@ == XRP_CURRENCY@,
        token.cosmos_denom@ == cosmos_denom@,
        token.sending_precision == XRP_DEFAULT_SENDING_PRECISION,
        token.max_holding_amount == XRP_DEFAULT_MAX_HOLDING_AMOUNT,
        token.state == TokenState::Enabled,
        token.bridging_fee == XRP_DEFAULT_FEE,
{
    XRPLToken {
        issuer: XRP_ISSUER.to_owned(),
        currency: XRP_CURRENCY.to_owned(),
        cosmos_denom,
        sending_precision: XRP_DEFAULT_SENDING_PRECISION,
        max_holding_amount: XRP_DEFAULT_MAX_HOLDING_AMOUNT,
        state: TokenState::Enabled,
        bridging_fee: XRP_DEFAULT_FEE,
    }
}

/// Replaces the prohibited recipients with the bridge's own multisig address
/// and the given addresses, each of which must be a well-formed XRPL address.
/// Fails on the first malformed one.
#[verifier::loop_isolation(false)]
pub fn update_prohibited_xrpl_addresses(
    bridge_xrpl_address: &String,
    prohibited_xrpl_addresses: Vec<String>,
) -> (res: Result<Vec<String>, ContractError>)
    ensures
        res is Ok <==> forall|i: int|
            0 <= i < prohibited_xrpl_addresses@.len() ==> is_valid_xrpl_address(
                #[trigger] prohibited_xrpl_addresses@[i]@,
            ),
        res matches Ok(v) ==> string_views(v@) == seq![bridge_xrpl_address@] + string_views(
            prohibited_xrpl_addresses@,
        ),
        res matches Err(e) ==> exists|i: int|
            0 <= i < prohibited_xrpl_addresses@.len() && !is_valid_xrpl_address(
                #[trigger] prohibited_xrpl_addresses@[i]@,
            ) && (forall|j: int|
                0 <= j < i ==> is_valid_xrpl_address(prohibited_xrpl_addresses@[j]@)) && (
            e matches ContractError::InvalidXRPLAddress { address: a } && a@
                == prohibited_xrpl_addresses@[i]@),
{
    let mut res: Vec<String> = Vec::new();
    res.push(bridge_xrpl_address.clone());
    let mut i: usize = 0;
    while i < prohibited_xrpl_addresses.len()
        invariant
            i <= prohibited_xrpl_addresses@.len(),
            forall|j: int| 0 <= j < i ==> is_valid_xrpl_address(prohibited_xrpl_addresses@[j]@),
            string_views(res@) == seq![bridge_xrpl_address@] + string_views(
                prohibited_xrpl_addresses@.subrange(0, i as int),
            ),
        decreases prohibited_xrpl_addresses@.len() - i,
    {
        let address = &prohibited_xrpl_addresses[i];
        match validate_xrpl_address_format(address.as_str()) {
            Ok(()) => {},
            Err(e) => {
                return Err(e);
            },
        }
        let ghost before = res@;
        let a = address.clone();
        res.push(a);
        proof {
            lemma_views_push(before, a);
            lemma_views_prefix_extend(prohibited_xrpl_addresses@, i as int);
            assert(string_views(res@) =~= seq![bridge_xrpl_address@] + string_views(
                prohibited_xrpl_addresses@.subrange(0, i + 1),
            ));
        }
        i = i + 1;
    }
    assert(prohibited_xrpl_addresses@.subrange(0, i as int) =~= prohibited_xrpl_addresses@);
    Ok(res)
}

/// An operation waiting for its signatures and its result on XRPL. It is
/// identified by `id`, signed at `version`, and executed with a ticket or an
/// account sequence.
pub struct Operation<Sig, Kind> {
    pub id: String,
    pub version: u64,
    pub ticket_sequence: Option<u64>,
    pub account_sequence: Option<u64>,
    pub signatures: Vec<Sig>,
    pub operation_type: Kind,
    pub xrpl_base_fee: u64,
}

/// `after` is `before` re-issued under a new XRPL base fee: next version, no
/// signature, every other field kept.
pub open spec fn is_reissued<Sig, Kind>(
    before: Operation<Sig, Kind>,
    after: Operation<Sig, Kind>,
    xrpl_base_fee: u64,
) -> bool {
    &&& after.id@ == before.id@
    &&& after.version == before.version + 1
    &&& after.ticket_sequence == before.ticket_sequence
    &&& after.account_sequence == before.account_sequence
    &&& after.signatures@.len() == 0
    &&& after.operation_type == before.operation_type
    &&& after.xrpl_base_fee == xrpl_base_fee
}

/// A re-issued operation is the same operation at the next version, under
/// the new fee, with no signature left.
pub proof fn lemma_reissued_operation<Sig, Kind>(
    before: Operation<Sig, Kind>,
    after: Operation<Sig, Kind>,
    xrpl_base_fee: u64,
)
    requires
        is_reissued(before, after, xrpl_base_fee),
    ensures
        after.version > before.version,
        after.version - before.version == 1,
        after.signatures@.len() == 0,
        after.xrpl_base_fee == xrpl_base_fee,
        after.id@ == before.id@ && after.ticket_sequence == before.ticket_sequence
            && after.account_sequence == before.account_sequence && after.operation_type
            == before.operation_type,
{
}

/// Applies a new XRPL base fee to all pending operations: each gets the new
/// fee, its version increases by one and its signatures are dropped, since
/// they were made for the old fee.
pub fn update_xrpl_base_fee<Sig, Kind>(
    operations: Vec<Operation<Sig, Kind>>,
    xrpl_base_fee: u64,
) -> (res: Vec<Operation<Sig, Kind>>)
    requires
        forall|i: int| 0 <= i < operations@.len() ==> #[trigger] operations@[i].version < u64::MAX,
    ensures
        res@.len() == operations@.len(),
        forall|i: int|
            0 <= i < res@.len() ==> is_reissued(operations@[i], #[trigger] res@[i], xrpl_base_fee),
{
    let ghost original = operations@;
    let mut remaining = operations;
    let mut res: Vec<Operation<Sig, Kind>> = Vec::new();
    while remaining.len() > 0
        invariant
            res@.len() + remaining@.len() == original.len(),
            remaining@ == original.subrange(res@.len() as int, original.len() as int),
            forall|i: int| 0 <= i < original.len() ==> #[trigger] original[i].version < u64::MAX,
            forall|i: int|
                0 <= i < res@.len() ==> is_reissued(original[i], #[trigger] res@[i], xrpl_base_fee),
        decreases remaining@.len(),
    {
        let ghost k = res@.len() as int;
        let op = remaining.remove(0);
        assert(op == original[k]);
        res.push(
            Operation {
                id: op.id,
                version: op.version + 1,
                ticket_sequence: op.ticket_sequence,
                account_sequence: op.account_sequence,
                signatures: Vec::new(),
                operation_type: op.operation_type,
                xrpl_base_fee,
            },
        );
        assert(remaining@ =~= original.subrange(res@.len() as int, original.len() as int));
    }
    res
}

/// Name under which the contract records its version.
pub const CONTRACT_NAME: &'static str = "cw-xrpl";

/// Decides whether a sender may perform an action: it must be the owner and
/// the action be one the owner may perform, or a relayer and the action be one
/// a relayer may perform.
pub fn check_authorization(
    is_owner: bool,
    owner_may_perform: bool,
    is_relayer: bool,
    relayer_may_perform: bool,
) -> (res: Result<(), ContractError>)
    ensures
        res is Ok <==> (is_owner && owner_may_perform) || (is_relayer && relayer_may_perform),
        res matches Err(e) ==> e == (ContractError::UnauthorizedSender {  }),
{
    if (is_owner && owner_may_perform) || (is_relayer && relayer_may_perform) {
        Ok(())
    } else {
        Err(ContractError::UnauthorizedSender {  })
    }
}

/// A migration is only accepted from a contract recorded under the same name.
pub fn check_migration(stored_contract_name: &str) -> (res: Result<(), ContractError>)
    ensures
        res is Ok <==> stored_contract_name@ == CONTRACT_NAME@,
        res matches Err(e) ==> (e matches ContractError::Std(m) && m@
            == "Generic error: Can only upgrade from same contract type"@),
{
    if crate::token::str_equal(stored_contract_name, CONTRACT_NAME) {
        Ok(())
    } else {
        Err(ContractError::Std("Generic error: Can only upgrade from same contract type".to_owned()))
    }
}

/// Outcome of an XRPL transaction as reported by the relayers.
#[derive(Debug, Clone, Copy, PartialEq, Eq, Structural)]
pub enum TransactionResult {
    Accepted,
    Rejected,
    Invalid,
}

/// The pending operation a transaction result refers to: the account sequence
/// when the transaction used one, else its ticket. Operations executed only
/// with tickets (trust sets and transfers to XRPL) cannot be reported with an
/// account sequence.
pub fn transaction_result_operation_id(
    account_sequence: Option<u64>,
    ticket_sequence: Option<u64>,
    executed_with_tickets_only: bool,
) -> (res: Result<u64, ContractError>)
    requires
        account_sequence is Some || ticket_sequence is Some,
    ensures
        res is Ok <==> !(executed_with_tickets_only && account_sequence is Some),
        res matches Ok(id) ==> id == match account_sequence {
            Some(a) => a,
            None => ticket_sequence->Some_0,
        },
        res matches Err(e) ==> e == (ContractError::InvalidTransactionResultEvidence {  }),
{
    let operation_id = match account_sequence {
        Some(a) => a,
        None => ticket_sequence.unwrap(),
    };
    if executed_with_tickets_only && account_sequence.is_some() {
        return Err(ContractError::InvalidTransactionResultEvidence {  });
    }
    Ok(operation_id)
}

/// Whether a confirmed transaction consumed a ticket: it used one and was not
/// invalid.
pub fn consumes_ticket(transaction_result: TransactionResult, ticket_sequence: Option<u64>) -> (r:
    bool)
    ensures
        r == (transaction_result != TransactionResult::Invalid && ticket_sequence is Some),
{
    transaction_result != TransactionResult::Invalid && ticket_sequence.is_some()
}

} // verus!
