use vstd::prelude::*;

verus! {

/// The arithmetic operation that overflowed.
#[derive(Debug, Clone, Copy, PartialEq, Eq)]
pub enum OverflowOperation {
    Add,
    Sub,
    Mul,
}

/// An arithmetic overflow on 128-bit amounts, with the operands that caused it.
#[derive(Debug, Clone, PartialEq, Eq)]
pub struct OverflowError {
    pub operation: OverflowOperation,
    pub operand1: u128,
    pub operand2: u128,
}

/// Every error the bridge reports. Errors raised by the host chain's
/// libraries (storage, ownership, payments, division) carry their message.
#[derive(Debug, Clone, PartialEq, Eq)]
pub enum ContractError {
    Std(String),
    Ownership(String),
    OverflowError(OverflowError),
    DivideByZeroError(String),
    Payment(String),
    InvalidThreshold {},
    InvalidXRPLAddress { address: String },
    DuplicatedRelayer {},
    CosmosTokenAlreadyRegistered { denom: String },
    XRPLTokenAlreadyRegistered { issuer: String, currency: String },
    RegistrationFailure {},
    UnauthorizedSender {},
    TokenNotRegistered {},
    OperationAlreadyExecuted {},
    EvidenceAlreadyProvided {},
    InvalidAmount {},
    InvalidUsedTicketSequenceThreshold {},
    NoAvailableTickets {},
    LastTicketReserved {},
    StillHaveAvailableTickets {},
    PendingTicketUpdate {},
    InvalidTransactionResultEvidence {},
    InvalidSuccessfulTransactionResultEvidence {},
    InvalidFailedTransactionResultEvidence {},
    InvalidTicketAllocationEvidence {},
    PendingOperationNotFound {},
    PendingOperationAlreadyExists {},
    SignatureAlreadyProvided {},
    InvalidTicketSequenceToAllocate {},
    InvalidXRPLCurrency {},
    TokenNotEnabled {},
    XRPLTokenNotInactive {},
    AmountSentIsZeroAfterTruncation {},
    MaximumBridgedAmountReached {},
    InvalidSendingPrecision {},
    InvalidDecimals {},
    InvalidOperationResult {},
    CannotCoverBridgingFees {},
    TokenStateIsImmutable {},
    InvalidTargetTokenState {},
    InvalidTargetMaxHoldingAmount {},
    PendingRefundNotFound {},
    NotEnoughFeesToClaim { denom: String, amount: u128 },
    TooManyRelayers {},
    BridgeHalted {},
    RotateKeysOngoing {},
    OperationVersionMismatch {},
    ProhibitedAddress {},
    DeliverAmountIsProhibited {},
    InvalidDeliverAmount {},
    InvalidSignatureLength {},
    InvalidXRPLAmount {},
    InvalidDenom {},
    UnknownReplyId { id: u64 },
}

} // verus!
