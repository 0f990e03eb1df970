use vstd::prelude::*;

verus! {

/// The typed failures a call can end with.
///
/// Every call returns success or exactly one of these; no failure is
/// retried internally and no precondition violation leaves a partial
/// state change behind.
#[derive(Clone, Copy, Debug, PartialEq, Eq, Structural)]
pub enum PaystreamError {
    /// The call payload could not be decoded: unrecognized leading
    /// discriminator byte, or a truncated fixed-width field.
    MalformedCall,
    /// The stream account is not owned by this system.
    NotOwned,
    /// The stream account is not writable.
    NotWritable,
    /// The stream account does not satisfy the host's minimum-balance
    /// reservation for its storage size.
    NotRentExempt,
    /// At creation: the account balance above the reservation does not
    /// cover the committed amount. At cancellation: nothing is left to
    /// settle.
    InsufficientAmount,
    /// The target account already holds an initialized stream record.
    AlreadyInitialized,
    /// The addressed account holds no initialized stream record.
    Uninitialized,
    /// The supplied payee identity does not match the record's payee.
    InvalidPayee,
    /// The supplied payer identity does not match the record's payer.
    InvalidPayer,
    /// The record's status does not allow the requested operation.
    NotActive,
    /// A vesting computation would divide by a zero duration or overflow.
    ArithmeticFault,
    /// The escrow balance no longer covers what the record owes. This is
    /// a fatal consistency fault: it is unreachable while the escrow
    /// invariant holds, but it is checked defensively rather than assumed.
    ConsistencyFault,
}

} // verus!
