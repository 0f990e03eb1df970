use vstd::prelude::*;
use vstd::bytes::spec_u64_from_le_bytes;
use crate::engine::{
    cancel, create_stream, withdraw, CancelContext, CancelOutcome, CreateArgs, CreateContext,
    WithdrawContext, WithdrawOutcome,
};
use crate::error::PaystreamError;
use crate::instruction::{PaystreamInstruction, CREATE_CALL_LEN, WITHDRAWAL_CALL_LEN};
use crate::state::{Pubkey, StreamAccount, StreamStatus};

verus! {

broadcast use vstd::array::group_array_axioms;

/// Everything the host hands a single call: the account-eligibility
/// flags it has checked, the balances and reservation it has read, the
/// identities whose required signatures it has verified, and the time
/// oracle's reading.
#[derive(Clone, Copy, Debug)]
pub struct CallContext {
    /// The stream account is owned by this system.
    pub stream_owned_by_program: bool,
    /// The stream account is writable in this call.
    pub stream_writable: bool,
    /// Current ledger balance of the stream account.
    pub stream_lamports: u64,
    /// Host-computed minimum-balance reservation for the account's size.
    pub minimum_balance: u64,
    /// Identity of the payee-side account supplied with the call.
    pub payee_identity: Pubkey,
    /// Identity of the payer-side account supplied with the call.
    pub payer_identity: Pubkey,
    /// Time-oracle reading for this call.
    pub now: u64,
}

/// The committed effect of a successful call: the record to persist and
/// the transfers the host must apply atomically with it.
#[derive(Clone, Copy, Debug, PartialEq, Eq)]
pub enum CallOutcome {
    Created(StreamAccount),
    Withdrawn(WithdrawOutcome),
    Cancelled(CancelOutcome),
}

/// The account-eligibility checks the host glue owes before the engine
/// runs: ownership and writability.
pub open spec fn eligible_spec(ctx: CallContext) -> bool {
    ctx.stream_owned_by_program && ctx.stream_writable
}

/// A payload no call can be decoded from: empty, an unrecognized
/// discriminator, or a truncated fixed-width field.
pub open spec fn call_malformed(data: Seq<u8>) -> bool {
    ||| data.len() == 0
    ||| (data[0] == 0 && data.len() < CREATE_CALL_LEN)
    ||| (data[0] == 1 && data.len() < WITHDRAWAL_CALL_LEN)
    ||| data[0] > 2
}

/// The payload decodes as a Create call.
pub open spec fn is_create_call(data: Seq<u8>) -> bool {
    data.len() >= CREATE_CALL_LEN && data[0] == 0
}

/// The payload decodes as a Withdrawal call.
pub open spec fn is_withdrawal_call(data: Seq<u8>) -> bool {
    data.len() >= WITHDRAWAL_CALL_LEN && data[0] == 1
}

/// The payload decodes as a Cancel call.
pub open spec fn is_cancel_call(data: Seq<u8>) -> bool {
    data.len() >= 1 && data[0] == 2
}

/// `args` carries exactly the fields encoded in a Create payload.
pub open spec fn create_args_match(args: CreateArgs, data: Seq<u8>) -> bool {
    &&& args.payee_pubkey@ == data.subrange(1, 33)
    &&& args.payer_pubkey@ == data.subrange(33, 65)
    &&& args.amount == spec_u64_from_le_bytes(data.subrange(65, 73))
    &&& args.duration_in_slots == spec_u64_from_le_bytes(data.subrange(73, 81))
}

/// The amount a Withdrawal payload requests.
pub open spec fn withdrawal_amount_of(data: Seq<u8>) -> u64 {
    spec_u64_from_le_bytes(data.subrange(1, 9))
}

/// The Create-specific slice of the call context.
pub open spec fn create_context_of(ctx: CallContext) -> CreateContext {
    CreateContext {
        stream_lamports: ctx.stream_lamports,
        minimum_balance: ctx.minimum_balance,
        now: ctx.now,
    }
}

/// The Withdraw-specific slice of the call context.
pub open spec fn withdraw_context_of(ctx: CallContext) -> WithdrawContext {
    WithdrawContext {
        payee_identity: ctx.payee_identity,
        now: ctx.now,
        stream_lamports: ctx.stream_lamports,
        minimum_balance: ctx.minimum_balance,
    }
}

/// The Cancel-specific slice of the call context.
pub open spec fn cancel_context_of(ctx: CallContext) -> CancelContext {
    CancelContext {
        payee_identity: ctx.payee_identity,
        payer_identity: ctx.payer_identity,
        now: ctx.now,
        stream_lamports: ctx.stream_lamports,
        minimum_balance: ctx.minimum_balance,
    }
}

/// A Create's engine result, as a call outcome.
pub open spec fn created_outcome(r: Result<StreamAccount, PaystreamError>) -> Result<
    CallOutcome,
    PaystreamError,
> {
    match r {
        Ok(rec) => Ok(CallOutcome::Created(rec)),
        Err(e) => Err(e),
    }
}

/// A Withdraw's engine result, as a call outcome. A record that never
/// completed a Create is turned away before the engine runs.
pub open spec fn withdrawn_outcome(record: StreamAccount, r: Result<
    WithdrawOutcome,
    PaystreamError,
>) -> Result<CallOutcome, PaystreamError> {
    if record.status == StreamStatus::Uninitialized {
        Err(PaystreamError::Uninitialized)
    } else {
        match r {
            Ok(o) => Ok(CallOutcome::Withdrawn(o)),
            Err(e) => Err(e),
        }
    }
}

/// A Cancel's engine result, as a call outcome. A record that never
/// completed a Create is turned away before the engine runs.
pub open spec fn cancelled_outcome(record: StreamAccount, r: Result<
    CancelOutcome,
    PaystreamError,
>) -> Result<CallOutcome, PaystreamError> {
    if record.status == StreamStatus::Uninitialized {
        Err(PaystreamError::Uninitialized)
    } else {
        match r {
            Ok(o) => Ok(CallOutcome::Cancelled(o)),
            Err(e) => Err(e),
        }
    }
}

/// The dispatcher: decodes one call and routes it through the engine.
pub struct Processor;

impl Processor {
    /// Receives one call, decodes it, validates the account's
    /// eligibility, and applies the operation to the record. The effect
    /// is returned for the host to commit atomically; any failure leaves
    /// everything unchanged.
    pub fn process(record: &StreamAccount, ctx: &CallContext, instruction_data: &[u8]) -> (r:
        Result<CallOutcome, PaystreamError>)
        ensures
            call_malformed(instruction_data@) ==> r == Err::<CallOutcome, PaystreamError>(
                PaystreamError::MalformedCall,
            ),
            !call_malformed(instruction_data@) && !ctx.stream_owned_by_program ==> r == Err::<
                CallOutcome,
                PaystreamError,
            >(PaystreamError::NotOwned),
            !call_malformed(instruction_data@) && ctx.stream_owned_by_program
                && !ctx.stream_writable ==> r == Err::<CallOutcome, PaystreamError>(
                PaystreamError::NotWritable,
            ),
            forall|args: CreateArgs|
                is_create_call(instruction_data@) && eligible_spec(*ctx) && #[trigger]
                create_args_match(args, instruction_data@) ==> r == created_outcome(
                    crate::engine::create_spec(*record, create_context_of(*ctx), args),
                ),
            is_withdrawal_call(instruction_data@) && eligible_spec(*ctx) ==> r
                == withdrawn_outcome(
                *record,
                crate::engine::withdraw_spec(
                    *record,
                    withdraw_context_of(*ctx),
                    withdrawal_amount_of(instruction_data@),
                ),
            ),
            is_cancel_call(instruction_data@) && eligible_spec(*ctx) ==> r == cancelled_outcome(
                *record,
                crate::engine::cancel_spec(*record, cancel_context_of(*ctx)),
            ),
    {
        let inst = match PaystreamInstruction::unpack(instruction_data) {
            Ok(i) => i,
            Err(e) => {
                return Err(e);
            },
        };
        if !ctx.stream_owned_by_program {
            return Err(PaystreamError::NotOwned);
        }
        if !ctx.stream_writable {
            return Err(PaystreamError::NotWritable);
        }
        match inst {
            PaystreamInstruction::Create { payee_pubkey, payer_pubkey, amount, duration_in_slots } => {
                let args = CreateArgs { payee_pubkey, payer_pubkey, amount, duration_in_slots };
                let create_ctx = CreateContext {
                    stream_lamports: ctx.stream_lamports,
                    minimum_balance: ctx.minimum_balance,
                    now: ctx.now,
                };
                proof {
                    assert forall|args2: CreateArgs|
                        create_args_match(args2, instruction_data@) implies args2 == args by {
                        assert(args2.payee_pubkey =~= args.payee_pubkey);
                        assert(args2.payer_pubkey =~= args.payer_pubkey);
                    }
                }
                match create_stream(record, &create_ctx, &args) {
                    Ok(rec) => Ok(CallOutcome::Created(rec)),
                    Err(e) => Err(e),
                }
            },
            PaystreamInstruction::Withdrawal { amount } => {
                if !record.is_initialized() {
                    return Err(PaystreamError::Uninitialized);
                }
                let withdraw_ctx = WithdrawContext {
                    payee_identity: ctx.payee_identity,
                    now: ctx.now,
                    stream_lamports: ctx.stream_lamports,
                    minimum_balance: ctx.minimum_balance,
                };
                match withdraw(record, &withdraw_ctx, amount) {
                    Ok(o) => Ok(CallOutcome::Withdrawn(o)),
                    Err(e) => Err(e),
                }
            },
            PaystreamInstruction::Cancel {  } => {
                if !record.is_initialized() {
                    return Err(PaystreamError::Uninitialized);
                }
                let cancel_ctx = CancelContext {
                    payee_identity: ctx.payee_identity,
                    payer_identity: ctx.payer_identity,
                    now: ctx.now,
                    stream_lamports: ctx.stream_lamports,
                    minimum_balance: ctx.minimum_balance,
                };
                match cancel(record, &cancel_ctx) {
                    Ok(o) => Ok(CallOutcome::Cancelled(o)),
                    Err(e) => Err(e),
                }
            },
        }
    }
}

} // verus!
