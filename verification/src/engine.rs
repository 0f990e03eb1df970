use vstd::prelude::*;
use crate::error::PaystreamError;
use crate::state::{pubkey_eq, Pubkey, StreamAccount, StreamStatus};

verus! {

/// Host readings a Create call is validated against. The stream account
/// must have been pre-funded before the call: Create moves no funds.
#[derive(Clone, Copy, Debug)]
pub struct CreateContext {
    /// Current ledger balance of the stream account.
    pub stream_lamports: u64,
    /// Host-computed minimum-balance reservation for the account's size.
    pub minimum_balance: u64,
    /// Time-oracle reading for this call.
    pub now: u64,
}

/// The decoded arguments of a Create call.
#[derive(Clone, Copy, Debug)]
pub struct CreateArgs {
    pub payee_pubkey: Pubkey,
    pub payer_pubkey: Pubkey,
    pub amount: u64,
    pub duration_in_slots: u64,
}

/// Host readings a Withdraw call is validated against. The host has
/// already verified that `payee_identity` signed the call.
#[derive(Clone, Copy, Debug)]
pub struct WithdrawContext {
    /// Identity the host validated as the caller claiming to be payee.
    pub payee_identity: Pubkey,
    /// Time-oracle reading for this call.
    pub now: u64,
    /// Current ledger balance of the stream account.
    pub stream_lamports: u64,
    /// Host-computed minimum-balance reservation for the account's size.
    pub minimum_balance: u64,
}

/// Host readings a Cancel call is validated against. Both identities are
/// supplied explicitly so the host can verify the initiating side's
/// signature.
#[derive(Clone, Copy, Debug)]
pub struct CancelContext {
    pub payee_identity: Pubkey,
    pub payer_identity: Pubkey,
    /// Time-oracle reading for this call.
    pub now: u64,
    /// Current ledger balance of the stream account.
    pub stream_lamports: u64,
    /// Host-computed minimum-balance reservation for the account's size.
    pub minimum_balance: u64,
}

/// The effect of a successful Withdraw: the new record, and the units
/// the host must transfer from the escrow to the payee, atomically with
/// persisting the record.
#[derive(Clone, Copy, Debug, PartialEq, Eq)]
pub struct WithdrawOutcome {
    pub record: StreamAccount,
    pub payout: u64,
}

/// The effect of a successful Cancel: the terminated record, the vested
/// share owed to the payee and the unvested remainder returned to the
/// payer. The host must apply both transfers and persist the record
/// atomically.
#[derive(Clone, Copy, Debug, PartialEq, Eq)]
pub struct CancelOutcome {
    pub record: StreamAccount,
    pub payee_payment: u64,
    pub payer_refund: u64,
}

/// Time elapsed since the stream started, saturating at zero.
pub open spec fn elapsed_spec(start: u64, now: u64) -> int {
    if now >= start {
        now - start
    } else {
        0
    }
}

/// Units releasable per elapsed time unit: truncating integer division.
pub open spec fn rate_spec(total: u64, duration: u64) -> int
    recommends
        duration > 0,
{
    total as int / duration as int
}

/// The vesting ceiling at `now`: rate times elapsed time. Not yet capped
/// at the remaining balance.
pub open spec fn max_releasable_spec(total: u64, duration: u64, start: u64, now: u64) -> int {
    rate_spec(total, duration) * elapsed_spec(start, now)
}

/// What a Withdraw pays out: the requested amount, capped at the vesting
/// ceiling and at the remaining balance.
pub open spec fn withdraw_payout_spec(record: StreamAccount, amount: u64, now: u64) -> int
    recommends
        record.duration_in_slots > 0,
{
    let releasable = max_releasable_spec(
        record.amount_in_lamports,
        record.duration_in_slots,
        record.start_timestamp_in_slots,
        now,
    );
    let capped = if amount <= releasable {
        amount as int
    } else {
        releasable
    };
    if capped <= record.remaining_lamports {
        capped
    } else {
        record.remaining_lamports as int
    }
}

/// What a Cancel pays the payee: the vesting ceiling at cancellation
/// time, capped at the remaining balance.
pub open spec fn cancel_vested_spec(record: StreamAccount, now: u64) -> int
    recommends
        record.duration_in_slots > 0,
{
    let releasable = max_releasable_spec(
        record.amount_in_lamports,
        record.duration_in_slots,
        record.start_timestamp_in_slots,
        now,
    );
    if releasable <= record.remaining_lamports {
        releasable
    } else {
        record.remaining_lamports as int
    }
}

/// The Create transition. Preconditions in order, first failure wins:
/// the account must hold the reservation, must hold the committed amount
/// above it, must be uninitialized, and the duration must be nonzero.
pub open spec fn create_spec(existing: StreamAccount, ctx: CreateContext, args: CreateArgs)
    -> Result<StreamAccount, PaystreamError> {
    if ctx.stream_lamports < ctx.minimum_balance {
        Err(PaystreamError::NotRentExempt)
    } else if ctx.stream_lamports - ctx.minimum_balance < args.amount {
        Err(PaystreamError::InsufficientAmount)
    } else if existing.status != StreamStatus::Uninitialized {
        Err(PaystreamError::AlreadyInitialized)
    } else if args.duration_in_slots == 0 {
        Err(PaystreamError::ArithmeticFault)
    } else {
        Ok(
            StreamAccount {
                status: StreamStatus::Active,
                payee_pubkey: args.payee_pubkey,
                payer_pubkey: args.payer_pubkey,
                amount_in_lamports: args.amount,
                remaining_lamports: args.amount,
                duration_in_slots: args.duration_in_slots,
                start_timestamp_in_slots: ctx.now,
            },
        )
    }
}

/// The Withdraw transition. The record must be active and the caller
/// must be the stored payee; the vesting arithmetic must neither divide
/// by zero nor overflow; the escrow must still cover the payout above
/// the reservation, else the call reports a consistency fault. When the
/// payout empties the remaining balance the stream completes.
pub open spec fn withdraw_spec(record: StreamAccount, ctx: WithdrawContext, amount: u64)
    -> Result<WithdrawOutcome, PaystreamError> {
    if record.status != StreamStatus::Active {
        Err(PaystreamError::NotActive)
    } else if record.payee_pubkey@ != ctx.payee_identity@ {
        Err(PaystreamError::InvalidPayee)
    } else if record.duration_in_slots == 0 {
        Err(PaystreamError::ArithmeticFault)
    } else if max_releasable_spec(
        record.amount_in_lamports,
        record.duration_in_slots,
        record.start_timestamp_in_slots,
        ctx.now,
    ) > u64::MAX {
        Err(PaystreamError::ArithmeticFault)
    } else {
        let payout = withdraw_payout_spec(record, amount, ctx.now);
        if ctx.stream_lamports < ctx.minimum_balance + payout {
            Err(PaystreamError::ConsistencyFault)
        } else {
            Ok(
                WithdrawOutcome {
                    record: StreamAccount {
                        status: if record.remaining_lamports == payout {
                            StreamStatus::Completed
                        } else {
                            StreamStatus::Active
                        },
                        remaining_lamports: (record.remaining_lamports - payout) as u64,
                        ..record
                    },
                    payout: payout as u64,
                },
            )
        }
    }
}

/// The Cancel transition. The record must be active with something left
/// to settle, and both supplied identities must match the record. The
/// vested share as of cancellation time goes to the payee, the rest back
/// to the payer; the record ends Terminated with nothing owed.
pub open spec fn cancel_spec(record: StreamAccount, ctx: CancelContext)
    -> Result<CancelOutcome, PaystreamError> {
    if record.status != StreamStatus::Active {
        Err(PaystreamError::NotActive)
    } else if record.remaining_lamports == 0 {
        Err(PaystreamError::InsufficientAmount)
    } else if record.payee_pubkey@ != ctx.payee_identity@ {
        Err(PaystreamError::InvalidPayee)
    } else if record.payer_pubkey@ != ctx.payer_identity@ {
        Err(PaystreamError::InvalidPayer)
    } else if record.duration_in_slots == 0 {
        Err(PaystreamError::ArithmeticFault)
    } else if max_releasable_spec(
        record.amount_in_lamports,
        record.duration_in_slots,
        record.start_timestamp_in_slots,
        ctx.now,
    ) > u64::MAX {
        Err(PaystreamError::ArithmeticFault)
    } else if ctx.stream_lamports < ctx.minimum_balance + record.remaining_lamports {
        Err(PaystreamError::ConsistencyFault)
    } else {
        let vested = cancel_vested_spec(record, ctx.now);
        Ok(
            CancelOutcome {
                record: StreamAccount {
                    status: StreamStatus::Terminated,
                    remaining_lamports: 0,
                    ..record
                },
                payee_payment: vested as u64,
                payer_refund: (record.remaining_lamports - vested) as u64,
            },
        )
    }
}

/// Units releasable per time unit, by truncating integer division.
pub fn calculate_rate(lamports: u64, seconds: u64) -> (r: u64)
    requires
        seconds > 0,
    ensures
        r == rate_spec(lamports, seconds),
{
    lamports / seconds
}

/// The vesting ceiling at `now`, or the fault the computation runs into:
/// a zero duration or an overflowing product is rejected, never computed
/// wrapped or truncated.
pub fn max_releasable(total: u64, duration: u64, start: u64, now: u64) -> (r: Result<
    u64,
    PaystreamError,
>)
    ensures
        duration == 0 ==> r == Err::<u64, PaystreamError>(PaystreamError::ArithmeticFault),
        duration > 0 && max_releasable_spec(total, duration, start, now) > u64::MAX ==> r == Err::<
            u64,
            PaystreamError,
        >(PaystreamError::ArithmeticFault),
        duration > 0 && max_releasable_spec(total, duration, start, now) <= u64::MAX ==> r == Ok::<
            u64,
            PaystreamError,
        >(max_releasable_spec(total, duration, start, now) as u64),
{
    if duration == 0 {
        return Err(PaystreamError::ArithmeticFault);
    }
    let rate = calculate_rate(total, duration);
    let elapsed = if now >= start {
        now - start
    } else {
        0
    };
    match rate.checked_mul(elapsed) {
        Some(ceiling) => Ok(ceiling),
        None => Err(PaystreamError::ArithmeticFault),
    }
}

/// Moves units between two ledger balances, as the host's transfer
/// primitive would. A source too small or a destination that would
/// overflow is a consistency fault: the engine never requests either.
pub fn transfer(source_lamports: u64, dest_lamports: u64, amount_in_lamports: u64) -> (r: Result<
    (u64, u64),
    PaystreamError,
>)
    ensures
        match r {
            Ok(moved) => {
                &&& source_lamports >= amount_in_lamports
                &&& dest_lamports + amount_in_lamports <= u64::MAX
                &&& moved.0 == source_lamports - amount_in_lamports
                &&& moved.1 == dest_lamports + amount_in_lamports
            },
            Err(e) => {
                &&& e == PaystreamError::ConsistencyFault
                &&& (source_lamports < amount_in_lamports || dest_lamports + amount_in_lamports
                    > u64::MAX)
            },
        },
{
    if source_lamports < amount_in_lamports {
        return Err(PaystreamError::ConsistencyFault);
    }
    match dest_lamports.checked_add(amount_in_lamports) {
        Some(dest) => Ok((source_lamports - amount_in_lamports, dest)),
        None => Err(PaystreamError::ConsistencyFault),
    }
}

/// Validates and applies a Create call.
pub fn create_stream(existing: &StreamAccount, ctx: &CreateContext, args: &CreateArgs) -> (r:
    Result<StreamAccount, PaystreamError>)
    ensures
        r == create_spec(*existing, *ctx, *args),
{
    if ctx.stream_lamports < ctx.minimum_balance {
        return Err(PaystreamError::NotRentExempt);
    }
    if ctx.stream_lamports - ctx.minimum_balance < args.amount {
        return Err(PaystreamError::InsufficientAmount);
    }
    if existing.is_initialized() {
        return Err(PaystreamError::AlreadyInitialized);
    }
    if args.duration_in_slots == 0 {
        return Err(PaystreamError::ArithmeticFault);
    }
    Ok(StreamAccount {
        status: StreamStatus::Active,
        payee_pubkey: args.payee_pubkey,
        payer_pubkey: args.payer_pubkey,
        amount_in_lamports: args.amount,
        remaining_lamports: args.amount,
        duration_in_slots: args.duration_in_slots,
        start_timestamp_in_slots: ctx.now,
    })
}

/// Validates and applies a Withdraw call.
pub fn withdraw(record: &StreamAccount, ctx: &WithdrawContext, amount: u64) -> (r: Result<
    WithdrawOutcome,
    PaystreamError,
>)
    ensures
        r == withdraw_spec(*record, *ctx, amount),
{
    if !(record.status == StreamStatus::Active) {
        return Err(PaystreamError::NotActive);
    }
    if !pubkey_eq(&record.payee_pubkey, &ctx.payee_identity) {
        return Err(PaystreamError::InvalidPayee);
    }
    let releasable = match max_releasable(
        record.amount_in_lamports,
        record.duration_in_slots,
        record.start_timestamp_in_slots,
        ctx.now,
    ) {
        Ok(v) => v,
        Err(e) => {
            return Err(e);
        },
    };
    let mut payout = if amount <= releasable {
        amount
    } else {
        releasable
    };
    if payout > record.remaining_lamports {
        payout = record.remaining_lamports;
    }
    if ctx.stream_lamports < ctx.minimum_balance || ctx.stream_lamports - ctx.minimum_balance
        < payout {
        return Err(PaystreamError::ConsistencyFault);
    }
    let remaining = record.remaining_lamports - payout;
    Ok(WithdrawOutcome {
        record: StreamAccount {
            status: if remaining == 0 {
                StreamStatus::Completed
            } else {
                StreamStatus::Active
            },
            remaining_lamports: remaining,
            ..*record
        },
        payout,
    })
}

/// Validates and applies a Cancel call.
pub fn cancel(record: &StreamAccount, ctx: &CancelContext) -> (r: Result<
    CancelOutcome,
    PaystreamError,
>)
    ensures
        r == cancel_spec(*record, *ctx),
{
    if !(record.status == StreamStatus::Active) {
        return Err(PaystreamError::NotActive);
    }
    if record.remaining_lamports == 0 {
        return Err(PaystreamError::InsufficientAmount);
    }
    if !pubkey_eq(&record.payee_pubkey, &ctx.payee_identity) {
        return Err(PaystreamError::InvalidPayee);
    }
    if !pubkey_eq(&record.payer_pubkey, &ctx.payer_identity) {
        return Err(PaystreamError::InvalidPayer);
    }
    let releasable = match max_releasable(
        record.amount_in_lamports,
        record.duration_in_slots,
        record.start_timestamp_in_slots,
        ctx.now,
    ) {
        Ok(v) => v,
        Err(e) => {
            return Err(e);
        },
    };
    if ctx.stream_lamports < ctx.minimum_balance || ctx.stream_lamports - ctx.minimum_balance
        < record.remaining_lamports {
        return Err(PaystreamError::ConsistencyFault);
    }
    let vested = if releasable <= record.remaining_lamports {
        releasable
    } else {
        record.remaining_lamports
    };
    Ok(CancelOutcome {
        record: StreamAccount {
            status: StreamStatus::Terminated,
            remaining_lamports: 0,
            ..*record
        },
        payee_payment: vested,
        payer_refund: record.remaining_lamports - vested,
    })
}

} // verus!
