use vstd::prelude::*;
use vstd::arithmetic::div_mod::{lemma_div_pos_is_pos, lemma_fundamental_div_mod, lemma_mod_bound};
use vstd::arithmetic::mul::{lemma_mul_inequality, lemma_mul_nonnegative};
use crate::engine::{
    cancel_spec, create_spec, elapsed_spec, max_releasable_spec, rate_spec, withdraw_spec,
    CancelContext, CancelOutcome, CreateArgs, CreateContext, WithdrawContext, WithdrawOutcome,
};
use crate::error::PaystreamError;
use crate::state::{record_valid, StreamAccount, StreamStatus};

verus! {

/// The vesting ceiling is never negative.
pub proof fn lemma_releasable_nonnegative(total: u64, duration: u64, start: u64, now: u64)
    requires
        duration > 0,
    ensures
        max_releasable_spec(total, duration, start, now) >= 0,
{
    lemma_div_pos_is_pos(total as int, duration as int);
    lemma_mul_nonnegative(rate_spec(total, duration), elapsed_spec(start, now));
}

/// A successful Create yields a valid, active record that owes exactly
/// the committed amount and starts its schedule at the call's time
/// reading.
pub proof fn lemma_create_establishes_invariant(
    existing: StreamAccount,
    ctx: CreateContext,
    args: CreateArgs,
)
    requires
        create_spec(existing, ctx, args) is Ok,
    ensures
        ({
            let rec = create_spec(existing, ctx, args)->Ok_0;
            &&& record_valid(rec)
            &&& rec.status == StreamStatus::Active
            &&& rec.amount_in_lamports == args.amount
            &&& rec.remaining_lamports == args.amount
            &&& rec.duration_in_slots == args.duration_in_slots
            &&& rec.start_timestamp_in_slots == ctx.now
            &&& rec.payee_pubkey == args.payee_pubkey
            &&& rec.payer_pubkey == args.payer_pubkey
        }),
{
}

/// Withdraw preserves the record invariant and debits exactly what it
/// pays: the payout never exceeds what is still owed, so the remaining
/// balance never goes below zero and never exceeds the committed total.
pub proof fn lemma_withdraw_preserves_invariant(
    record: StreamAccount,
    ctx: WithdrawContext,
    amount: u64,
)
    requires
        record_valid(record),
        withdraw_spec(record, ctx, amount) is Ok,
    ensures
        ({
            let o = withdraw_spec(record, ctx, amount)->Ok_0;
            &&& record_valid(o.record)
            &&& o.payout <= record.remaining_lamports
            &&& o.payout <= amount
            &&& o.record.remaining_lamports == record.remaining_lamports - o.payout
            &&& o.record.amount_in_lamports == record.amount_in_lamports
            &&& o.record.payee_pubkey == record.payee_pubkey
            &&& o.record.payer_pubkey == record.payer_pubkey
            &&& o.record.duration_in_slots == record.duration_in_slots
            &&& o.record.start_timestamp_in_slots == record.start_timestamp_in_slots
        }),
{
    lemma_releasable_nonnegative(
        record.amount_in_lamports,
        record.duration_in_slots,
        record.start_timestamp_in_slots,
        ctx.now,
    );
}

/// Cancel settles the whole remaining balance and nothing else: the
/// vested share goes to the payee, the rest to the payer, and the record
/// ends Terminated, valid, owing exactly zero.
pub proof fn lemma_cancel_settles(record: StreamAccount, ctx: CancelContext)
    requires
        record_valid(record),
        cancel_spec(record, ctx) is Ok,
    ensures
        ({
            let o = cancel_spec(record, ctx)->Ok_0;
            &&& o.record.status == StreamStatus::Terminated
            &&& o.record.remaining_lamports == 0
            &&& record_valid(o.record)
            &&& o.payee_payment + o.payer_refund == record.remaining_lamports
            &&& o.payee_payment <= record.remaining_lamports
            &&& o.record.amount_in_lamports == record.amount_in_lamports
        }),
{
    lemma_releasable_nonnegative(
        record.amount_in_lamports,
        record.duration_in_slots,
        record.start_timestamp_in_slots,
        ctx.now,
    );
}

/// Monotonic vesting: for a fixed record the vesting ceiling never
/// decreases as the time-oracle reading advances.
pub proof fn lemma_vesting_monotonic(total: u64, duration: u64, start: u64, t1: u64, t2: u64)
    requires
        duration > 0,
        t1 <= t2,
    ensures
        max_releasable_spec(total, duration, start, t1) <= max_releasable_spec(
            total,
            duration,
            start,
            t2,
        ),
{
    lemma_div_pos_is_pos(total as int, duration as int);
    lemma_mul_inequality(
        elapsed_spec(start, t1),
        elapsed_spec(start, t2),
        rate_spec(total, duration),
    );
}

/// Bounded vesting: while the schedule is still running, the vesting
/// ceiling never exceeds the committed total. (Past the end of the
/// schedule the truncated rate times the elapsed time can pass the
/// total; every actual payout is capped at the remaining balance, which
/// `lemma_withdraw_preserves_invariant` keeps at or below the total.)
pub proof fn lemma_vesting_bounded(total: u64, duration: u64, start: u64, now: u64)
    requires
        duration > 0,
        elapsed_spec(start, now) <= duration,
    ensures
        max_releasable_spec(total, duration, start, now) <= total,
{
    let rate = rate_spec(total, duration);
    lemma_div_pos_is_pos(total as int, duration as int);
    lemma_mul_inequality(elapsed_spec(start, now), duration as int, rate);
    lemma_fundamental_div_mod(total as int, duration as int);
    lemma_mod_bound(total as int, duration as int);
}

/// The terminal state is final: once a record is Terminated, Withdraw
/// and Cancel both fail with NotActive whatever the context, so the
/// record and both balances are left unchanged.
pub proof fn lemma_terminated_is_final(
    record: StreamAccount,
    withdraw_ctx: WithdrawContext,
    cancel_ctx: CancelContext,
    amount: u64,
)
    requires
        record.status == StreamStatus::Terminated,
    ensures
        withdraw_spec(record, withdraw_ctx, amount) == Err::<WithdrawOutcome, PaystreamError>(
            PaystreamError::NotActive,
        ),
        cancel_spec(record, cancel_ctx) == Err::<CancelOutcome, PaystreamError>(
            PaystreamError::NotActive,
        ),
{
}

/// Authorization: an active stream refuses Withdraw with InvalidPayee
/// whenever the caller's identity differs from the stored payee, no
/// matter how the other readings stand.
pub proof fn lemma_withdraw_requires_payee(
    record: StreamAccount,
    ctx: WithdrawContext,
    amount: u64,
)
    requires
        record.status == StreamStatus::Active,
        record.payee_pubkey@ != ctx.payee_identity@,
    ensures
        withdraw_spec(record, ctx, amount) == Err::<WithdrawOutcome, PaystreamError>(
            PaystreamError::InvalidPayee,
        ),
{
}

/// The escrow invariant survives Withdraw: when the ledger balance
/// covered the remaining balance plus the reservation before the call,
/// it still covers them after the payout leaves.
pub proof fn lemma_withdraw_preserves_escrow(
    record: StreamAccount,
    ctx: WithdrawContext,
    amount: u64,
)
    requires
        record_valid(record),
        ctx.stream_lamports >= record.remaining_lamports + ctx.minimum_balance,
        withdraw_spec(record, ctx, amount) is Ok,
    ensures
        ({
            let o = withdraw_spec(record, ctx, amount)->Ok_0;
            ctx.stream_lamports - o.payout >= o.record.remaining_lamports + ctx.minimum_balance
        }),
{
    lemma_withdraw_preserves_invariant(record, ctx, amount);
}

/// Under the escrow invariant the defensive consistency checks never
/// fire: neither Withdraw nor Cancel can report ConsistencyFault while
/// the ledger balance covers the remaining balance plus the reservation.
pub proof fn lemma_consistent_escrow_never_faults(
    record: StreamAccount,
    withdraw_ctx: WithdrawContext,
    cancel_ctx: CancelContext,
    amount: u64,
)
    requires
        record_valid(record),
        withdraw_ctx.stream_lamports >= record.remaining_lamports + withdraw_ctx.minimum_balance,
        cancel_ctx.stream_lamports >= record.remaining_lamports + cancel_ctx.minimum_balance,
    ensures
        withdraw_spec(record, withdraw_ctx, amount) != Err::<WithdrawOutcome, PaystreamError>(
            PaystreamError::ConsistencyFault,
        ),
        cancel_spec(record, cancel_ctx) != Err::<CancelOutcome, PaystreamError>(
            PaystreamError::ConsistencyFault,
        ),
{
    if record.status == StreamStatus::Active && record.duration_in_slots > 0 {
        lemma_releasable_nonnegative(
            record.amount_in_lamports,
            record.duration_in_slots,
            record.start_timestamp_in_slots,
            withdraw_ctx.now,
        );
        lemma_releasable_nonnegative(
            record.amount_in_lamports,
            record.duration_in_slots,
            record.start_timestamp_in_slots,
            cancel_ctx.now,
        );
    }
}

} // verus!
