use paystream::error::PaystreamError;
use paystream::instruction::PaystreamInstruction;
use paystream::processor::{CallContext, CallOutcome, Processor};
use paystream::state::{unpack_record, Pubkey, StreamStatus, RECORD_LEN};

fn key(b: u8) -> Pubkey {
    [b; 32]
}

fn host_context() -> CallContext {
    CallContext {
        stream_owned_by_program: true,
        stream_writable: true,
        stream_lamports: 2000,
        minimum_balance: 100,
        payee_identity: key(1),
        payer_identity: key(2),
        now: 0,
    }
}

fn create_call_bytes() -> Vec<u8> {
    PaystreamInstruction::Create {
        payee_pubkey: key(1),
        payer_pubkey: key(2),
        amount: 1000,
        duration_in_slots: 60,
    }
    .pack()
}

#[test]
fn process_runs_a_whole_stream_lifecycle() {
    // The record starts as zeroed storage.
    let blank = unpack_record(&vec![0u8; RECORD_LEN]).unwrap();

    let created = Processor::process(&blank, &host_context(), &create_call_bytes()).unwrap();
    let rec = match created {
        CallOutcome::Created(rec) => rec,
        other => panic!("expected a created record, got {:?}", other),
    };
    assert_eq!(rec.status, StreamStatus::Active);
    assert_eq!(rec.remaining_lamports, 1000);

    let mut ctx = host_context();
    ctx.now = 10;
    let withdraw_bytes = PaystreamInstruction::Withdrawal { amount: 1000 }.pack();
    let withdrawn = Processor::process(&rec, &ctx, &withdraw_bytes).unwrap();
    let rec = match withdrawn {
        CallOutcome::Withdrawn(o) => {
            assert_eq!(o.payout, 160);
            assert_eq!(o.record.remaining_lamports, 840);
            o.record
        },
        other => panic!("expected a withdrawal, got {:?}", other),
    };

    let cancel_bytes = PaystreamInstruction::Cancel {}.pack();
    let cancelled = Processor::process(&rec, &ctx, &cancel_bytes).unwrap();
    match cancelled {
        CallOutcome::Cancelled(o) => {
            assert_eq!(o.record.status, StreamStatus::Terminated);
            assert_eq!(o.record.remaining_lamports, 0);
            assert_eq!(o.payee_payment + o.payer_refund, 840);
        },
        other => panic!("expected a cancellation, got {:?}", other),
    }
}

#[test]
fn process_rejects_malformed_payload() {
    let blank = unpack_record(&vec![0u8; RECORD_LEN]).unwrap();
    assert_eq!(
        Processor::process(&blank, &host_context(), &[7u8]),
        Err(PaystreamError::MalformedCall)
    );
}

#[test]
fn process_rejects_foreign_account() {
    let blank = unpack_record(&vec![0u8; RECORD_LEN]).unwrap();
    let mut ctx = host_context();
    ctx.stream_owned_by_program = false;
    assert_eq!(
        Processor::process(&blank, &ctx, &create_call_bytes()),
        Err(PaystreamError::NotOwned)
    );
}

#[test]
fn process_rejects_readonly_account() {
    let blank = unpack_record(&vec![0u8; RECORD_LEN]).unwrap();
    let mut ctx = host_context();
    ctx.stream_writable = false;
    assert_eq!(
        Processor::process(&blank, &ctx, &create_call_bytes()),
        Err(PaystreamError::NotWritable)
    );
}

#[test]
fn process_rejects_withdraw_from_uninitialized_record() {
    let blank = unpack_record(&vec![0u8; RECORD_LEN]).unwrap();
    let withdraw_bytes = PaystreamInstruction::Withdrawal { amount: 10 }.pack();
    assert_eq!(
        Processor::process(&blank, &host_context(), &withdraw_bytes),
        Err(PaystreamError::Uninitialized)
    );
}

#[test]
fn process_rejects_cancel_of_uninitialized_record() {
    let blank = unpack_record(&vec![0u8; RECORD_LEN]).unwrap();
    let cancel_bytes = PaystreamInstruction::Cancel {}.pack();
    assert_eq!(
        Processor::process(&blank, &host_context(), &cancel_bytes),
        Err(PaystreamError::Uninitialized)
    );
}
