use paystream::error::PaystreamError;
use paystream::instruction::PaystreamInstruction;
use paystream::state::{pack_record, unpack_record, Pubkey, StreamAccount, StreamStatus, RECORD_LEN};

fn key(b: u8) -> Pubkey {
    [b; 32]
}

fn sample_record() -> StreamAccount {
    StreamAccount {
        status: StreamStatus::Active,
        payee_pubkey: key(1),
        payer_pubkey: key(2),
        amount_in_lamports: 1000,
        remaining_lamports: 840,
        duration_in_slots: 60,
        start_timestamp_in_slots: 7,
    }
}

#[test]
fn record_round_trip() {
    let rec = sample_record();
    let bytes = pack_record(&rec);
    assert_eq!(bytes.len(), RECORD_LEN);
    assert_eq!(unpack_record(&bytes), Ok(rec));
}

#[test]
fn record_layout_is_fixed_and_little_endian() {
    let mut rec = sample_record();
    rec.amount_in_lamports = 0x0102030405060708;
    let bytes = pack_record(&rec);
    assert_eq!(bytes[0], 1);
    assert_eq!(&bytes[1..33], &[1u8; 32]);
    assert_eq!(&bytes[33..65], &[2u8; 32]);
    assert_eq!(&bytes[65..73], &[8, 7, 6, 5, 4, 3, 2, 1]);
    assert_eq!(&bytes[73..81], &[72, 3, 0, 0, 0, 0, 0, 0]);
    assert_eq!(&bytes[81..89], &[60, 0, 0, 0, 0, 0, 0, 0]);
    assert_eq!(&bytes[89..97], &[7, 0, 0, 0, 0, 0, 0, 0]);
}

#[test]
fn record_unpack_rejects_wrong_length() {
    assert_eq!(
        unpack_record(&vec![0u8; RECORD_LEN - 1]),
        Err(PaystreamError::MalformedCall)
    );
    assert_eq!(
        unpack_record(&vec![0u8; RECORD_LEN + 1]),
        Err(PaystreamError::MalformedCall)
    );
}

#[test]
fn record_unpack_rejects_unknown_status() {
    let mut bytes = vec![0u8; RECORD_LEN];
    bytes[0] = 4;
    assert_eq!(unpack_record(&bytes), Err(PaystreamError::MalformedCall));
}

#[test]
fn zeroed_storage_reads_as_uninitialized() {
    let rec = unpack_record(&vec![0u8; RECORD_LEN]).unwrap();
    assert_eq!(rec.status, StreamStatus::Uninitialized);
    assert_eq!(rec.remaining_lamports, 0);
}

#[test]
fn instruction_round_trip_create() {
    let inst = PaystreamInstruction::Create {
        payee_pubkey: key(1),
        payer_pubkey: key(2),
        amount: 1000,
        duration_in_slots: 60,
    };
    let bytes = inst.pack();
    assert_eq!(bytes.len(), 81);
    assert_eq!(PaystreamInstruction::unpack(&bytes), Ok(inst));
}

#[test]
fn instruction_round_trip_withdrawal() {
    let inst = PaystreamInstruction::Withdrawal { amount: 160 };
    let bytes = inst.pack();
    assert_eq!(bytes.len(), 9);
    assert_eq!(PaystreamInstruction::unpack(&bytes), Ok(inst));
}

#[test]
fn instruction_round_trip_cancel() {
    let inst = PaystreamInstruction::Cancel {};
    let bytes = inst.pack();
    assert_eq!(bytes, vec![2u8]);
    assert_eq!(PaystreamInstruction::unpack(&bytes), Ok(inst));
}

#[test]
fn unpack_decodes_fields_positionally() {
    let mut bytes = vec![0u8];
    bytes.extend_from_slice(&[1u8; 32]);
    bytes.extend_from_slice(&[2u8; 32]);
    bytes.extend_from_slice(&[232, 3, 0, 0, 0, 0, 0, 0]);
    bytes.extend_from_slice(&[60, 0, 0, 0, 0, 0, 0, 0]);
    assert_eq!(
        PaystreamInstruction::unpack(&bytes),
        Ok(PaystreamInstruction::Create {
            payee_pubkey: key(1),
            payer_pubkey: key(2),
            amount: 1000,
            duration_in_slots: 60,
        })
    );
}

#[test]
fn unpack_rejects_empty_payload() {
    assert_eq!(
        PaystreamInstruction::unpack(&[]),
        Err(PaystreamError::MalformedCall)
    );
}

#[test]
fn unpack_rejects_unknown_discriminator() {
    assert_eq!(
        PaystreamInstruction::unpack(&[3u8]),
        Err(PaystreamError::MalformedCall)
    );
}

#[test]
fn unpack_rejects_truncated_create() {
    let bytes = vec![0u8; 80];
    assert_eq!(
        PaystreamInstruction::unpack(&bytes),
        Err(PaystreamError::MalformedCall)
    );
}

#[test]
fn unpack_rejects_truncated_withdrawal() {
    let bytes = vec![1u8; 8];
    assert_eq!(
        PaystreamInstruction::unpack(&bytes),
        Err(PaystreamError::MalformedCall)
    );
}

#[test]
fn unpack_ignores_trailing_bytes() {
    let bytes = vec![2u8, 9, 9, 9];
    assert_eq!(
        PaystreamInstruction::unpack(&bytes),
        Ok(PaystreamInstruction::Cancel {})
    );
}
