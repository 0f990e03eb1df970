use vstd::prelude::*;
use vstd::bytes::{
    lemma_auto_spec_u64_to_from_le_bytes, spec_u64_from_le_bytes, spec_u64_to_le_bytes,
    u64_from_le_bytes, u64_to_le_bytes,
};
use crate::error::PaystreamError;

verus! {

broadcast use vstd::array::group_array_axioms;

/// The identity of a party: a 32-byte public key, compared byte for byte.
pub type Pubkey = [u8; 32];

/// Byte length of a stored key.
pub const PUBKEY_LEN: usize = 32;

/// Byte length of a packed stream record:
/// one status byte, two 32-byte keys, four 8-byte little-endian integers.
pub const RECORD_LEN: usize = 97;

/// The lifecycle of a stream record.
#[derive(Clone, Copy, Debug, PartialEq, Eq, Structural)]
pub enum StreamStatus {
    /// The account has never completed a successful Create.
    Uninitialized,
    /// The stream is running: Withdraw and Cancel may succeed.
    Active,
    /// The whole balance was withdrawn; nothing is owed any more.
    Completed,
    /// The stream was cancelled; nothing is owed any more.
    Terminated,
}

/// The persistent record of one escrow agreement.
#[derive(Clone, Copy, Debug, PartialEq, Eq)]
pub struct StreamAccount {
    pub status: StreamStatus,
    /// Identity authorized to withdraw.
    pub payee_pubkey: Pubkey,
    /// Identity that funded the stream and receives the unvested
    /// remainder on cancellation.
    pub payer_pubkey: Pubkey,
    /// Total units committed at creation; immutable afterwards.
    pub amount_in_lamports: u64,
    /// Unvested + unwithdrawn portion still owed to the payee;
    /// monotonically non-increasing.
    pub remaining_lamports: u64,
    /// Number of time units over which the total vests linearly.
    pub duration_in_slots: u64,
    /// Time-oracle reading at creation.
    pub start_timestamp_in_slots: u64,
}

/// The record invariant: holds of the zeroed (uninitialized) record and
/// after every successful call.
pub open spec fn record_valid(rec: StreamAccount) -> bool {
    &&& rec.remaining_lamports <= rec.amount_in_lamports
    &&& rec.status == StreamStatus::Terminated ==> rec.remaining_lamports == 0
    &&& rec.status == StreamStatus::Completed ==> rec.remaining_lamports == 0
    &&& rec.status == StreamStatus::Active ==> rec.duration_in_slots > 0
}

impl StreamAccount {
    /// The record has completed a successful Create at some point.
    pub fn is_initialized(&self) -> (r: bool)
        ensures
            r == (self.status != StreamStatus::Uninitialized),
    {
        !(self.status == StreamStatus::Uninitialized)
    }

    /// The whole balance was withdrawn.
    pub fn is_complete(&self) -> (r: bool)
        ensures
            r == (self.status == StreamStatus::Completed),
    {
        self.status == StreamStatus::Completed
    }

    /// The stream was cancelled.
    pub fn is_terminated(&self) -> (r: bool)
        ensures
            r == (self.status == StreamStatus::Terminated),
    {
        self.status == StreamStatus::Terminated
    }
}

/// Byte-for-byte key comparison.
pub fn pubkey_eq(a: &Pubkey, b: &Pubkey) -> (r: bool)
    ensures
        r <==> a@ == b@,
{
    let mut i: usize = 0;
    while i < PUBKEY_LEN
        invariant
            0 <= i <= PUBKEY_LEN,
            forall|j: int| 0 <= j < i ==> a@[j] == b@[j],
        decreases PUBKEY_LEN - i,
    {
        if a[i] != b[i] {
            return false;
        }
        i = i + 1;
    }
    proof {
        assert(a@ =~= b@);
    }
    true
}

/// Copies the 32 bytes at `start` into a key.
pub fn read_pubkey(bytes: &[u8], start: usize) -> (key: Pubkey)
    requires
        start + PUBKEY_LEN <= bytes@.len(),
    ensures
        key@ == bytes@.subrange(start as int, start + PUBKEY_LEN),
{
    let n = bytes.len();
    let mut key: Pubkey = [0u8; 32];
    let mut i: usize = 0;
    while i < PUBKEY_LEN
        invariant
            0 <= i <= PUBKEY_LEN,
            start + PUBKEY_LEN <= n == bytes@.len(),
            forall|j: int| 0 <= j < i ==> key@[j] == bytes@[start + j],
        decreases PUBKEY_LEN - i,
    {
        key[i] = bytes[start + i];
        i = i + 1;
    }
    proof {
        assert(key@ =~= bytes@.subrange(start as int, start + PUBKEY_LEN));
    }
    key
}

/// The status byte stored in the packed record.
pub open spec fn status_to_byte(s: StreamStatus) -> u8 {
    match s {
        StreamStatus::Uninitialized => 0,
        StreamStatus::Active => 1,
        StreamStatus::Completed => 2,
        StreamStatus::Terminated => 3,
    }
}

/// The status a stored byte stands for.
pub open spec fn byte_to_status(b: u8) -> StreamStatus
    recommends
        b <= 3,
{
    if b == 0 {
        StreamStatus::Uninitialized
    } else if b == 1 {
        StreamStatus::Active
    } else if b == 2 {
        StreamStatus::Completed
    } else {
        StreamStatus::Terminated
    }
}

/// The fixed layout of a stored record: status byte, payee key, payer
/// key, then total, remaining, duration and start as little-endian u64.
pub open spec fn record_bytes(rec: StreamAccount) -> Seq<u8> {
    seq![status_to_byte(rec.status)] + rec.payee_pubkey@ + rec.payer_pubkey@
        + spec_u64_to_le_bytes(rec.amount_in_lamports)
        + spec_u64_to_le_bytes(rec.remaining_lamports)
        + spec_u64_to_le_bytes(rec.duration_in_slots)
        + spec_u64_to_le_bytes(rec.start_timestamp_in_slots)
}

fn encode_status(s: StreamStatus) -> (b: u8)
    ensures
        b == status_to_byte(s),
{
    match s {
        StreamStatus::Uninitialized => 0,
        StreamStatus::Active => 1,
        StreamStatus::Completed => 2,
        StreamStatus::Terminated => 3,
    }
}

fn push_pubkey(out: &mut Vec<u8>, key: &Pubkey)
    ensures
        final(out)@ == old(out)@ + key@,
{
    let mut i: usize = 0;
    while i < PUBKEY_LEN
        invariant
            0 <= i <= PUBKEY_LEN,
            out@ == old(out)@ + key@.subrange(0, i as int),
        decreases PUBKEY_LEN - i,
    {
        out.push(key[i]);
        proof {
            assert(out@ =~= old(out)@ + key@.subrange(0, i + 1));
        }
        i = i + 1;
    }
    proof {
        assert(key@.subrange(0, PUBKEY_LEN as int) =~= key@);
    }
}

/// Writes the record in its fixed byte layout.
pub fn pack_record(rec: &StreamAccount) -> (out: Vec<u8>)
    ensures
        out@ == record_bytes(*rec),
        out@.len() == RECORD_LEN,
{
    let mut out: Vec<u8> = Vec::new();
    out.push(encode_status(rec.status));
    push_pubkey(&mut out, &rec.payee_pubkey);
    push_pubkey(&mut out, &rec.payer_pubkey);
    let mut field = u64_to_le_bytes(rec.amount_in_lamports);
    out.append(&mut field);
    let mut field = u64_to_le_bytes(rec.remaining_lamports);
    out.append(&mut field);
    let mut field = u64_to_le_bytes(rec.duration_in_slots);
    out.append(&mut field);
    let mut field = u64_to_le_bytes(rec.start_timestamp_in_slots);
    out.append(&mut field);
    proof {
        lemma_auto_spec_u64_to_from_le_bytes();
        assert(out@ =~= record_bytes(*rec));
    }
    out
}

/// Reads a record back from its fixed byte layout. Fails on any region
/// that is not exactly one packed record with a recognized status byte.
pub fn unpack_record(bytes: &[u8]) -> (r: Result<StreamAccount, PaystreamError>)
    ensures
        match r {
            Ok(rec) => {
                &&& bytes@.len() == RECORD_LEN
                &&& bytes@[0] <= 3
                &&& rec.status == byte_to_status(bytes@[0])
                &&& rec.payee_pubkey@ == bytes@.subrange(1, 33)
                &&& rec.payer_pubkey@ == bytes@.subrange(33, 65)
                &&& rec.amount_in_lamports == spec_u64_from_le_bytes(bytes@.subrange(65, 73))
                &&& rec.remaining_lamports == spec_u64_from_le_bytes(bytes@.subrange(73, 81))
                &&& rec.duration_in_slots == spec_u64_from_le_bytes(bytes@.subrange(81, 89))
                &&& rec.start_timestamp_in_slots == spec_u64_from_le_bytes(
                    bytes@.subrange(89, 97),
                )
            },
            Err(e) => {
                &&& e == PaystreamError::MalformedCall
                &&& (bytes@.len() != RECORD_LEN || bytes@[0] > 3)
            },
        },
{
    if bytes.len() != RECORD_LEN {
        return Err(PaystreamError::MalformedCall);
    }
    let status_byte = bytes[0];
    let status = if status_byte == 0 {
        StreamStatus::Uninitialized
    } else if status_byte == 1 {
        StreamStatus::Active
    } else if status_byte == 2 {
        StreamStatus::Completed
    } else if status_byte == 3 {
        StreamStatus::Terminated
    } else {
        return Err(PaystreamError::MalformedCall);
    };
    let payee_pubkey = read_pubkey(bytes, 1);
    let payer_pubkey = read_pubkey(bytes, 33);
    let amount_in_lamports = u64_from_le_bytes(&bytes[65..73]);
    let remaining_lamports = u64_from_le_bytes(&bytes[73..81]);
    let duration_in_slots = u64_from_le_bytes(&bytes[81..89]);
    let start_timestamp_in_slots = u64_from_le_bytes(&bytes[89..97]);
    Ok(StreamAccount {
        status,
        payee_pubkey,
        payer_pubkey,
        amount_in_lamports,
        remaining_lamports,
        duration_in_slots,
        start_timestamp_in_slots,
    })
}

/// A packed record always reads back as the record it was written from.
pub proof fn lemma_record_bytes_fields(rec: StreamAccount)
    ensures
        record_bytes(rec).len() == RECORD_LEN,
        record_bytes(rec)[0] == status_to_byte(rec.status),
        byte_to_status(status_to_byte(rec.status)) == rec.status,
        record_bytes(rec).subrange(1, 33) == rec.payee_pubkey@,
        record_bytes(rec).subrange(33, 65) == rec.payer_pubkey@,
        spec_u64_from_le_bytes(record_bytes(rec).subrange(65, 73)) == rec.amount_in_lamports,
        spec_u64_from_le_bytes(record_bytes(rec).subrange(73, 81)) == rec.remaining_lamports,
        spec_u64_from_le_bytes(record_bytes(rec).subrange(81, 89)) == rec.duration_in_slots,
        spec_u64_from_le_bytes(record_bytes(rec).subrange(89, 97))
            == rec.start_timestamp_in_slots,
{
    lemma_auto_spec_u64_to_from_le_bytes();
    let b = record_bytes(rec);
    assert(b.subrange(1, 33) =~= rec.payee_pubkey@);
    assert(b.subrange(33, 65) =~= rec.payer_pubkey@);
    assert(b.subrange(65, 73) =~= spec_u64_to_le_bytes(rec.amount_in_lamports));
    assert(b.subrange(73, 81) =~= spec_u64_to_le_bytes(rec.remaining_lamports));
    assert(b.subrange(81, 89) =~= spec_u64_to_le_bytes(rec.duration_in_slots));
    assert(b.subrange(89, 97) =~= spec_u64_to_le_bytes(rec.start_timestamp_in_slots));
}

} // verus!
