use vstd::prelude::*;
use vstd::bytes::{
    lemma_auto_spec_u64_to_from_le_bytes, spec_u64_from_le_bytes, spec_u64_to_le_bytes,
    u64_from_le_bytes,
};
use crate::error::PaystreamError;
use crate::state::{read_pubkey, Pubkey, PUBKEY_LEN};

verus! {

broadcast use vstd::array::group_array_axioms;

/// Byte length of a packed Create call: tag, two keys, two u64 fields.
pub const CREATE_CALL_LEN: usize = 81;

/// Byte length of a packed Withdrawal call: tag and one u64 field.
pub const WITHDRAWAL_CALL_LEN: usize = 9;

/// One decoded call: exactly one of the three operations the engine
/// understands, with its fixed-width arguments.
#[derive(Clone, Copy, Debug, PartialEq, Eq)]
pub enum PaystreamInstruction {
    /// Initialize the stream on a pre-funded, zeroed account.
    Create {
        payee_pubkey: Pubkey,
        payer_pubkey: Pubkey,
        amount: u64,
        duration_in_slots: u64,
    },
    /// Withdraw up to `amount` of the vested balance to the payee.
    Withdrawal { amount: u64 },
    /// Cancel the stream and settle both sides.
    Cancel {},
}

/// The wire layout of a call: a discriminator byte, then the operation's
/// fixed-width fields in order, integers little-endian.
pub open spec fn instruction_bytes(inst: PaystreamInstruction) -> Seq<u8> {
    match inst {
        PaystreamInstruction::Create { payee_pubkey, payer_pubkey, amount, duration_in_slots } =>
            seq![0u8] + payee_pubkey@ + payer_pubkey@ + spec_u64_to_le_bytes(amount)
                + spec_u64_to_le_bytes(duration_in_slots),
        PaystreamInstruction::Withdrawal { amount } => seq![1u8] + spec_u64_to_le_bytes(amount),
        PaystreamInstruction::Cancel {  } => seq![2u8],
    }
}

/// Reads the little-endian u64 at `start`, or fails on a short buffer.
fn unpack_u64(input: &[u8], start: usize) -> (r: Result<u64, PaystreamError>)
    ensures
        match r {
            Ok(v) => start + 8 <= input@.len() && v == spec_u64_from_le_bytes(
                input@.subrange(start as int, start + 8),
            ),
            Err(e) => e == PaystreamError::MalformedCall && start + 8 > input@.len(),
        },
{
    if input.len() < 8 || start > input.len() - 8 {
        return Err(PaystreamError::MalformedCall);
    }
    Ok(u64_from_le_bytes(&input[start..start + 8]))
}

impl PaystreamInstruction {
    /// Decodes a call payload: the leading discriminator byte picks the
    /// operation, and every fixed-width field must be present in full.
    /// Any unrecognized discriminator or truncated field is a decode
    /// failure, never a default value; trailing bytes are ignored.
    pub fn unpack(input: &[u8]) -> (r: Result<PaystreamInstruction, PaystreamError>)
        ensures
            match r {
                Ok(inst) => match inst {
                    PaystreamInstruction::Create {
                        payee_pubkey,
                        payer_pubkey,
                        amount,
                        duration_in_slots,
                    } => {
                        &&& input@.len() >= CREATE_CALL_LEN
                        &&& input@[0] == 0
                        &&& payee_pubkey@ == input@.subrange(1, 33)
                        &&& payer_pubkey@ == input@.subrange(33, 65)
                        &&& amount == spec_u64_from_le_bytes(input@.subrange(65, 73))
                        &&& duration_in_slots == spec_u64_from_le_bytes(input@.subrange(73, 81))
                    },
                    PaystreamInstruction::Withdrawal { amount } => {
                        &&& input@.len() >= WITHDRAWAL_CALL_LEN
                        &&& input@[0] == 1
                        &&& amount == spec_u64_from_le_bytes(input@.subrange(1, 9))
                    },
                    PaystreamInstruction::Cancel {  } => {
                        &&& input@.len() >= 1
                        &&& input@[0] == 2
                    },
                },
                Err(e) => {
                    &&& e == PaystreamError::MalformedCall
                    &&& (input@.len() == 0
                        || (input@[0] == 0 && input@.len() < CREATE_CALL_LEN)
                        || (input@[0] == 1 && input@.len() < WITHDRAWAL_CALL_LEN)
                        || input@[0] > 2)
                },
            },
    {
        if input.len() == 0 {
            return Err(PaystreamError::MalformedCall);
        }
        let tag = input[0];
        if tag == 0 {
            if input.len() < CREATE_CALL_LEN {
                return Err(PaystreamError::MalformedCall);
            }
            let payee_pubkey = read_pubkey(input, 1);
            let payer_pubkey = read_pubkey(input, 33);
            let amount = match unpack_u64(input, 65) {
                Ok(v) => v,
                Err(e) => {
                    return Err(e);
                },
            };
            let duration_in_slots = match unpack_u64(input, 73) {
                Ok(v) => v,
                Err(e) => {
                    return Err(e);
                },
            };
            Ok(PaystreamInstruction::Create {
                payee_pubkey,
                payer_pubkey,
                amount,
                duration_in_slots,
            })
        } else if tag == 1 {
            let amount = match unpack_u64(input, 1) {
                Ok(v) => v,
                Err(e) => {
                    return Err(e);
                },
            };
            Ok(PaystreamInstruction::Withdrawal { amount })
        } else if tag == 2 {
            Ok(PaystreamInstruction::Cancel {  })
        } else {
            Err(PaystreamError::MalformedCall)
        }
    }

    /// Writes the call in its wire layout; `unpack` reads it back.
    pub fn pack(&self) -> (out: Vec<u8>)
        ensures
            out@ == instruction_bytes(*self),
    {
        let mut out: Vec<u8> = Vec::new();
        match self {
            PaystreamInstruction::Create {
                payee_pubkey,
                payer_pubkey,
                amount,
                duration_in_slots,
            } => {
                out.push(0u8);
                push_key_bytes(&mut out, payee_pubkey);
                push_key_bytes(&mut out, payer_pubkey);
                let mut field = vstd::bytes::u64_to_le_bytes(*amount);
                out.append(&mut field);
                let mut field = vstd::bytes::u64_to_le_bytes(*duration_in_slots);
                out.append(&mut field);
            },
            PaystreamInstruction::Withdrawal { amount } => {
                out.push(1u8);
                let mut field = vstd::bytes::u64_to_le_bytes(*amount);
                out.append(&mut field);
            },
            PaystreamInstruction::Cancel {  } => {
                out.push(2u8);
            },
        }
        proof {
            assert(out@ =~= instruction_bytes(*self));
        }
        out
    }
}

fn push_key_bytes(out: &mut Vec<u8>, key: &Pubkey)
    ensures
        final(out)@ == old(out)@ + key@,
{
    let mut i: usize = 0;
    while i < PUBKEY_LEN
        invariant
            0 <= i <= PUBKEY_LEN,
            out@ == old(out)@ + key@.subrange(0, i as int),
        decreases PUBKEY_LEN - i,
    {
        out.push(key[i]);
        proof {
            assert(out@ =~= old(out)@ + key@.subrange(0, i + 1));
        }
        i = i + 1;
    }
    proof {
        assert(key@.subrange(0, PUBKEY_LEN as int) =~= key@);
    }
}

/// A packed call always decodes back to the call it was written from:
/// the wire layout's fields stand at the offsets `unpack` reads.
pub proof fn lemma_instruction_bytes_fields(inst: PaystreamInstruction)
    ensures
        inst matches PaystreamInstruction::Create {
            payee_pubkey,
            payer_pubkey,
            amount,
            duration_in_slots,
        } ==> {
            &&& instruction_bytes(inst).len() == CREATE_CALL_LEN
            &&& instruction_bytes(inst)[0] == 0
            &&& instruction_bytes(inst).subrange(1, 33) == payee_pubkey@
            &&& instruction_bytes(inst).subrange(33, 65) == payer_pubkey@
            &&& spec_u64_from_le_bytes(instruction_bytes(inst).subrange(65, 73)) == amount
            &&& spec_u64_from_le_bytes(instruction_bytes(inst).subrange(73, 81))
                == duration_in_slots
        },
        inst matches PaystreamInstruction::Withdrawal { amount } ==> {
            &&& instruction_bytes(inst).len() == WITHDRAWAL_CALL_LEN
            &&& instruction_bytes(inst)[0] == 1
            &&& spec_u64_from_le_bytes(instruction_bytes(inst).subrange(1, 9)) == amount
        },
        inst matches PaystreamInstruction::Cancel {  } ==> {
            &&& instruction_bytes(inst).len() == 1
            &&& instruction_bytes(inst)[0] == 2
        },
{
    lemma_auto_spec_u64_to_from_le_bytes();
    let b = instruction_bytes(inst);
    match inst {
        PaystreamInstruction::Create { payee_pubkey, payer_pubkey, amount, duration_in_slots } => {
            assert(b.subrange(1, 33) =~= payee_pubkey@);
            assert(b.subrange(33, 65) =~= payer_pubkey@);
            assert(b.subrange(65, 73) =~= spec_u64_to_le_bytes(amount));
            assert(b.subrange(73, 81) =~= spec_u64_to_le_bytes(duration_in_slots));
        },
        PaystreamInstruction::Withdrawal { amount } => {
            assert(b.subrange(1, 9) =~= spec_u64_to_le_bytes(amount));
        },
        PaystreamInstruction::Cancel {  } => {},
    }
}

} // verus!
