//! The persisted swap record and its fixed 41-byte codec.
//!
//! A record is `commitment[32] ‖ lock_time:u64(LE) ‖ state:u8`; the state byte
//! has exactly four recognized values, and any other value is a fatal decode
//! error, never a default.

use vstd::prelude::*;
use vstd::bytes::{spec_u64_from_le_bytes, spec_u64_to_le_bytes, lemma_auto_spec_u64_to_from_le_bytes, u64_from_le_bytes, u64_to_le_bytes};
use vstd::slice::slice_subrange;
use crate::error_code::SwapError;
use crate::wire::{push_bytes, read_bytes32};

verus! {

/// The length of an encoded record.
pub const PAYMENT_RECORD_LEN: usize = 41;

/// The lifecycle of a swap record: strictly forward, with both claim states
/// terminal. No transition may be taken twice and none may skip `PaymentSent`.
#[derive(Clone, Copy, Debug, PartialEq, Eq, Structural)]
pub enum PaymentState {
    Uninitialized,
    PaymentSent,
    ReceiverSpent,
    SenderRefunded,
}

/// The persisted state of one swap: the commitment that binds its release
/// conditions, the refund lock time, and the lifecycle state.
#[derive(Debug, PartialEq, Eq)]
pub struct Payment {
    pub payment_hash: [u8; 32],
    pub lock_time: u64,
    pub state: PaymentState,
}

/// A record as the specifications see it: the commitment as a byte sequence.
pub struct PaymentModel {
    pub payment_hash: Seq<u8>,
    pub lock_time: u64,
    pub state: PaymentState,
}

impl View for Payment {
    type V = PaymentModel;

    open spec fn view(&self) -> PaymentModel {
        PaymentModel { payment_hash: self.payment_hash@, lock_time: self.lock_time, state: self.state }
    }
}

impl PaymentModel {
    /// A record whose commitment has the width the layout fixes.
    pub open spec fn wf(self) -> bool {
        self.payment_hash.len() == 32
    }
}

/// The byte that encodes a lifecycle state.
pub open spec fn spec_state_byte(s: PaymentState) -> u8 {
    match s {
        PaymentState::Uninitialized => 0u8,
        PaymentState::PaymentSent => 1u8,
        PaymentState::ReceiverSpent => 2u8,
        PaymentState::SenderRefunded => 3u8,
    }
}

/// The lifecycle state a byte encodes, for the four recognized values.
pub open spec fn spec_state_of_byte(b: u8) -> PaymentState
    recommends
        b <= 3,
{
    if b == 0 {
        PaymentState::Uninitialized
    } else if b == 1 {
        PaymentState::PaymentSent
    } else if b == 2 {
        PaymentState::ReceiverSpent
    } else {
        PaymentState::SenderRefunded
    }
}

/// The exact 41-byte encoding of a record.
pub open spec fn spec_record_bytes(m: PaymentModel) -> Seq<u8> {
    m.payment_hash + spec_u64_to_le_bytes(m.lock_time) + seq![spec_state_byte(m.state)]
}

/// What decoding a stored buffer yields: the record it holds, or the exact
/// error. A buffer of any length other than 41 is rejected before any field
/// is read; an unrecognized state byte is rejected rather than defaulted.
pub open spec fn spec_unpack_record(s: Seq<u8>) -> Result<PaymentModel, SwapError> {
    if s.len() != PAYMENT_RECORD_LEN {
        Err(SwapError::InvalidInputLength)
    } else if s[40] > 3 {
        Err(SwapError::UnknownPaymentState)
    } else {
        Ok(PaymentModel {
            payment_hash: s.subrange(0, 32),
            lock_time: spec_u64_from_le_bytes(s.subrange(32, 40)),
            state: spec_state_of_byte(s[40]),
        })
    }
}

impl Payment {
    /// Decode a stored buffer into a record.
    pub fn unpack(input: &[u8]) -> (r: Result<Self, SwapError>)
        ensures
            match r {
                Ok(p) => spec_unpack_record(input@) == Ok::<PaymentModel, SwapError>(p@),
                Err(e) => spec_unpack_record(input@) == Err::<PaymentModel, SwapError>(e),
            },
    {
        if input.len() != PAYMENT_RECORD_LEN {
            return Err(SwapError::InvalidInputLength);
        }
        let state_byte = input[40];
        if state_byte > 3 {
            return Err(SwapError::UnknownPaymentState);
        }
        let payment_hash = read_bytes32(input, 0);
        let lock_time = u64_from_le_bytes(slice_subrange(input, 32, 40));
        let state = if state_byte == 0 {
            PaymentState::Uninitialized
        } else if state_byte == 1 {
            PaymentState::PaymentSent
        } else if state_byte == 2 {
            PaymentState::ReceiverSpent
        } else {
            PaymentState::SenderRefunded
        };
        Ok(Payment { payment_hash, lock_time, state })
    }

    /// Encode the record into its exact 41-byte form.
    pub fn pack(&self) -> (r: Vec<u8>)
        ensures
            r@ == spec_record_bytes(self@),
            r@.len() == PAYMENT_RECORD_LEN,
    {
        let mut bytes: Vec<u8> = Vec::new();
        push_bytes(&mut bytes, &self.payment_hash);
        let mut lock_time_bytes = u64_to_le_bytes(self.lock_time);
        bytes.append(&mut lock_time_bytes);
        let state_byte: u8 = match self.state {
            PaymentState::Uninitialized => 0,
            PaymentState::PaymentSent => 1,
            PaymentState::ReceiverSpent => 2,
            PaymentState::SenderRefunded => 3,
        };
        bytes.push(state_byte);
        proof {
            lemma_auto_spec_u64_to_from_le_bytes();
            assert(bytes@ =~= spec_record_bytes(self@));
        }
        bytes
    }
}

/// Encoding then decoding a record returns the record: the codec loses
/// nothing and accepts exactly what it produces.
pub proof fn lemma_record_round_trip(m: PaymentModel)
    requires
        m.wf(),
    ensures
        spec_unpack_record(spec_record_bytes(m)) == Ok::<PaymentModel, SwapError>(m),
{
    lemma_auto_spec_u64_to_from_le_bytes();
    let s = spec_record_bytes(m);
    assert(s.len() == PAYMENT_RECORD_LEN);
    assert(s[40] == spec_state_byte(m.state));
    assert(s.subrange(0, 32) =~= m.payment_hash);
    assert(s.subrange(32, 40) =~= spec_u64_to_le_bytes(m.lock_time));
    let parsed = spec_unpack_record(s);
    assert(parsed is Ok);
    assert(parsed->Ok_0.state == m.state);
    assert(parsed->Ok_0 == m);
}

} // verus!
