//! The four swap operations and their fixed binary layout.
//!
//! Every instruction is one tag byte followed by fixed-offset fields:
//! multi-byte integers little-endian, identities and hashes raw 32-byte
//! values. Each variant demands one exact total length; any other length is
//! rejected before a single field is read.

use vstd::prelude::*;
use vstd::bytes::{spec_u64_from_le_bytes, spec_u64_to_le_bytes, lemma_auto_spec_u64_to_from_le_bytes, u64_from_le_bytes, u64_to_le_bytes};
use vstd::slice::slice_subrange;
use crate::error_code::SwapError;
use crate::wire::{push_bytes, read_bytes32};

verus! {

/// The exact encoded length of the instruction a tag byte names.
pub open spec fn spec_instruction_len(tag: u8) -> int
    recommends
        tag <= 3,
{
    if tag == 0 {
        91
    } else if tag == 1 {
        123
    } else {
        115
    }
}

/// A native-value escrow request.
#[derive(Clone, Copy, Debug, PartialEq, Eq)]
pub struct LamportsPaymentParams {
    pub secret_hash: [u8; 32],
    pub lock_time: u64,
    pub amount: u64,
    pub receiver: [u8; 32],
    pub rent_exemption_lamports: u64,
    pub vault_bump_seed: u8,
    pub vault_bump_seed_data: u8,
}

/// A fungible-token escrow request; `token_program` is the asset class, and
/// the zero identity stands for native value.
#[derive(Clone, Copy, Debug, PartialEq, Eq)]
pub struct SPLTokenPaymentParams {
    pub secret_hash: [u8; 32],
    pub lock_time: u64,
    pub amount: u64,
    pub receiver: [u8; 32],
    pub token_program: [u8; 32],
    pub rent_exemption_lamports: u64,
    pub vault_bump_seed: u8,
    pub vault_bump_seed_data: u8,
}

/// A claim by the receiver, disclosing the secret.
#[derive(Clone, Copy, Debug, PartialEq, Eq)]
pub struct ReceiverSpendParams {
    pub secret: [u8; 32],
    pub lock_time: u64,
    pub amount: u64,
    pub sender: [u8; 32],
    pub token_program: [u8; 32],
    pub vault_bump_seed: u8,
    pub vault_bump_seed_data: u8,
}

/// A reclaim by the sender after the lock time.
#[derive(Clone, Copy, Debug, PartialEq, Eq)]
pub struct SenderRefundParams {
    pub secret_hash: [u8; 32],
    pub lock_time: u64,
    pub amount: u64,
    pub receiver: [u8; 32],
    pub token_program: [u8; 32],
    pub vault_bump_seed: u8,
    pub vault_bump_seed_data: u8,
}

/// The closed union of the four operations. Adding an operation is a
/// compile-time exhaustiveness failure in every match over this type, never a
/// silent default.
#[derive(Clone, Copy, Debug, PartialEq, Eq)]
pub enum AtomicSwapInstruction {
    LamportsPayment {
        secret_hash: [u8; 32],
        lock_time: u64,
        amount: u64,
        receiver: [u8; 32],
        rent_exemption_lamports: u64,
        vault_bump_seed: u8,
        vault_bump_seed_data: u8,
    },
    SPLTokenPayment {
        secret_hash: [u8; 32],
        lock_time: u64,
        amount: u64,
        receiver: [u8; 32],
        token_program: [u8; 32],
        rent_exemption_lamports: u64,
        vault_bump_seed: u8,
        vault_bump_seed_data: u8,
    },
    ReceiverSpend {
        secret: [u8; 32],
        lock_time: u64,
        amount: u64,
        sender: [u8; 32],
        token_program: [u8; 32],
        vault_bump_seed: u8,
        vault_bump_seed_data: u8,
    },
    SenderRefund {
        secret_hash: [u8; 32],
        lock_time: u64,
        amount: u64,
        receiver: [u8; 32],
        token_program: [u8; 32],
        vault_bump_seed: u8,
        vault_bump_seed_data: u8,
    },
}

/// An instruction as the specifications see it: 32-byte fields as sequences.
pub enum SwapInstructionModel {
    LamportsPayment {
        secret_hash: Seq<u8>,
        lock_time: u64,
        amount: u64,
        receiver: Seq<u8>,
        rent_exemption_lamports: u64,
        vault_bump_seed: u8,
        vault_bump_seed_data: u8,
    },
    SPLTokenPayment {
        secret_hash: Seq<u8>,
        lock_time: u64,
        amount: u64,
        receiver: Seq<u8>,
        token_program: Seq<u8>,
        rent_exemption_lamports: u64,
        vault_bump_seed: u8,
        vault_bump_seed_data: u8,
    },
    ReceiverSpend {
        secret: Seq<u8>,
        lock_time: u64,
        amount: u64,
        sender: Seq<u8>,
        token_program: Seq<u8>,
        vault_bump_seed: u8,
        vault_bump_seed_data: u8,
    },
    SenderRefund {
        secret_hash: Seq<u8>,
        lock_time: u64,
        amount: u64,
        receiver: Seq<u8>,
        token_program: Seq<u8>,
        vault_bump_seed: u8,
        vault_bump_seed_data: u8,
    },
}

impl SwapInstructionModel {
    /// An instruction whose 32-byte fields have the width the layout fixes.
    pub open spec fn wf(self) -> bool {
        match self {
            SwapInstructionModel::LamportsPayment { secret_hash, receiver, .. } =>
                secret_hash.len() == 32 && receiver.len() == 32,
            SwapInstructionModel::SPLTokenPayment { secret_hash, receiver, token_program, .. } =>
                secret_hash.len() == 32 && receiver.len() == 32 && token_program.len() == 32,
            SwapInstructionModel::ReceiverSpend { secret, sender, token_program, .. } =>
                secret.len() == 32 && sender.len() == 32 && token_program.len() == 32,
            SwapInstructionModel::SenderRefund { secret_hash, receiver, token_program, .. } =>
                secret_hash.len() == 32 && receiver.len() == 32 && token_program.len() == 32,
        }
    }
}

impl View for AtomicSwapInstruction {
    type V = SwapInstructionModel;

    open spec fn view(&self) -> SwapInstructionModel {
        match *self {
            AtomicSwapInstruction::LamportsPayment {
                secret_hash, lock_time, amount, receiver,
                rent_exemption_lamports, vault_bump_seed, vault_bump_seed_data,
            } => SwapInstructionModel::LamportsPayment {
                secret_hash: secret_hash@, lock_time, amount, receiver: receiver@,
                rent_exemption_lamports, vault_bump_seed, vault_bump_seed_data,
            },
            AtomicSwapInstruction::SPLTokenPayment {
                secret_hash, lock_time, amount, receiver, token_program,
                rent_exemption_lamports, vault_bump_seed, vault_bump_seed_data,
            } => SwapInstructionModel::SPLTokenPayment {
                secret_hash: secret_hash@, lock_time, amount, receiver: receiver@,
                token_program: token_program@,
                rent_exemption_lamports, vault_bump_seed, vault_bump_seed_data,
            },
            AtomicSwapInstruction::ReceiverSpend {
                secret, lock_time, amount, sender, token_program,
                vault_bump_seed, vault_bump_seed_data,
            } => SwapInstructionModel::ReceiverSpend {
                secret: secret@, lock_time, amount, sender: sender@,
                token_program: token_program@, vault_bump_seed, vault_bump_seed_data,
            },
            AtomicSwapInstruction::SenderRefund {
                secret_hash, lock_time, amount, receiver, token_program,
                vault_bump_seed, vault_bump_seed_data,
            } => SwapInstructionModel::SenderRefund {
                secret_hash: secret_hash@, lock_time, amount, receiver: receiver@,
                token_program: token_program@, vault_bump_seed, vault_bump_seed_data,
            },
        }
    }
}

impl View for LamportsPaymentParams {
    type V = SwapInstructionModel;

    open spec fn view(&self) -> SwapInstructionModel {
        SwapInstructionModel::LamportsPayment {
            secret_hash: self.secret_hash@,
            lock_time: self.lock_time,
            amount: self.amount,
            receiver: self.receiver@,
            rent_exemption_lamports: self.rent_exemption_lamports,
            vault_bump_seed: self.vault_bump_seed,
            vault_bump_seed_data: self.vault_bump_seed_data,
        }
    }
}

impl View for SPLTokenPaymentParams {
    type V = SwapInstructionModel;

    open spec fn view(&self) -> SwapInstructionModel {
        SwapInstructionModel::SPLTokenPayment {
            secret_hash: self.secret_hash@,
            lock_time: self.lock_time,
            amount: self.amount,
            receiver: self.receiver@,
            token_program: self.token_program@,
            rent_exemption_lamports: self.rent_exemption_lamports,
            vault_bump_seed: self.vault_bump_seed,
            vault_bump_seed_data: self.vault_bump_seed_data,
        }
    }
}

impl View for ReceiverSpendParams {
    type V = SwapInstructionModel;

    open spec fn view(&self) -> SwapInstructionModel {
        SwapInstructionModel::ReceiverSpend {
            secret: self.secret@,
            lock_time: self.lock_time,
            amount: self.amount,
            sender: self.sender@,
            token_program: self.token_program@,
            vault_bump_seed: self.vault_bump_seed,
            vault_bump_seed_data: self.vault_bump_seed_data,
        }
    }
}

impl View for SenderRefundParams {
    type V = SwapInstructionModel;

    open spec fn view(&self) -> SwapInstructionModel {
        SwapInstructionModel::SenderRefund {
            secret_hash: self.secret_hash@,
            lock_time: self.lock_time,
            amount: self.amount,
            receiver: self.receiver@,
            token_program: self.token_program@,
            vault_bump_seed: self.vault_bump_seed,
            vault_bump_seed_data: self.vault_bump_seed_data,
        }
    }
}

/// The exact encoding of an instruction: its tag byte, then its fields at
/// their fixed offsets.
pub open spec fn spec_pack(m: SwapInstructionModel) -> Seq<u8> {
    match m {
        SwapInstructionModel::LamportsPayment {
            secret_hash, lock_time, amount, receiver,
            rent_exemption_lamports, vault_bump_seed, vault_bump_seed_data,
        } => seq![0u8] + secret_hash + spec_u64_to_le_bytes(lock_time)
            + spec_u64_to_le_bytes(amount) + receiver
            + spec_u64_to_le_bytes(rent_exemption_lamports)
            + seq![vault_bump_seed, vault_bump_seed_data],
        SwapInstructionModel::SPLTokenPayment {
            secret_hash, lock_time, amount, receiver, token_program,
            rent_exemption_lamports, vault_bump_seed, vault_bump_seed_data,
        } => seq![1u8] + secret_hash + spec_u64_to_le_bytes(lock_time)
            + spec_u64_to_le_bytes(amount) + receiver + token_program
            + spec_u64_to_le_bytes(rent_exemption_lamports)
            + seq![vault_bump_seed, vault_bump_seed_data],
        SwapInstructionModel::ReceiverSpend {
            secret, lock_time, amount, sender, token_program,
            vault_bump_seed, vault_bump_seed_data,
        } => seq![2u8] + secret + spec_u64_to_le_bytes(lock_time)
            + spec_u64_to_le_bytes(amount) + sender + token_program
            + seq![vault_bump_seed, vault_bump_seed_data],
        SwapInstructionModel::SenderRefund {
            secret_hash, lock_time, amount, receiver, token_program,
            vault_bump_seed, vault_bump_seed_data,
        } => seq![3u8] + secret_hash + spec_u64_to_le_bytes(lock_time)
            + spec_u64_to_le_bytes(amount) + receiver + token_program
            + seq![vault_bump_seed, vault_bump_seed_data],
    }
}

/// What decoding yields for a tag byte and a full buffer (tag included): the
/// instruction, or the exact error. An unrecognized tag is rejected outright;
/// a recognized tag with any total length other than the one its layout
/// demands is rejected before any field is read.
pub open spec fn spec_unpack(tag: u8, s: Seq<u8>) -> Result<SwapInstructionModel, SwapError> {
    if tag > 3 {
        Err(SwapError::InvalidAtomicSwapInstruction)
    } else if s.len() != spec_instruction_len(tag) {
        Err(SwapError::InvalidInputLength)
    } else if tag == 0 {
        Ok(SwapInstructionModel::LamportsPayment {
            secret_hash: s.subrange(1, 33),
            lock_time: spec_u64_from_le_bytes(s.subrange(33, 41)),
            amount: spec_u64_from_le_bytes(s.subrange(41, 49)),
            receiver: s.subrange(49, 81),
            rent_exemption_lamports: spec_u64_from_le_bytes(s.subrange(81, 89)),
            vault_bump_seed: s[89],
            vault_bump_seed_data: s[90],
        })
    } else if tag == 1 {
        Ok(SwapInstructionModel::SPLTokenPayment {
            secret_hash: s.subrange(1, 33),
            lock_time: spec_u64_from_le_bytes(s.subrange(33, 41)),
            amount: spec_u64_from_le_bytes(s.subrange(41, 49)),
            receiver: s.subrange(49, 81),
            token_program: s.subrange(81, 113),
            rent_exemption_lamports: spec_u64_from_le_bytes(s.subrange(113, 121)),
            vault_bump_seed: s[121],
            vault_bump_seed_data: s[122],
        })
    } else if tag == 2 {
        Ok(SwapInstructionModel::ReceiverSpend {
            secret: s.subrange(1, 33),
            lock_time: spec_u64_from_le_bytes(s.subrange(33, 41)),
            amount: spec_u64_from_le_bytes(s.subrange(41, 49)),
            sender: s.subrange(49, 81),
            token_program: s.subrange(81, 113),
            vault_bump_seed: s[113],
            vault_bump_seed_data: s[114],
        })
    } else {
        Ok(SwapInstructionModel::SenderRefund {
            secret_hash: s.subrange(1, 33),
            lock_time: spec_u64_from_le_bytes(s.subrange(33, 41)),
            amount: spec_u64_from_le_bytes(s.subrange(41, 49)),
            receiver: s.subrange(49, 81),
            token_program: s.subrange(81, 113),
            vault_bump_seed: s[113],
            vault_bump_seed_data: s[114],
        })
    }
}

impl AtomicSwapInstruction {
    /// Decode one instruction from its tag byte and the full buffer the tag
    /// arrived in.
    pub fn unpack(instruction_byte: u8, input: &[u8]) -> (r: Result<AtomicSwapInstruction, SwapError>)
        ensures
            match r {
                Ok(ins) => spec_unpack(instruction_byte, input@) == Ok::<SwapInstructionModel, SwapError>(ins@),
                Err(e) => spec_unpack(instruction_byte, input@) == Err::<SwapInstructionModel, SwapError>(e),
            },
    {
        if instruction_byte > 3 {
            return Err(SwapError::InvalidAtomicSwapInstruction);
        }
        let expected: usize = if instruction_byte == 0 {
            91
        } else if instruction_byte == 1 {
            123
        } else {
            115
        };
        if input.len() != expected {
            return Err(SwapError::InvalidInputLength);
        }
        if instruction_byte == 0 {
            Ok(AtomicSwapInstruction::LamportsPayment {
                secret_hash: read_bytes32(input, 1),
                lock_time: u64_from_le_bytes(slice_subrange(input, 33, 41)),
                amount: u64_from_le_bytes(slice_subrange(input, 41, 49)),
                receiver: read_bytes32(input, 49),
                rent_exemption_lamports: u64_from_le_bytes(slice_subrange(input, 81, 89)),
                vault_bump_seed: input[89],
                vault_bump_seed_data: input[90],
            })
        } else if instruction_byte == 1 {
            Ok(AtomicSwapInstruction::SPLTokenPayment {
                secret_hash: read_bytes32(input, 1),
                lock_time: u64_from_le_bytes(slice_subrange(input, 33, 41)),
                amount: u64_from_le_bytes(slice_subrange(input, 41, 49)),
                receiver: read_bytes32(input, 49),
                token_program: read_bytes32(input, 81),
                rent_exemption_lamports: u64_from_le_bytes(slice_subrange(input, 113, 121)),
                vault_bump_seed: input[121],
                vault_bump_seed_data: input[122],
            })
        } else if instruction_byte == 2 {
            Ok(AtomicSwapInstruction::ReceiverSpend {
                secret: read_bytes32(input, 1),
                lock_time: u64_from_le_bytes(slice_subrange(input, 33, 41)),
                amount: u64_from_le_bytes(slice_subrange(input, 41, 49)),
                sender: read_bytes32(input, 49),
                token_program: read_bytes32(input, 81),
                vault_bump_seed: input[113],
                vault_bump_seed_data: input[114],
            })
        } else {
            Ok(AtomicSwapInstruction::SenderRefund {
                secret_hash: read_bytes32(input, 1),
                lock_time: u64_from_le_bytes(slice_subrange(input, 33, 41)),
                amount: u64_from_le_bytes(slice_subrange(input, 41, 49)),
                receiver: read_bytes32(input, 49),
                token_program: read_bytes32(input, 81),
                vault_bump_seed: input[113],
                vault_bump_seed_data: input[114],
            })
        }
    }

    /// Encode the instruction into its exact binary form.
    pub fn pack(&self) -> (r: Vec<u8>)
        ensures
            r@ == spec_pack(self@),
    {
        let mut buf: Vec<u8> = Vec::new();
        match self {
            AtomicSwapInstruction::LamportsPayment {
                secret_hash, lock_time, amount, receiver,
                rent_exemption_lamports, vault_bump_seed, vault_bump_seed_data,
            } => {
                buf.push(0u8);
                push_bytes(&mut buf, secret_hash.as_slice());
                let mut lock_time_bytes = u64_to_le_bytes(*lock_time);
                buf.append(&mut lock_time_bytes);
                let mut amount_bytes = u64_to_le_bytes(*amount);
                buf.append(&mut amount_bytes);
                push_bytes(&mut buf, receiver.as_slice());
                let mut rent_bytes = u64_to_le_bytes(*rent_exemption_lamports);
                buf.append(&mut rent_bytes);
                buf.push(*vault_bump_seed);
                buf.push(*vault_bump_seed_data);
                proof {
                    assert(buf@ =~= spec_pack(self@));
                }
            },
            AtomicSwapInstruction::SPLTokenPayment {
                secret_hash, lock_time, amount, receiver, token_program,
                rent_exemption_lamports, vault_bump_seed, vault_bump_seed_data,
            } => {
                buf.push(1u8);
                push_bytes(&mut buf, secret_hash.as_slice());
                let mut lock_time_bytes = u64_to_le_bytes(*lock_time);
                buf.append(&mut lock_time_bytes);
                let mut amount_bytes = u64_to_le_bytes(*amount);
                buf.append(&mut amount_bytes);
                push_bytes(&mut buf, receiver.as_slice());
                push_bytes(&mut buf, token_program.as_slice());
                let mut rent_bytes = u64_to_le_bytes(*rent_exemption_lamports);
                buf.append(&mut rent_bytes);
                buf.push(*vault_bump_seed);
                buf.push(*vault_bump_seed_data);
                proof {
                    assert(buf@ =~= spec_pack(self@));
                }
            },
            AtomicSwapInstruction::ReceiverSpend {
                secret, lock_time, amount, sender, token_program,
                vault_bump_seed, vault_bump_seed_data,
            } => {
                buf.push(2u8);
                push_bytes(&mut buf, secret.as_slice());
                let mut lock_time_bytes = u64_to_le_bytes(*lock_time);
                buf.append(&mut lock_time_bytes);
                let mut amount_bytes = u64_to_le_bytes(*amount);
                buf.append(&mut amount_bytes);
                push_bytes(&mut buf, sender.as_slice());
                push_bytes(&mut buf, token_program.as_slice());
                buf.push(*vault_bump_seed);
                buf.push(*vault_bump_seed_data);
                proof {
                    assert(buf@ =~= spec_pack(self@));
                }
            },
            AtomicSwapInstruction::SenderRefund {
                secret_hash, lock_time, amount, receiver, token_program,
                vault_bump_seed, vault_bump_seed_data,
            } => {
                buf.push(3u8);
                push_bytes(&mut buf, secret_hash.as_slice());
                let mut lock_time_bytes = u64_to_le_bytes(*lock_time);
                buf.append(&mut lock_time_bytes);
                let mut amount_bytes = u64_to_le_bytes(*amount);
                buf.append(&mut amount_bytes);
                push_bytes(&mut buf, receiver.as_slice());
                push_bytes(&mut buf, token_program.as_slice());
                buf.push(*vault_bump_seed);
                buf.push(*vault_bump_seed_data);
                proof {
                    assert(buf@ =~= spec_pack(self@));
                }
            },
        }
        buf
    }
}

/// Encoding then decoding an instruction returns the instruction: the codec
/// loses nothing and accepts exactly what it produces.
pub proof fn lemma_instruction_round_trip(m: SwapInstructionModel)
    requires
        m.wf(),
    ensures
        spec_pack(m).len() > 0,
        spec_unpack(spec_pack(m)[0], spec_pack(m)) == Ok::<SwapInstructionModel, SwapError>(m),
{
    lemma_auto_spec_u64_to_from_le_bytes();
    let s = spec_pack(m);
    match m {
        SwapInstructionModel::LamportsPayment {
            secret_hash, lock_time, amount, receiver,
            rent_exemption_lamports, vault_bump_seed, vault_bump_seed_data,
        } => {
            assert(s.len() == 91);
            assert(s[0] == 0u8);
            assert(s.subrange(1, 33) =~= secret_hash);
            assert(s.subrange(33, 41) =~= spec_u64_to_le_bytes(lock_time));
            assert(s.subrange(41, 49) =~= spec_u64_to_le_bytes(amount));
            assert(s.subrange(49, 81) =~= receiver);
            assert(s.subrange(81, 89) =~= spec_u64_to_le_bytes(rent_exemption_lamports));
            assert(s[89] == vault_bump_seed);
            assert(s[90] == vault_bump_seed_data);
        },
        SwapInstructionModel::SPLTokenPayment {
            secret_hash, lock_time, amount, receiver, token_program,
            rent_exemption_lamports, vault_bump_seed, vault_bump_seed_data,
        } => {
            assert(s.len() == 123);
            assert(s[0] == 1u8);
            assert(s.subrange(1, 33) =~= secret_hash);
            assert(s.subrange(33, 41) =~= spec_u64_to_le_bytes(lock_time));
            assert(s.subrange(41, 49) =~= spec_u64_to_le_bytes(amount));
            assert(s.subrange(49, 81) =~= receiver);
            assert(s.subrange(81, 113) =~= token_program);
            assert(s.subrange(113, 121) =~= spec_u64_to_le_bytes(rent_exemption_lamports));
            assert(s[121] == vault_bump_seed);
            assert(s[122] == vault_bump_seed_data);
        },
        SwapInstructionModel::ReceiverSpend {
            secret, lock_time, amount, sender, token_program,
            vault_bump_seed, vault_bump_seed_data,
        } => {
            assert(s.len() == 115);
            assert(s[0] == 2u8);
            assert(s.subrange(1, 33) =~= secret);
            assert(s.subrange(33, 41) =~= spec_u64_to_le_bytes(lock_time));
            assert(s.subrange(41, 49) =~= spec_u64_to_le_bytes(amount));
            assert(s.subrange(49, 81) =~= sender);
            assert(s.subrange(81, 113) =~= token_program);
            assert(s[113] == vault_bump_seed);
            assert(s[114] == vault_bump_seed_data);
        },
        SwapInstructionModel::SenderRefund {
            secret_hash, lock_time, amount, receiver, token_program,
            vault_bump_seed, vault_bump_seed_data,
        } => {
            assert(s.len() == 115);
            assert(s[0] == 3u8);
            assert(s.subrange(1, 33) =~= secret_hash);
            assert(s.subrange(33, 41) =~= spec_u64_to_le_bytes(lock_time));
            assert(s.subrange(41, 49) =~= spec_u64_to_le_bytes(amount));
            assert(s.subrange(49, 81) =~= receiver);
            assert(s.subrange(81, 113) =~= token_program);
            assert(s[113] == vault_bump_seed);
            assert(s[114] == vault_bump_seed_data);
        },
    }
}

/// A buffer of any length other than the one its recognized tag demands is
/// rejected with the length error, before any field is read.
pub proof fn lemma_unpack_length_error(tag: u8, s: Seq<u8>)
    requires
        tag <= 3,
        s.len() != spec_instruction_len(tag),
    ensures
        spec_unpack(tag, s) == Err::<SwapInstructionModel, SwapError>(SwapError::InvalidInputLength),
{
}

} // verus!
