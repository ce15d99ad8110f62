//! The swap state machine: four guarded transitions over the ledger facts.
//!
//! Each operation validates the caller-supplied parameters against the
//! ledger's account facts and the stored record, recomputes the commitment,
//! and on success returns the record to persist together with the value
//! movements the ledger must execute with it; on failure it returns the exact
//! error and asks for nothing. Whichever of the two claims validates first
//! turns the record terminal, and the other then fails on the lifecycle
//! check: funds leave the vault at most once.

use vstd::prelude::*;
use crate::commitment::{commitment_of, hash_secret, payment_hash, sha256_of};
use crate::error_code::SwapError;
use crate::instruction::{
    spec_unpack, AtomicSwapInstruction, LamportsPaymentParams, ReceiverSpendParams,
    SPLTokenPaymentParams, SenderRefundParams, SwapInstructionModel,
};
use crate::ledger::{movements_model, AccountView, LedgerView, Movement, MovementModel, SwapOutcome};
use crate::payment::{spec_unpack_record, Payment, PaymentModel, PaymentState};
use crate::vault::{swap_data_tag, swap_data_tag_bytes, swap_tag, swap_tag_bytes, vault_address, verify_vault};
use crate::wire::{bytes32_eq, is_zero32, zero_bytes32, zero_id};

verus! {

/// The account-role checks every operation makes, in order: the caller must
/// have signed and be writable, both vaults must be writable, and the funds
/// vault must still be owned by the ledger's native loader.
pub open spec fn spec_validate_accounts(
    caller: AccountView,
    vault_data: AccountView,
    vault: AccountView,
) -> Option<SwapError> {
    if !caller.is_signer {
        Some(SwapError::SenderAccountNotSigner)
    } else if !caller.is_writable {
        Some(SwapError::SenderAccountNotWritable)
    } else if !vault_data.is_writable {
        Some(SwapError::VaultPdaDataNotWritable)
    } else if !vault.is_writable {
        Some(SwapError::VaultPdaNotWritable)
    } else if vault.owner@ != zero_bytes32() {
        Some(SwapError::VaultPdaProgramNotOwner)
    } else {
        None
    }
}

/// What a native-value payment yields: the exact error, or the record to
/// persist and the single movement of the escrowed amount plus the storage
/// funding, caller to funds vault.
pub open spec fn spec_lamports_payment(
    program_id: Seq<u8>,
    l: LedgerView,
    m: SwapInstructionModel,
) -> Result<(PaymentModel, Seq<MovementModel>), SwapError> {
    match m {
        SwapInstructionModel::LamportsPayment {
            secret_hash, lock_time, amount, receiver,
            rent_exemption_lamports, vault_bump_seed, vault_bump_seed_data,
        } => {
            if receiver == zero_bytes32() {
                Err(SwapError::ReceiverSetToDefault)
            } else if amount == 0 {
                Err(SwapError::AmountZero)
            } else {
                match spec_validate_accounts(l.caller, l.vault_data, l.vault) {
                    Some(e) => Err(e),
                    None => {
                        if vault_address(swap_tag_bytes(), lock_time, secret_hash,
                                vault_bump_seed, program_id) != Some(l.vault.key@) {
                            Err(SwapError::InvalidVaultDerivation)
                        } else if vault_address(swap_data_tag_bytes(), lock_time, secret_hash,
                                vault_bump_seed_data, program_id) != Some(l.vault_data.key@) {
                            Err(SwapError::InvalidVaultDerivation)
                        } else {
                            Ok((
                                PaymentModel {
                                    payment_hash: commitment_of(receiver, l.caller.key@,
                                        secret_hash, zero_bytes32(), amount),
                                    lock_time,
                                    state: PaymentState::PaymentSent,
                                },
                                seq![
                                    MovementModel {
                                        from: l.caller.key@,
                                        to: l.vault.key@,
                                        amount: (amount + rent_exemption_lamports) as u64,
                                        asset: zero_bytes32(),
                                    },
                                ],
                            ))
                        }
                    },
                }
            }
        },
        _ => Err(SwapError::InvalidAtomicSwapInstruction),
    }
}

/// What a token payment yields: the exact error, or the record to persist,
/// the native movement funding the vault's storage, and the token movement of
/// the escrowed amount, both caller to funds vault.
pub open spec fn spec_spl_token_payment(
    program_id: Seq<u8>,
    l: LedgerView,
    m: SwapInstructionModel,
) -> Result<(PaymentModel, Seq<MovementModel>), SwapError> {
    match m {
        SwapInstructionModel::SPLTokenPayment {
            secret_hash, lock_time, amount, receiver, token_program,
            rent_exemption_lamports, vault_bump_seed, vault_bump_seed_data,
        } => {
            if receiver == zero_bytes32() {
                Err(SwapError::ReceiverSetToDefault)
            } else if amount == 0 {
                Err(SwapError::AmountZero)
            } else {
                match spec_validate_accounts(l.caller, l.vault_data, l.vault) {
                    Some(e) => Err(e),
                    None => {
                        if vault_address(swap_tag_bytes(), lock_time, secret_hash,
                                vault_bump_seed, program_id) != Some(l.vault.key@) {
                            Err(SwapError::InvalidVaultDerivation)
                        } else if vault_address(swap_data_tag_bytes(), lock_time, secret_hash,
                                vault_bump_seed_data, program_id) != Some(l.vault_data.key@) {
                            Err(SwapError::InvalidVaultDerivation)
                        } else {
                            Ok((
                                PaymentModel {
                                    payment_hash: commitment_of(receiver, l.caller.key@,
                                        secret_hash, token_program, amount),
                                    lock_time,
                                    state: PaymentState::PaymentSent,
                                },
                                seq![
                                    MovementModel {
                                        from: l.caller.key@,
                                        to: l.vault.key@,
                                        amount: rent_exemption_lamports,
                                        asset: zero_bytes32(),
                                    },
                                    MovementModel {
                                        from: l.caller.key@,
                                        to: l.vault.key@,
                                        amount,
                                        asset: token_program,
                                    },
                                ],
                            ))
                        }
                    },
                }
            }
        },
        _ => Err(SwapError::InvalidAtomicSwapInstruction),
    }
}

/// What a receiver claim yields: the exact error, or the record turned
/// `ReceiverSpent` and the movement of the escrowed amount, funds vault to
/// receiver. The claim stands only if the hash of the disclosed secret
/// recommits to exactly the stored commitment and the record still says
/// `PaymentSent`.
pub open spec fn spec_receiver_spend(
    program_id: Seq<u8>,
    l: LedgerView,
    m: SwapInstructionModel,
) -> Result<(PaymentModel, Seq<MovementModel>), SwapError> {
    match m {
        SwapInstructionModel::ReceiverSpend {
            secret, lock_time, amount, sender, token_program,
            vault_bump_seed, vault_bump_seed_data,
        } => {
            match spec_validate_accounts(l.caller, l.vault_data, l.vault) {
                Some(e) => Err(e),
                None => {
                    if l.vault_data.owner@ != program_id {
                        Err(SwapError::InvalidOwner)
                    } else {
                        match spec_unpack_record(l.vault_data_bytes@) {
                            Err(e) => Err(e),
                            Ok(rec) => {
                                if rec.payment_hash != commitment_of(l.caller.key@, sender,
                                        sha256_of(secret), token_program, amount) {
                                    Err(SwapError::InvalidPaymentHash)
                                } else if rec.state != PaymentState::PaymentSent {
                                    Err(SwapError::InvalidPaymentState)
                                } else {
                                    Ok((
                                        PaymentModel {
                                            payment_hash: rec.payment_hash,
                                            lock_time: rec.lock_time,
                                            state: PaymentState::ReceiverSpent,
                                        },
                                        seq![
                                            MovementModel {
                                                from: l.vault.key@,
                                                to: l.caller.key@,
                                                amount,
                                                asset: token_program,
                                            },
                                        ],
                                    ))
                                }
                            },
                        }
                    }
                },
            }
        },
        _ => Err(SwapError::InvalidAtomicSwapInstruction),
    }
}

/// What a sender reclaim yields: the exact error, or the record turned
/// `SenderRefunded` and the movement of the escrowed amount, funds vault back
/// to sender. The commitment and lifecycle checks stand on their own; the
/// clock is consulted only after both hold, and a too-early reclaim is the
/// one retriable rejection.
pub open spec fn spec_sender_refund(
    program_id: Seq<u8>,
    l: LedgerView,
    m: SwapInstructionModel,
) -> Result<(PaymentModel, Seq<MovementModel>), SwapError> {
    match m {
        SwapInstructionModel::SenderRefund {
            secret_hash, lock_time, amount, receiver, token_program,
            vault_bump_seed, vault_bump_seed_data,
        } => {
            match spec_validate_accounts(l.caller, l.vault_data, l.vault) {
                Some(e) => Err(e),
                None => {
                    if l.vault_data.owner@ != program_id {
                        Err(SwapError::InvalidOwner)
                    } else {
                        match spec_unpack_record(l.vault_data_bytes@) {
                            Err(e) => Err(e),
                            Ok(rec) => {
                                if rec.payment_hash != commitment_of(receiver, l.caller.key@,
                                        secret_hash, token_program, amount) {
                                    Err(SwapError::InvalidPaymentHash)
                                } else if rec.state != PaymentState::PaymentSent {
                                    Err(SwapError::InvalidPaymentState)
                                } else if l.now < rec.lock_time {
                                    Err(SwapError::WaitForLockTime)
                                } else {
                                    Ok((
                                        PaymentModel {
                                            payment_hash: rec.payment_hash,
                                            lock_time: rec.lock_time,
                                            state: PaymentState::SenderRefunded,
                                        },
                                        seq![
                                            MovementModel {
                                                from: l.vault.key@,
                                                to: l.caller.key@,
                                                amount,
                                                asset: token_program,
                                            },
                                        ],
                                    ))
                                }
                            },
                        }
                    }
                },
            }
        },
        _ => Err(SwapError::InvalidAtomicSwapInstruction),
    }
}

/// The whole engine as one function: decode the instruction, then run the
/// operation its tag names.
pub open spec fn spec_process_instruction(
    program_id: Seq<u8>,
    l: LedgerView,
    data: Seq<u8>,
) -> Result<(PaymentModel, Seq<MovementModel>), SwapError> {
    if data.len() == 0 {
        Err(SwapError::InvalidInputLength)
    } else {
        match spec_unpack(data[0], data) {
            Err(e) => Err(e),
            Ok(m) => match m {
                SwapInstructionModel::LamportsPayment { .. } => spec_lamports_payment(program_id, l, m),
                SwapInstructionModel::SPLTokenPayment { .. } => spec_spl_token_payment(program_id, l, m),
                SwapInstructionModel::ReceiverSpend { .. } => spec_receiver_spend(program_id, l, m),
                SwapInstructionModel::SenderRefund { .. } => spec_sender_refund(program_id, l, m),
            },
        }
    }
}

/// A decoded native payment asks for a sum that fits: the escrowed amount
/// plus the storage funding stays within the word the ledger counts value in.
pub open spec fn payment_sum_fits(data: Seq<u8>) -> bool {
    data.len() > 0 ==> match spec_unpack(data[0], data) {
        Ok(m) => m matches SwapInstructionModel::LamportsPayment {
            amount, rent_exemption_lamports, ..
        } ==> amount + rent_exemption_lamports <= u64::MAX,
        Err(_) => true,
    }
}

pub struct SwapFunctions;

impl SwapFunctions {
    /// Check the account roles every operation demands.
    fn validate_accounts(
        caller: &AccountView,
        vault_data: &AccountView,
        vault: &AccountView,
    ) -> (r: Option<SwapError>)
        ensures
            r == spec_validate_accounts(*caller, *vault_data, *vault),
    {
        if !caller.is_signer {
            return Some(SwapError::SenderAccountNotSigner);
        }
        if !caller.is_writable {
            return Some(SwapError::SenderAccountNotWritable);
        }
        if !vault_data.is_writable {
            return Some(SwapError::VaultPdaDataNotWritable);
        }
        if !vault.is_writable {
            return Some(SwapError::VaultPdaNotWritable);
        }
        if !is_zero32(&vault.owner) {
            return Some(SwapError::VaultPdaProgramNotOwner);
        }
        None
    }

    /// Check that both caller-supplied custody addresses re-derive from the
    /// swap parameters under this engine's identity.
    fn verify_vaults(
        program_id: &[u8; 32],
        ledger: &LedgerView,
        lock_time: u64,
        secret_hash: &[u8; 32],
        vault_bump_seed: u8,
        vault_bump_seed_data: u8,
    ) -> (r: Option<SwapError>)
        ensures
            r == if vault_address(swap_tag_bytes(), lock_time, secret_hash@,
                    vault_bump_seed, program_id@) != Some(ledger.vault.key@) {
                Some(SwapError::InvalidVaultDerivation)
            } else if vault_address(swap_data_tag_bytes(), lock_time, secret_hash@,
                    vault_bump_seed_data, program_id@) != Some(ledger.vault_data.key@) {
                Some(SwapError::InvalidVaultDerivation)
            } else {
                None::<SwapError>
            },
    {
        let tag = swap_tag();
        if !verify_vault(&ledger.vault.key, tag.as_slice(), lock_time, secret_hash,
                vault_bump_seed, program_id) {
            return Some(SwapError::InvalidVaultDerivation);
        }
        let data_tag = swap_data_tag();
        if !verify_vault(&ledger.vault_data.key, data_tag.as_slice(), lock_time, secret_hash,
                vault_bump_seed_data, program_id) {
            return Some(SwapError::InvalidVaultDerivation);
        }
        None
    }

    /// Escrow native value: validate, commit, and ask the ledger to create
    /// the record and move the amount plus the storage funding into the
    /// funds vault.
    pub fn lamports_payment(
        program_id: &[u8; 32],
        ledger: &LedgerView,
        params: LamportsPaymentParams,
    ) -> (r: Result<SwapOutcome, SwapError>)
        requires
            params.amount + params.rent_exemption_lamports <= u64::MAX,
        ensures
            match r {
                Ok(o) => spec_lamports_payment(program_id@, *ledger, params@)
                    == Ok::<(PaymentModel, Seq<MovementModel>), SwapError>(
                        (o.record@, movements_model(o.movements@))),
                Err(e) => spec_lamports_payment(program_id@, *ledger, params@)
                    == Err::<(PaymentModel, Seq<MovementModel>), SwapError>(e),
            },
    {
        if is_zero32(&params.receiver) {
            return Err(SwapError::ReceiverSetToDefault);
        }
        if params.amount == 0 {
            return Err(SwapError::AmountZero);
        }
        match Self::validate_accounts(&ledger.caller, &ledger.vault_data, &ledger.vault) {
            Some(e) => {
                return Err(e);
            },
            None => {},
        }
        match Self::verify_vaults(program_id, ledger, params.lock_time, &params.secret_hash,
                params.vault_bump_seed, params.vault_bump_seed_data) {
            Some(e) => {
                return Err(e);
            },
            None => {},
        }
        let asset = zero_id();
        let commitment = payment_hash(&params.receiver, &ledger.caller.key,
            &params.secret_hash, &asset, params.amount);
        let record = Payment {
            payment_hash: commitment,
            lock_time: params.lock_time,
            state: PaymentState::PaymentSent,
        };
        let mut movements: Vec<Movement> = Vec::new();
        movements.push(Movement {
            from: ledger.caller.key,
            to: ledger.vault.key,
            amount: params.amount + params.rent_exemption_lamports,
            asset,
        });
        let outcome = SwapOutcome { record, movements };
        proof {
            let expected = spec_lamports_payment(program_id@, *ledger, params@)->Ok_0;
            assert(movements_model(outcome.movements@) =~~= expected.1);
        }
        Ok(outcome)
    }

    /// Escrow a fungible token: validate, commit with the token's identity as
    /// the asset class, and ask the ledger to fund the vault's storage and
    /// move the token amount into it.
    pub fn spl_token_payment(
        program_id: &[u8; 32],
        ledger: &LedgerView,
        params: SPLTokenPaymentParams,
    ) -> (r: Result<SwapOutcome, SwapError>)
        ensures
            match r {
                Ok(o) => spec_spl_token_payment(program_id@, *ledger, params@)
                    == Ok::<(PaymentModel, Seq<MovementModel>), SwapError>(
                        (o.record@, movements_model(o.movements@))),
                Err(e) => spec_spl_token_payment(program_id@, *ledger, params@)
                    == Err::<(PaymentModel, Seq<MovementModel>), SwapError>(e),
            },
    {
        if is_zero32(&params.receiver) {
            return Err(SwapError::ReceiverSetToDefault);
        }
        if params.amount == 0 {
            return Err(SwapError::AmountZero);
        }
        match Self::validate_accounts(&ledger.caller, &ledger.vault_data, &ledger.vault) {
            Some(e) => {
                return Err(e);
            },
            None => {},
        }
        match Self::verify_vaults(program_id, ledger, params.lock_time, &params.secret_hash,
                params.vault_bump_seed, params.vault_bump_seed_data) {
            Some(e) => {
                return Err(e);
            },
            None => {},
        }
        let commitment = payment_hash(&params.receiver, &ledger.caller.key,
            &params.secret_hash, &params.token_program, params.amount);
        let record = Payment {
            payment_hash: commitment,
            lock_time: params.lock_time,
            state: PaymentState::PaymentSent,
        };
        let mut movements: Vec<Movement> = Vec::new();
        movements.push(Movement {
            from: ledger.caller.key,
            to: ledger.vault.key,
            amount: params.rent_exemption_lamports,
            asset: zero_id(),
        });
        movements.push(Movement {
            from: ledger.caller.key,
            to: ledger.vault.key,
            amount: params.amount,
            asset: params.token_program,
        });
        let outcome = SwapOutcome { record, movements };
        proof {
            let expected = spec_spl_token_payment(program_id@, *ledger, params@)->Ok_0;
            assert(movements_model(outcome.movements@) =~~= expected.1);
        }
        Ok(outcome)
    }

    /// Claim the escrow by disclosing the secret: validate, recommit from the
    /// secret's hash, and on a match against the stored record turn it
    /// `ReceiverSpent` and ask the ledger to move the amount to the receiver.
    pub fn receiver_spend(
        program_id: &[u8; 32],
        ledger: &LedgerView,
        params: ReceiverSpendParams,
    ) -> (r: Result<SwapOutcome, SwapError>)
        ensures
            match r {
                Ok(o) => spec_receiver_spend(program_id@, *ledger, params@)
                    == Ok::<(PaymentModel, Seq<MovementModel>), SwapError>(
                        (o.record@, movements_model(o.movements@))),
                Err(e) => spec_receiver_spend(program_id@, *ledger, params@)
                    == Err::<(PaymentModel, Seq<MovementModel>), SwapError>(e),
            },
    {
        match Self::validate_accounts(&ledger.caller, &ledger.vault_data, &ledger.vault) {
            Some(e) => {
                return Err(e);
            },
            None => {},
        }
        if !bytes32_eq(&ledger.vault_data.owner, program_id) {
            return Err(SwapError::InvalidOwner);
        }
        let secret_hash = hash_secret(&params.secret);
        let expected = payment_hash(&ledger.caller.key, &params.sender, &secret_hash,
            &params.token_program, params.amount);
        let record = match Payment::unpack(ledger.vault_data_bytes.as_slice()) {
            Ok(p) => p,
            Err(e) => {
                return Err(e);
            },
        };
        if !bytes32_eq(&record.payment_hash, &expected) {
            return Err(SwapError::InvalidPaymentHash);
        }
        if !(record.state == PaymentState::PaymentSent) {
            return Err(SwapError::InvalidPaymentState);
        }
        let new_record = Payment {
            payment_hash: record.payment_hash,
            lock_time: record.lock_time,
            state: PaymentState::ReceiverSpent,
        };
        let mut movements: Vec<Movement> = Vec::new();
        movements.push(Movement {
            from: ledger.vault.key,
            to: ledger.caller.key,
            amount: params.amount,
            asset: params.token_program,
        });
        let outcome = SwapOutcome { record: new_record, movements };
        proof {
            let expected_outcome = spec_receiver_spend(program_id@, *ledger, params@)->Ok_0;
            assert(movements_model(outcome.movements@) =~~= expected_outcome.1);
        }
        Ok(outcome)
    }

    /// Reclaim the escrow after expiry: validate, recommit, and once the
    /// lock time has passed turn the record `SenderRefunded` and ask the
    /// ledger to move the amount back to the sender.
    pub fn sender_refund(
        program_id: &[u8; 32],
        ledger: &LedgerView,
        params: SenderRefundParams,
    ) -> (r: Result<SwapOutcome, SwapError>)
        ensures
            match r {
                Ok(o) => spec_sender_refund(program_id@, *ledger, params@)
                    == Ok::<(PaymentModel, Seq<MovementModel>), SwapError>(
                        (o.record@, movements_model(o.movements@))),
                Err(e) => spec_sender_refund(program_id@, *ledger, params@)
                    == Err::<(PaymentModel, Seq<MovementModel>), SwapError>(e),
            },
    {
        match Self::validate_accounts(&ledger.caller, &ledger.vault_data, &ledger.vault) {
            Some(e) => {
                return Err(e);
            },
            None => {},
        }
        if !bytes32_eq(&ledger.vault_data.owner, program_id) {
            return Err(SwapError::InvalidOwner);
        }
        let expected = payment_hash(&params.receiver, &ledger.caller.key, &params.secret_hash,
            &params.token_program, params.amount);
        let record = match Payment::unpack(ledger.vault_data_bytes.as_slice()) {
            Ok(p) => p,
            Err(e) => {
                return Err(e);
            },
        };
        if !bytes32_eq(&record.payment_hash, &expected) {
            return Err(SwapError::InvalidPaymentHash);
        }
        if !(record.state == PaymentState::PaymentSent) {
            return Err(SwapError::InvalidPaymentState);
        }
        if ledger.now < record.lock_time {
            return Err(SwapError::WaitForLockTime);
        }
        let new_record = Payment {
            payment_hash: record.payment_hash,
            lock_time: record.lock_time,
            state: PaymentState::SenderRefunded,
        };
        let mut movements: Vec<Movement> = Vec::new();
        movements.push(Movement {
            from: ledger.vault.key,
            to: ledger.caller.key,
            amount: params.amount,
            asset: params.token_program,
        });
        let outcome = SwapOutcome { record: new_record, movements };
        proof {
            let expected_outcome = spec_sender_refund(program_id@, *ledger, params@)->Ok_0;
            assert(movements_model(outcome.movements@) =~~= expected_outcome.1);
        }
        Ok(outcome)
    }
}

/// Decode an instruction and run the operation it names against the ledger
/// facts. The one entry point the ledger calls.
pub fn process_instruction(
    program_id: &[u8; 32],
    ledger: &LedgerView,
    instruction_data: &[u8],
) -> (r: Result<SwapOutcome, SwapError>)
    requires
        payment_sum_fits(instruction_data@),
    ensures
        match r {
            Ok(o) => spec_process_instruction(program_id@, *ledger, instruction_data@)
                == Ok::<(PaymentModel, Seq<MovementModel>), SwapError>(
                    (o.record@, movements_model(o.movements@))),
            Err(e) => spec_process_instruction(program_id@, *ledger, instruction_data@)
                == Err::<(PaymentModel, Seq<MovementModel>), SwapError>(e),
        },
{
    if instruction_data.len() == 0 {
        return Err(SwapError::InvalidInputLength);
    }
    let instruction = match AtomicSwapInstruction::unpack(instruction_data[0], instruction_data) {
        Ok(ins) => ins,
        Err(e) => {
            return Err(e);
        },
    };
    match instruction {
        AtomicSwapInstruction::LamportsPayment {
            secret_hash, lock_time, amount, receiver,
            rent_exemption_lamports, vault_bump_seed, vault_bump_seed_data,
        } => SwapFunctions::lamports_payment(program_id, ledger, LamportsPaymentParams {
            secret_hash, lock_time, amount, receiver,
            rent_exemption_lamports, vault_bump_seed, vault_bump_seed_data,
        }),
        AtomicSwapInstruction::SPLTokenPayment {
            secret_hash, lock_time, amount, receiver, token_program,
            rent_exemption_lamports, vault_bump_seed, vault_bump_seed_data,
        } => SwapFunctions::spl_token_payment(program_id, ledger, SPLTokenPaymentParams {
            secret_hash, lock_time, amount, receiver, token_program,
            rent_exemption_lamports, vault_bump_seed, vault_bump_seed_data,
        }),
        AtomicSwapInstruction::ReceiverSpend {
            secret, lock_time, amount, sender, token_program,
            vault_bump_seed, vault_bump_seed_data,
        } => SwapFunctions::receiver_spend(program_id, ledger, ReceiverSpendParams {
            secret, lock_time, amount, sender, token_program,
            vault_bump_seed, vault_bump_seed_data,
        }),
        AtomicSwapInstruction::SenderRefund {
            secret_hash, lock_time, amount, receiver, token_program,
            vault_bump_seed, vault_bump_seed_data,
        } => SwapFunctions::sender_refund(program_id, ledger, SenderRefundParams {
            secret_hash, lock_time, amount, receiver, token_program,
            vault_bump_seed, vault_bump_seed_data,
        }),
    }
}

} // verus!
