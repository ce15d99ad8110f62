//! End-to-end scenarios of the swap state machine: escrow, claim by secret,
//! reclaim after expiry, and the rejections that guard each of them.

use etomic_swap::commitment::{hash_secret, payment_hash};
use etomic_swap::error_code::SwapError;
use etomic_swap::instruction::{
    AtomicSwapInstruction, LamportsPaymentParams, ReceiverSpendParams, SPLTokenPaymentParams,
    SenderRefundParams,
};
use etomic_swap::ledger::{AccountView, LedgerView, Movement, SwapOutcome};
use etomic_swap::payment::PaymentState;
use etomic_swap::swap_functions::{process_instruction, SwapFunctions};
use solana_program::pubkey::Pubkey;

const PROGRAM_ID: [u8; 32] = [9; 32];
const SENDER: [u8; 32] = [1; 32];
const RECEIVER: [u8; 32] = [2; 32];
const ZERO: [u8; 32] = [0; 32];
const SECRET: [u8; 32] = [0; 32];
const LOCK_TIME: u64 = 1;
const AMOUNT: u64 = 10000;
const RENT: u64 = 2039280;

struct Setup {
    secret_hash: [u8; 32],
    vault: [u8; 32],
    vault_bump: u8,
    vault_data: [u8; 32],
    vault_data_bump: u8,
}

fn setup() -> Setup {
    let secret_hash = hash_secret(&SECRET);
    let program = Pubkey::new_from_array(PROGRAM_ID);
    let (vault, vault_bump) = Pubkey::find_program_address(
        &[b"swap", &LOCK_TIME.to_le_bytes(), &secret_hash],
        &program,
    );
    let (vault_data, vault_data_bump) = Pubkey::find_program_address(
        &[b"swap_data", &LOCK_TIME.to_le_bytes(), &secret_hash],
        &program,
    );
    Setup {
        secret_hash,
        vault: vault.to_bytes(),
        vault_bump,
        vault_data: vault_data.to_bytes(),
        vault_data_bump,
    }
}

fn account(key: [u8; 32], is_signer: bool, owner: [u8; 32]) -> AccountView {
    AccountView { key, is_signer, is_writable: true, owner }
}

fn payment_ledger(s: &Setup) -> LedgerView {
    LedgerView {
        caller: account(SENDER, true, ZERO),
        vault_data: account(s.vault_data, false, ZERO),
        vault: account(s.vault, false, ZERO),
        vault_data_bytes: Vec::new(),
        now: 0,
    }
}

fn payment_params(s: &Setup) -> LamportsPaymentParams {
    LamportsPaymentParams {
        secret_hash: s.secret_hash,
        lock_time: LOCK_TIME,
        amount: AMOUNT,
        receiver: RECEIVER,
        rent_exemption_lamports: RENT,
        vault_bump_seed: s.vault_bump,
        vault_bump_seed_data: s.vault_data_bump,
    }
}

fn submit_payment(s: &Setup) -> SwapOutcome {
    SwapFunctions::lamports_payment(&PROGRAM_ID, &payment_ledger(s), payment_params(s)).unwrap()
}

/// The ledger as the claim operations see it after the payment's record
/// write: the data vault now owned by the engine and holding the record.
fn claim_ledger(s: &Setup, caller_key: [u8; 32], record_bytes: Vec<u8>, now: u64) -> LedgerView {
    LedgerView {
        caller: account(caller_key, true, ZERO),
        vault_data: account(s.vault_data, false, PROGRAM_ID),
        vault: account(s.vault, false, ZERO),
        vault_data_bytes: record_bytes,
        now,
    }
}

fn spend_params(s: &Setup, secret: [u8; 32]) -> ReceiverSpendParams {
    ReceiverSpendParams {
        secret,
        lock_time: LOCK_TIME,
        amount: AMOUNT,
        sender: SENDER,
        token_program: ZERO,
        vault_bump_seed: s.vault_bump,
        vault_bump_seed_data: s.vault_data_bump,
    }
}

fn refund_params(s: &Setup) -> SenderRefundParams {
    SenderRefundParams {
        secret_hash: s.secret_hash,
        lock_time: LOCK_TIME,
        amount: AMOUNT,
        receiver: RECEIVER,
        token_program: ZERO,
        vault_bump_seed: s.vault_bump,
        vault_bump_seed_data: s.vault_data_bump,
    }
}

#[test]
fn test_submit_payment() {
    let s = setup();
    let outcome = submit_payment(&s);
    assert_eq!(outcome.record.state, PaymentState::PaymentSent);
    assert_eq!(outcome.record.lock_time, LOCK_TIME);
    assert_eq!(
        outcome.record.payment_hash,
        payment_hash(&RECEIVER, &SENDER, &s.secret_hash, &ZERO, AMOUNT),
    );
    assert_eq!(
        outcome.movements,
        vec![Movement { from: SENDER, to: s.vault, amount: AMOUNT + RENT, asset: ZERO }],
    );
}

#[test]
fn test_receiver_spend() {
    let s = setup();
    let paid = submit_payment(&s);
    let ledger = claim_ledger(&s, RECEIVER, paid.record.pack(), 0);
    let spent = SwapFunctions::receiver_spend(&PROGRAM_ID, &ledger, spend_params(&s, SECRET))
        .unwrap();
    assert_eq!(spent.record.state, PaymentState::ReceiverSpent);
    assert_eq!(spent.record.payment_hash, paid.record.payment_hash);
    assert_eq!(spent.record.lock_time, LOCK_TIME);
    assert_eq!(
        spent.movements,
        vec![Movement { from: s.vault, to: RECEIVER, amount: AMOUNT, asset: ZERO }],
    );

    // A refund against the spent record is a lifecycle error, and a second
    // spend is too: the funds move at most once.
    let after = claim_ledger(&s, SENDER, spent.record.pack(), u64::MAX);
    let r = SwapFunctions::sender_refund(&PROGRAM_ID, &after, refund_params(&s));
    assert_eq!(r.unwrap_err(), SwapError::InvalidPaymentState);
    let again = claim_ledger(&s, RECEIVER, spent.record.pack(), 0);
    let r = SwapFunctions::receiver_spend(&PROGRAM_ID, &again, spend_params(&s, SECRET));
    assert_eq!(r.unwrap_err(), SwapError::InvalidPaymentState);
}

#[test]
fn test_sender_refund() {
    let s = setup();
    let paid = submit_payment(&s);

    // Too early: the commitment matches and the record says PaymentSent, but
    // the clock is short of the lock time.
    let early = claim_ledger(&s, SENDER, paid.record.pack(), 0);
    let r = SwapFunctions::sender_refund(&PROGRAM_ID, &early, refund_params(&s));
    assert_eq!(r.unwrap_err(), SwapError::WaitForLockTime);

    // At the lock time exactly, the refund goes through.
    let due = claim_ledger(&s, SENDER, paid.record.pack(), LOCK_TIME);
    let refunded = SwapFunctions::sender_refund(&PROGRAM_ID, &due, refund_params(&s)).unwrap();
    assert_eq!(refunded.record.state, PaymentState::SenderRefunded);
    assert_eq!(
        refunded.movements,
        vec![Movement { from: s.vault, to: SENDER, amount: AMOUNT, asset: ZERO }],
    );

    // A spend against the refunded record is a lifecycle error.
    let after = claim_ledger(&s, RECEIVER, refunded.record.pack(), 0);
    let r = SwapFunctions::receiver_spend(&PROGRAM_ID, &after, spend_params(&s, SECRET));
    assert_eq!(r.unwrap_err(), SwapError::InvalidPaymentState);
}

#[test]
fn spend_with_wrong_secret_is_a_commitment_mismatch() {
    let s = setup();
    let paid = submit_payment(&s);
    let ledger = claim_ledger(&s, RECEIVER, paid.record.pack(), 0);
    let r = SwapFunctions::receiver_spend(&PROGRAM_ID, &ledger, spend_params(&s, [5; 32]));
    assert_eq!(r.unwrap_err(), SwapError::InvalidPaymentHash);
}

#[test]
fn spend_by_the_wrong_receiver_is_a_commitment_mismatch() {
    let s = setup();
    let paid = submit_payment(&s);
    let ledger = claim_ledger(&s, [7; 32], paid.record.pack(), 0);
    let r = SwapFunctions::receiver_spend(&PROGRAM_ID, &ledger, spend_params(&s, SECRET));
    assert_eq!(r.unwrap_err(), SwapError::InvalidPaymentHash);
}

#[test]
fn payment_preconditions_are_checked_in_order() {
    let s = setup();

    let mut params = payment_params(&s);
    params.receiver = ZERO;
    let r = SwapFunctions::lamports_payment(&PROGRAM_ID, &payment_ledger(&s), params);
    assert_eq!(r.unwrap_err(), SwapError::ReceiverSetToDefault);

    let mut params = payment_params(&s);
    params.amount = 0;
    let r = SwapFunctions::lamports_payment(&PROGRAM_ID, &payment_ledger(&s), params);
    assert_eq!(r.unwrap_err(), SwapError::AmountZero);

    let mut ledger = payment_ledger(&s);
    ledger.caller.is_signer = false;
    let r = SwapFunctions::lamports_payment(&PROGRAM_ID, &ledger, payment_params(&s));
    assert_eq!(r.unwrap_err(), SwapError::SenderAccountNotSigner);

    let mut ledger = payment_ledger(&s);
    ledger.vault_data.is_writable = false;
    let r = SwapFunctions::lamports_payment(&PROGRAM_ID, &ledger, payment_params(&s));
    assert_eq!(r.unwrap_err(), SwapError::VaultPdaDataNotWritable);

    let mut ledger = payment_ledger(&s);
    ledger.vault.owner = [3; 32];
    let r = SwapFunctions::lamports_payment(&PROGRAM_ID, &ledger, payment_params(&s));
    assert_eq!(r.unwrap_err(), SwapError::VaultPdaProgramNotOwner);
}

#[test]
fn payment_rejects_a_vault_that_does_not_rederive() {
    let s = setup();

    let mut params = payment_params(&s);
    params.vault_bump_seed = params.vault_bump_seed.wrapping_sub(1);
    let r = SwapFunctions::lamports_payment(&PROGRAM_ID, &payment_ledger(&s), params);
    assert_eq!(r.unwrap_err(), SwapError::InvalidVaultDerivation);

    let mut ledger = payment_ledger(&s);
    ledger.vault_data.key = [8; 32];
    let r = SwapFunctions::lamports_payment(&PROGRAM_ID, &ledger, payment_params(&s));
    assert_eq!(r.unwrap_err(), SwapError::InvalidVaultDerivation);
}

#[test]
fn claims_reject_a_data_vault_the_engine_does_not_own() {
    let s = setup();
    let paid = submit_payment(&s);
    let mut ledger = claim_ledger(&s, RECEIVER, paid.record.pack(), 0);
    ledger.vault_data.owner = ZERO;
    let r = SwapFunctions::receiver_spend(&PROGRAM_ID, &ledger, spend_params(&s, SECRET));
    assert_eq!(r.unwrap_err(), SwapError::InvalidOwner);
}

#[test]
fn claims_reject_an_undecodable_record() {
    let s = setup();
    let ledger = claim_ledger(&s, RECEIVER, vec![0u8; 40], 0);
    let r = SwapFunctions::receiver_spend(&PROGRAM_ID, &ledger, spend_params(&s, SECRET));
    assert_eq!(r.unwrap_err(), SwapError::InvalidInputLength);
}

#[test]
fn token_payment_funds_storage_and_moves_the_token() {
    let s = setup();
    let token: [u8; 32] = [6; 32];
    let params = SPLTokenPaymentParams {
        secret_hash: s.secret_hash,
        lock_time: LOCK_TIME,
        amount: AMOUNT,
        receiver: RECEIVER,
        token_program: token,
        rent_exemption_lamports: RENT,
        vault_bump_seed: s.vault_bump,
        vault_bump_seed_data: s.vault_data_bump,
    };
    let outcome =
        SwapFunctions::spl_token_payment(&PROGRAM_ID, &payment_ledger(&s), params).unwrap();
    assert_eq!(outcome.record.state, PaymentState::PaymentSent);
    assert_eq!(
        outcome.record.payment_hash,
        payment_hash(&RECEIVER, &SENDER, &s.secret_hash, &token, AMOUNT),
    );
    assert_eq!(
        outcome.movements,
        vec![
            Movement { from: SENDER, to: s.vault, amount: RENT, asset: ZERO },
            Movement { from: SENDER, to: s.vault, amount: AMOUNT, asset: token },
        ],
    );
}

#[test]
fn process_instruction_dispatches_on_the_tag() {
    let s = setup();
    let instruction = AtomicSwapInstruction::LamportsPayment {
        secret_hash: s.secret_hash,
        lock_time: LOCK_TIME,
        amount: AMOUNT,
        receiver: RECEIVER,
        rent_exemption_lamports: RENT,
        vault_bump_seed: s.vault_bump,
        vault_bump_seed_data: s.vault_data_bump,
    };
    let data = instruction.pack();
    let outcome = process_instruction(&PROGRAM_ID, &payment_ledger(&s), &data).unwrap();
    let direct = submit_payment(&s);
    assert_eq!(outcome.record, direct.record);
    assert_eq!(outcome.movements, direct.movements);
}

#[test]
fn process_instruction_rejects_an_empty_buffer() {
    let s = setup();
    let r = process_instruction(&PROGRAM_ID, &payment_ledger(&s), &[]);
    assert_eq!(r.unwrap_err(), SwapError::InvalidInputLength);
}
