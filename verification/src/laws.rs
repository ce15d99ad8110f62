//! The release discipline of the state machine, stated once and proved from
//! the operations' own specifications: a claim fires only from
//! `PaymentSent`, a claim leaves a terminal record, a terminal record rejects
//! every further claim, a wrong secret is rejected as a commitment mismatch,
//! and a reclaim before the lock time is rejected as a timing error.

use vstd::prelude::*;
use crate::commitment::{commitment_of, sha256_of};
use crate::error_code::SwapError;
use crate::instruction::SwapInstructionModel;
use crate::ledger::{LedgerView, MovementModel};
use crate::payment::{
    lemma_record_round_trip, spec_record_bytes, spec_unpack_record, PaymentModel, PaymentState,
};
use crate::swap_functions::{spec_receiver_spend, spec_sender_refund, spec_validate_accounts};

verus! {

/// A claim succeeds only against a record that still says `PaymentSent`, and
/// the record it persists is the matching terminal state. Together with
/// every operation returning its movements only on success, this is the
/// forward-only lifecycle: no transition fires twice and none skips
/// `PaymentSent`.
pub proof fn lemma_claim_requires_sent(
    program_id: Seq<u8>,
    l: LedgerView,
    m: SwapInstructionModel,
)
    ensures
        spec_receiver_spend(program_id, l, m) matches Ok(o) ==> {
            &&& spec_unpack_record(l.vault_data_bytes@) matches Ok(rec)
                && rec.state == PaymentState::PaymentSent
                && o.0.payment_hash == rec.payment_hash
                && o.0.lock_time == rec.lock_time
            &&& o.0.state == PaymentState::ReceiverSpent
        },
        spec_sender_refund(program_id, l, m) matches Ok(o) ==> {
            &&& spec_unpack_record(l.vault_data_bytes@) matches Ok(rec)
                && rec.state == PaymentState::PaymentSent
                && o.0.payment_hash == rec.payment_hash
                && o.0.lock_time == rec.lock_time
            &&& o.0.state == PaymentState::SenderRefunded
        },
{
}

/// A record no longer in `PaymentSent` rejects every claim, under any
/// parameters whatsoever: a double spend, a double refund, a spend after a
/// refund and a refund after a spend all fail, and a failed operation moves
/// no funds.
pub proof fn lemma_terminal_record_rejects(
    program_id: Seq<u8>,
    l: LedgerView,
    m: SwapInstructionModel,
)
    requires
        spec_unpack_record(l.vault_data_bytes@) matches Ok(rec)
            && rec.state != PaymentState::PaymentSent,
    ensures
        spec_receiver_spend(program_id, l, m) is Err,
        spec_sender_refund(program_id, l, m) is Err,
{
}

/// Exactly-once release: once one claim has succeeded and its record has
/// been persisted, every further claim against that record fails — whoever
/// makes it, under whatever parameters, and under either engine identity.
pub proof fn lemma_single_claim(
    program_id1: Seq<u8>,
    l1: LedgerView,
    m1: SwapInstructionModel,
    program_id2: Seq<u8>,
    l2: LedgerView,
    m2: SwapInstructionModel,
)
    requires
        spec_receiver_spend(program_id1, l1, m1) is Ok
            || spec_sender_refund(program_id1, l1, m1) is Ok,
        l2.vault_data_bytes@ == spec_record_bytes(
            if spec_receiver_spend(program_id1, l1, m1) is Ok {
                spec_receiver_spend(program_id1, l1, m1)->Ok_0.0
            } else {
                spec_sender_refund(program_id1, l1, m1)->Ok_0.0
            },
        ),
    ensures
        spec_receiver_spend(program_id2, l2, m2) is Err,
        spec_sender_refund(program_id2, l2, m2) is Err,
{
    let first = if spec_receiver_spend(program_id1, l1, m1) is Ok {
        spec_receiver_spend(program_id1, l1, m1)->Ok_0.0
    } else {
        spec_sender_refund(program_id1, l1, m1)->Ok_0.0
    };
    lemma_claim_requires_sent(program_id1, l1, m1);
    let rec1 = spec_unpack_record(l1.vault_data_bytes@)->Ok_0;
    assert(first.payment_hash == rec1.payment_hash);
    assert(rec1.payment_hash.len() == 32);
    assert(first.wf());
    lemma_record_round_trip(first);
    assert(spec_unpack_record(l2.vault_data_bytes@) == Ok::<PaymentModel, SwapError>(first));
    assert(first.state != PaymentState::PaymentSent);
    lemma_terminal_record_rejects(program_id2, l2, m2);
}

/// Secret gating: a spend whose disclosed secret does not recommit to the
/// stored commitment is rejected as a commitment mismatch, however plausible
/// every other parameter is.
pub proof fn lemma_secret_gating(
    program_id: Seq<u8>,
    l: LedgerView,
    m: SwapInstructionModel,
)
    requires
        spec_validate_accounts(l.caller, l.vault_data, l.vault) is None,
        l.vault_data.owner@ == program_id,
        spec_unpack_record(l.vault_data_bytes@) is Ok,
        m matches SwapInstructionModel::ReceiverSpend { secret, amount, sender, token_program, .. }
            && spec_unpack_record(l.vault_data_bytes@)->Ok_0.payment_hash
                != commitment_of(l.caller.key@, sender, sha256_of(secret), token_program, amount),
    ensures
        spec_receiver_spend(program_id, l, m)
            == Err::<(PaymentModel, Seq<MovementModel>), SwapError>(SwapError::InvalidPaymentHash),
{
}

/// Lock-time gating: a reclaim whose commitment matches a record still in
/// `PaymentSent` is rejected as a timing error exactly while the clock is
/// short of the record's lock time, and succeeds from the lock time on,
/// boundary included. The commitment and lifecycle checks stand before the
/// clock is consulted at all.
pub proof fn lemma_lock_time_gating(
    program_id: Seq<u8>,
    l: LedgerView,
    m: SwapInstructionModel,
)
    requires
        spec_validate_accounts(l.caller, l.vault_data, l.vault) is None,
        l.vault_data.owner@ == program_id,
        spec_unpack_record(l.vault_data_bytes@) matches Ok(rec)
            && rec.state == PaymentState::PaymentSent
            && (m matches SwapInstructionModel::SenderRefund {
                secret_hash, amount, receiver, token_program, ..
            } && rec.payment_hash
                == commitment_of(receiver, l.caller.key@, secret_hash, token_program, amount)),
    ensures
        l.now < spec_unpack_record(l.vault_data_bytes@)->Ok_0.lock_time
            ==> spec_sender_refund(program_id, l, m)
                == Err::<(PaymentModel, Seq<MovementModel>), SwapError>(SwapError::WaitForLockTime),
        l.now >= spec_unpack_record(l.vault_data_bytes@)->Ok_0.lock_time
            ==> spec_sender_refund(program_id, l, m) is Ok,
{
}

} // verus!
