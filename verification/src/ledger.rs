//! What an operation sees of the ledger, and what it asks of it.
//!
//! The engine holds no state of its own: every operation is a function from
//! the facts in a [`LedgerView`] and an instruction to a [`SwapOutcome`] or
//! an error. The ledger applies the record write and the value movements of
//! an outcome atomically, as one unit with nothing in between; on an error it
//! applies nothing.

use vstd::prelude::*;
use crate::payment::Payment;

verus! {

/// The facts the ledger states about one account: its identity, whether it
/// signed the operation, whether it may be written, and who owns it.
#[derive(Clone, Copy, Debug)]
pub struct AccountView {
    pub key: [u8; 32],
    pub is_signer: bool,
    pub is_writable: bool,
    pub owner: [u8; 32],
}

/// Everything an operation reads from the ledger: the caller's account, the
/// two custody slots, the bytes stored in the data vault, and the clock.
#[derive(Debug)]
pub struct LedgerView {
    /// The account that signed the operation: the sender for payments and
    /// refunds, the receiver for spends.
    pub caller: AccountView,
    /// The data vault, holding the encoded swap record.
    pub vault_data: AccountView,
    /// The funds vault, holding the escrowed value.
    pub vault: AccountView,
    /// The current contents of the data vault's storage.
    pub vault_data_bytes: Vec<u8>,
    /// The ledger clock, as a Unix timestamp.
    pub now: u64,
}

/// One value movement the ledger must execute: `amount` units of `asset`
/// (the zero identity for native value) from `from` to `to`.
#[derive(Clone, Copy, Debug, PartialEq, Eq)]
pub struct Movement {
    pub from: [u8; 32],
    pub to: [u8; 32],
    pub amount: u64,
    pub asset: [u8; 32],
}

/// A movement as the specifications see it.
pub struct MovementModel {
    pub from: Seq<u8>,
    pub to: Seq<u8>,
    pub amount: u64,
    pub asset: Seq<u8>,
}

impl View for Movement {
    type V = MovementModel;

    open spec fn view(&self) -> MovementModel {
        MovementModel { from: self.from@, to: self.to@, amount: self.amount, asset: self.asset@ }
    }
}

/// The movements of a `Vec`, as models.
pub open spec fn movements_model(v: Seq<Movement>) -> Seq<MovementModel> {
    v.map_values(|m: Movement| m@)
}

/// What a successful operation asks the ledger to apply, atomically: write
/// the encoded record to the data vault, and execute the movements.
#[derive(Debug)]
pub struct SwapOutcome {
    pub record: Payment,
    pub movements: Vec<Movement>,
}

} // verus!
