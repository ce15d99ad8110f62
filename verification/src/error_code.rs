//! The stable numeric error taxonomy and the error type of the engine.
//!
//! Every rejection an operation can report carries one of these codes; the
//! surrounding ledger surfaces the number to its own caller.

use vstd::prelude::*;

verus! {

pub const INVALID_INPUT_LENGTH: u32 = 601;
pub const INVALID_SECRET_HASH: u32 = 602;
pub const INVALID_LOCK_TIME: u32 = 603;
pub const INVALID_AMOUNT: u32 = 604;
pub const INVALID_RECEIVER_PUBKEY: u32 = 605;
pub const INVALID_TOKEN_PROGRAM: u32 = 606;
pub const INVALID_SECRET: u32 = 607;
pub const INVALID_SENDER_PUBKEY: u32 = 608;
pub const INVALID_ATOMIC_SWAP_INSTRUCTION: u32 = 609;
pub const RECEIVER_SET_TO_DEFAULT: u32 = 610;
pub const AMOUNT_ZERO: u32 = 611;
pub const SWAP_ACCOUNT_NOT_FOUND: u32 = 612;
pub const INVALID_PAYMENT_HASH: u32 = 613;
pub const INVALID_PAYMENT_STATE: u32 = 614;
pub const NOT_SUPPORTED: u32 = 615;
pub const INVALID_OWNER: u32 = 616;
pub const WAIT_FOR_LOCK_TIME: u32 = 617;
pub const SENDER_ACCOUNT_NOT_SIGNER: u32 = 618;
pub const SENDER_ACCOUNT_NOT_WRITABLE: u32 = 619;
pub const VAULT_PDA_DATA_NOT_WRITABLE: u32 = 620;
pub const VAULT_PDA_NOT_WRITABLE: u32 = 621;
pub const VAULT_PDA_PROGRAM_NOT_OWNER: u32 = 622;
pub const INVALID_VAULT_DERIVATION: u32 = 623;
pub const UNKNOWN_PAYMENT_STATE: u32 = 624;

/// Why an operation was rejected. No state or value movement accompanies an
/// error: a rejected operation leaves the ledger exactly as it found it.
#[derive(Clone, Copy, Debug, PartialEq, Eq, Structural)]
pub enum SwapError {
    /// An instruction or record buffer does not have the exact length its
    /// layout demands.
    InvalidInputLength,
    /// The instruction tag byte names no operation.
    InvalidAtomicSwapInstruction,
    /// A payment addressed to the all-zero identity.
    ReceiverSetToDefault,
    /// A payment of zero value.
    AmountZero,
    /// The recomputed commitment does not match the stored record.
    InvalidPaymentHash,
    /// The record is not in the one state from which the transition may fire.
    InvalidPaymentState,
    /// The data vault is not owned by this engine.
    InvalidOwner,
    /// A refund attempted before the lock time has passed; retriable later.
    WaitForLockTime,
    /// The caller's account did not sign the operation.
    SenderAccountNotSigner,
    /// The caller's account cannot be written.
    SenderAccountNotWritable,
    /// The data vault cannot be written.
    VaultPdaDataNotWritable,
    /// The funds vault cannot be written.
    VaultPdaNotWritable,
    /// The funds vault is not owned by the ledger's native loader.
    VaultPdaProgramNotOwner,
    /// A caller-supplied vault identifier does not re-derive from the swap
    /// parameters and the disambiguation byte.
    InvalidVaultDerivation,
    /// A stored record carries a state byte outside the recognized values.
    UnknownPaymentState,
}

impl SwapError {
    /// The stable numeric code reported for this error.
    pub fn code(&self) -> (c: u32)
        ensures
            c == self.spec_code(),
    {
        match self {
            SwapError::InvalidInputLength => INVALID_INPUT_LENGTH,
            SwapError::InvalidAtomicSwapInstruction => INVALID_ATOMIC_SWAP_INSTRUCTION,
            SwapError::ReceiverSetToDefault => RECEIVER_SET_TO_DEFAULT,
            SwapError::AmountZero => AMOUNT_ZERO,
            SwapError::InvalidPaymentHash => INVALID_PAYMENT_HASH,
            SwapError::InvalidPaymentState => INVALID_PAYMENT_STATE,
            SwapError::InvalidOwner => INVALID_OWNER,
            SwapError::WaitForLockTime => WAIT_FOR_LOCK_TIME,
            SwapError::SenderAccountNotSigner => SENDER_ACCOUNT_NOT_SIGNER,
            SwapError::SenderAccountNotWritable => SENDER_ACCOUNT_NOT_WRITABLE,
            SwapError::VaultPdaDataNotWritable => VAULT_PDA_DATA_NOT_WRITABLE,
            SwapError::VaultPdaNotWritable => VAULT_PDA_NOT_WRITABLE,
            SwapError::VaultPdaProgramNotOwner => VAULT_PDA_PROGRAM_NOT_OWNER,
            SwapError::InvalidVaultDerivation => INVALID_VAULT_DERIVATION,
            SwapError::UnknownPaymentState => UNKNOWN_PAYMENT_STATE,
        }
    }

    /// The numeric code, as a specification-level function.
    pub open spec fn spec_code(&self) -> u32 {
        match self {
            SwapError::InvalidInputLength => INVALID_INPUT_LENGTH,
            SwapError::InvalidAtomicSwapInstruction => INVALID_ATOMIC_SWAP_INSTRUCTION,
            SwapError::ReceiverSetToDefault => RECEIVER_SET_TO_DEFAULT,
            SwapError::AmountZero => AMOUNT_ZERO,
            SwapError::InvalidPaymentHash => INVALID_PAYMENT_HASH,
            SwapError::InvalidPaymentState => INVALID_PAYMENT_STATE,
            SwapError::InvalidOwner => INVALID_OWNER,
            SwapError::WaitForLockTime => WAIT_FOR_LOCK_TIME,
            SwapError::SenderAccountNotSigner => SENDER_ACCOUNT_NOT_SIGNER,
            SwapError::SenderAccountNotWritable => SENDER_ACCOUNT_NOT_WRITABLE,
            SwapError::VaultPdaDataNotWritable => VAULT_PDA_DATA_NOT_WRITABLE,
            SwapError::VaultPdaNotWritable => VAULT_PDA_NOT_WRITABLE,
            SwapError::VaultPdaProgramNotOwner => VAULT_PDA_PROGRAM_NOT_OWNER,
            SwapError::InvalidVaultDerivation => INVALID_VAULT_DERIVATION,
            SwapError::UnknownPaymentState => UNKNOWN_PAYMENT_STATE,
        }
    }
}

} // verus!
