//! Engine for hash-time-locked atomic swaps: a sender escrows value for a
//! receiver, release requires the preimage of a committed secret hash, and an
//! expiry lets the sender reclaim the funds.
//!
//! The crate holds the protocol logic alone: the binary instruction codec, the
//! commitment scheme, custody-address verification, and the state machine that
//! enforces exactly-once release. Storage allocation, value transfer and clock
//! reading belong to the surrounding ledger, which the operations see only as
//! plain facts in a [`ledger::LedgerView`] and drive only through the
//! [`ledger::Movement`] requests they return.

pub mod commitment;
pub mod error_code;
pub mod instruction;
pub mod laws;
pub mod ledger;
pub mod payment;
pub mod swap_functions;
pub mod vault;
pub mod wire;
