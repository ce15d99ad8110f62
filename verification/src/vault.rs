//! Deterministic custody-address verification.
//!
//! Each swap has two custody slots: the funds vault (role tag `swap`) and the
//! data vault (role tag `swap_data`). Their addresses derive from the role
//! tag, the lock time, the secret hash and a caller-supplied disambiguation
//! byte. The caller searches for a working byte off-engine; the engine only
//! re-derives and compares, and a mismatch is fatal to the operation.

use vstd::prelude::*;
use crate::wire::bytes32_eq;

verus! {

/// The address the ledger derives for seed slices
/// `[tag, lock_time (LE), secret_hash, [bump]]` under a program identity, or
/// nothing when that derivation fails (a small fraction of bump bytes yields
/// no usable address). Deterministic: a function of the arguments alone.
pub uninterp spec fn vault_address(
    tag: Seq<u8>,
    lock_time: u64,
    secret_hash: Seq<u8>,
    bump: u8,
    program_id: Seq<u8>,
) -> Option<Seq<u8>>;

/// Relies on `solana_program::pubkey::Pubkey::create_program_address`:
/// a deterministic derivation from the seed slices and the program identity
/// that fails exactly when the candidate lands on the ed25519 curve (our four
/// seeds are always short enough and few enough for its length checks).
#[verifier::external_body]
fn derive_vault_address(
    tag: &[u8],
    lock_time: u64,
    secret_hash: &[u8; 32],
    bump: u8,
    program_id: &[u8; 32],
) -> (r: Option<[u8; 32]>)
    ensures
        match r {
            Some(k) => vault_address(tag@, lock_time, secret_hash@, bump, program_id@)
                == Some(k@),
            None => vault_address(tag@, lock_time, secret_hash@, bump, program_id@)
                is None,
        },
{
    let seeds: &[&[u8]] = &[tag, &lock_time.to_le_bytes(), secret_hash, &[bump]];
    let program = solana_program::pubkey::Pubkey::new_from_array(*program_id);
    match solana_program::pubkey::Pubkey::create_program_address(seeds, &program) {
        Ok(key) => Some(key.to_bytes()),
        Err(_) => None,
    }
}

/// The funds-vault role tag, the bytes of `swap`.
pub open spec fn swap_tag_bytes() -> Seq<u8> {
    seq![115u8, 119u8, 97u8, 112u8]
}

/// The data-vault role tag, the bytes of `swap_data`.
pub open spec fn swap_data_tag_bytes() -> Seq<u8> {
    seq![115u8, 119u8, 97u8, 112u8, 95u8, 100u8, 97u8, 116u8, 97u8]
}

/// The funds-vault role tag, as a value.
pub fn swap_tag() -> (r: Vec<u8>)
    ensures
        r@ == swap_tag_bytes(),
{
    let mut v: Vec<u8> = Vec::new();
    v.push(115);
    v.push(119);
    v.push(97);
    v.push(112);
    proof {
        assert(v@ =~= swap_tag_bytes());
    }
    v
}

/// The data-vault role tag, as a value.
pub fn swap_data_tag() -> (r: Vec<u8>)
    ensures
        r@ == swap_data_tag_bytes(),
{
    let mut v: Vec<u8> = Vec::new();
    v.push(115);
    v.push(119);
    v.push(97);
    v.push(112);
    v.push(95);
    v.push(100);
    v.push(97);
    v.push(116);
    v.push(97);
    proof {
        assert(v@ =~= swap_data_tag_bytes());
    }
    v
}

/// Whether a caller-supplied custody address re-derives from the given role
/// tag, swap parameters and disambiguation byte under this engine's identity.
pub fn verify_vault(
    candidate: &[u8; 32],
    tag: &[u8],
    lock_time: u64,
    secret_hash: &[u8; 32],
    bump: u8,
    program_id: &[u8; 32],
) -> (r: bool)
    ensures
        r == (vault_address(tag@, lock_time, secret_hash@, bump, program_id@)
            == Some(candidate@)),
{
    match derive_vault_address(tag, lock_time, secret_hash, bump, program_id) {
        Some(derived) => bytes32_eq(&derived, candidate),
        None => false,
    }
}

} // verus!
