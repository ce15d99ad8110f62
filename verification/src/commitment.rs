//! The payment commitment: one SHA-256 digest binding an escrow to its
//! release conditions.
//!
//! The digest covers receiver, sender, secret hash, asset class and amount,
//! in that fixed order and at fixed widths, so the committed preimage is
//! different for every distinct parameter set — in particular for swapped
//! receiver and sender roles.

use vstd::prelude::*;
use vstd::bytes::{spec_u64_to_le_bytes, u64_to_le_bytes};
use crate::wire::push_bytes;

verus! {

/// The SHA-256 digest of a byte sequence. What the digest is on given bytes
/// is known only by running the hash; the engine relies only on it being a
/// function of the input.
pub uninterp spec fn sha256_of(input: Seq<u8>) -> Seq<u8>;

/// Relies on `solana_program::hash::hash`: the SHA-256 digest of the input
/// bytes, 32 bytes long, a function of the input alone.
#[verifier::external_body]
fn sha256(input: &[u8]) -> (r: [u8; 32])
    ensures
        r@ == sha256_of(input@),
{
    solana_program::hash::hash(input).to_bytes()
}

/// The bytes the commitment digest is computed over: the five parameters at
/// fixed widths, in a fixed order.
pub open spec fn commitment_preimage(
    receiver: Seq<u8>,
    sender: Seq<u8>,
    secret_hash: Seq<u8>,
    asset: Seq<u8>,
    amount: u64,
) -> Seq<u8> {
    receiver + sender + secret_hash + asset + spec_u64_to_le_bytes(amount)
}

/// The commitment: the SHA-256 digest of the five parameters in their fixed
/// order. Deterministic and order-sensitive by construction.
pub open spec fn commitment_of(
    receiver: Seq<u8>,
    sender: Seq<u8>,
    secret_hash: Seq<u8>,
    asset: Seq<u8>,
    amount: u64,
) -> Seq<u8> {
    sha256_of(commitment_preimage(receiver, sender, secret_hash, asset, amount))
}

/// Hash a disclosed secret to the secret hash the commitment speaks of.
pub fn hash_secret(secret: &[u8; 32]) -> (r: [u8; 32])
    ensures
        r@ == sha256_of(secret@),
{
    sha256(secret.as_slice())
}

/// Compute the commitment for a swap's parameters. Pure: the result is a
/// function of the five arguments and of nothing else.
pub fn payment_hash(
    receiver: &[u8; 32],
    sender: &[u8; 32],
    secret_hash: &[u8; 32],
    token_program: &[u8; 32],
    amount: u64,
) -> (r: [u8; 32])
    ensures
        r@ == commitment_of(receiver@, sender@, secret_hash@, token_program@, amount),
{
    let mut preimage: Vec<u8> = Vec::new();
    push_bytes(&mut preimage, receiver.as_slice());
    push_bytes(&mut preimage, sender.as_slice());
    push_bytes(&mut preimage, secret_hash.as_slice());
    push_bytes(&mut preimage, token_program.as_slice());
    let mut amount_bytes = u64_to_le_bytes(amount);
    preimage.append(&mut amount_bytes);
    proof {
        assert(preimage@ =~= commitment_preimage(
            receiver@, sender@, secret_hash@, token_program@, amount,
        ));
    }
    sha256(preimage.as_slice())
}

/// Two parameter sets commit over the same preimage only if they are the
/// same set: every field sits at a fixed offset, so the preimage pins all
/// five parameters. A collision between distinct parameter sets would
/// therefore have to be a collision of SHA-256 itself.
pub proof fn lemma_commitment_preimage_injective(
    receiver1: Seq<u8>, sender1: Seq<u8>, secret_hash1: Seq<u8>, asset1: Seq<u8>, amount1: u64,
    receiver2: Seq<u8>, sender2: Seq<u8>, secret_hash2: Seq<u8>, asset2: Seq<u8>, amount2: u64,
)
    requires
        receiver1.len() == 32 && sender1.len() == 32 && secret_hash1.len() == 32 && asset1.len() == 32,
        receiver2.len() == 32 && sender2.len() == 32 && secret_hash2.len() == 32 && asset2.len() == 32,
        commitment_preimage(receiver1, sender1, secret_hash1, asset1, amount1)
            == commitment_preimage(receiver2, sender2, secret_hash2, asset2, amount2),
    ensures
        receiver1 == receiver2,
        sender1 == sender2,
        secret_hash1 == secret_hash2,
        asset1 == asset2,
        amount1 == amount2,
{
    vstd::bytes::lemma_auto_spec_u64_to_from_le_bytes();
    let p1 = commitment_preimage(receiver1, sender1, secret_hash1, asset1, amount1);
    let p2 = commitment_preimage(receiver2, sender2, secret_hash2, asset2, amount2);
    assert(p1.subrange(0, 32) =~= receiver1);
    assert(p1.subrange(32, 64) =~= sender1);
    assert(p1.subrange(64, 96) =~= secret_hash1);
    assert(p1.subrange(96, 128) =~= asset1);
    assert(p1.subrange(128, 136) =~= spec_u64_to_le_bytes(amount1));
    assert(p2.subrange(0, 32) =~= receiver2);
    assert(p2.subrange(32, 64) =~= sender2);
    assert(p2.subrange(64, 96) =~= secret_hash2);
    assert(p2.subrange(96, 128) =~= asset2);
    assert(p2.subrange(128, 136) =~= spec_u64_to_le_bytes(amount2));
    assert(spec_u64_to_le_bytes(amount1) == spec_u64_to_le_bytes(amount2));
}

/// The commitment is not symmetric in the two roles: swapping a distinct
/// receiver and sender changes the committed preimage.
pub proof fn lemma_commitment_role_asymmetry(
    receiver: Seq<u8>, sender: Seq<u8>, secret_hash: Seq<u8>, asset: Seq<u8>, amount: u64,
)
    requires
        receiver.len() == 32 && sender.len() == 32 && secret_hash.len() == 32 && asset.len() == 32,
        receiver != sender,
    ensures
        commitment_preimage(receiver, sender, secret_hash, asset, amount)
            != commitment_preimage(sender, receiver, secret_hash, asset, amount),
{
    if commitment_preimage(receiver, sender, secret_hash, asset, amount)
        == commitment_preimage(sender, receiver, secret_hash, asset, amount) {
        lemma_commitment_preimage_injective(
            receiver, sender, secret_hash, asset, amount,
            sender, receiver, secret_hash, asset, amount,
        );
    }
}

} // verus!
