//! Byte-level helpers shared by the instruction and record codecs: appending
//! slices to a buffer, fixed 32-byte reads and comparisons, and the all-zero
//! identity that stands for both the native asset class and the ledger's
//! native loader.

use vstd::prelude::*;

verus! {

/// The all-zero 32-byte identity. It is the sentinel asset class for native
/// value and the owner of every account still held by the ledger itself.
pub open spec fn zero_bytes32() -> Seq<u8> {
    Seq::new(32, |i: int| 0u8)
}

/// The all-zero 32-byte identity, as a value.
pub fn zero_id() -> (r: [u8; 32])
    ensures
        r@ == zero_bytes32(),
{
    let r = [0u8; 32];
    proof {
        assert(r@ =~= zero_bytes32());
    }
    r
}

/// Append every byte of `s` to `v`, in order.
pub fn push_bytes(v: &mut Vec<u8>, s: &[u8])
    ensures
        final(v)@ == old(v)@ + s@,
{
    let n = s.len();
    let mut i: usize = 0;
    proof {
        assert(old(v)@ + s@.subrange(0, 0) =~= old(v)@);
    }
    while i < n
        invariant
            n == s@.len(),
            i <= n,
            v@ == old(v)@ + s@.subrange(0, i as int),
        decreases n - i,
    {
        let b = s[i];
        v.push(b);
        proof {
            assert(s@.subrange(0, i + 1) =~= s@.subrange(0, i as int).push(s@[i as int]));
            assert(v@ =~= old(v)@ + s@.subrange(0, i + 1));
        }
        i = i + 1;
    }
    proof {
        assert(old(v)@ + s@.subrange(0, n as int) =~= old(v)@ + s@);
    }
}

/// Copy the 32 bytes of `s` that start at `off` into an array.
pub fn read_bytes32(s: &[u8], off: usize) -> (r: [u8; 32])
    requires
        off + 32 <= s@.len(),
    ensures
        r@ == s@.subrange(off as int, off as int + 32),
{
    let n = s.len();
    let mut out = [0u8; 32];
    let mut i: usize = 0;
    while i < 32
        invariant
            n == s@.len(),
            off + 32 <= n,
            i <= 32,
            forall|j: int| 0 <= j < i ==> out@[j] == s@[off + j],
        decreases 32 - i,
    {
        out[i] = s[off + i];
        i = i + 1;
    }
    proof {
        assert(out@ =~= s@.subrange(off as int, off as int + 32));
    }
    out
}

/// Whether two 32-byte values are equal.
pub fn bytes32_eq(a: &[u8; 32], b: &[u8; 32]) -> (r: bool)
    ensures
        r == (a@ == b@),
{
    let mut i: usize = 0;
    while i < 32
        invariant
            i <= 32,
            forall|j: int| 0 <= j < i ==> a@[j] == b@[j],
        decreases 32 - i,
    {
        if a[i] != b[i] {
            return false;
        }
        i = i + 1;
    }
    proof {
        assert(a@ =~= b@);
    }
    true
}

/// Whether a 32-byte value is the all-zero identity.
pub fn is_zero32(a: &[u8; 32]) -> (r: bool)
    ensures
        r == (a@ == zero_bytes32()),
{
    let mut i: usize = 0;
    while i < 32
        invariant
            i <= 32,
            forall|j: int| 0 <= j < i ==> a@[j] == 0u8,
        decreases 32 - i,
    {
        if a[i] != 0 {
            return false;
        }
        i = i + 1;
    }
    proof {
        assert(a@ =~= zero_bytes32());
    }
    true
}

} // verus!
