//! Identity hasher: a deterministic 64-bit fingerprint of a path string,
//! used to give workspace tree entries stable identities within one session.
use vstd::prelude::*;
use vstd::string::StrSliceExecFns;

verus! {

/// Offset basis of the 64-bit FNV-1a hash.
pub const FNV_OFFSET: u64 = 0xcbf29ce484222325;

/// Prime multiplier of the 64-bit FNV-1a hash.
pub const FNV_PRIME: u64 = 0x100000001b3;

/// One FNV-1a round: fold one character into the running hash.
pub open spec fn hash_step(h: u64, c: char) -> u64 {
    (h ^ (c as u64)).wrapping_mul(FNV_PRIME)
}

/// The fingerprint of a character sequence: FNV-1a folded left to right.
pub open spec fn hash_chars(s: Seq<char>) -> u64
    decreases s.len(),
{
    if s.len() == 0 {
        FNV_OFFSET
    } else {
        hash_step(hash_chars(s.drop_last()), s.last())
    }
}

/// Deterministic fingerprint of a string; entries scanned from one folder all
/// derive their identities from this.
pub fn calculate_hash(value: &str) -> (h: u64)
    ensures
        h == hash_chars(value@),
{
    let n: usize = value.unicode_len();
    let mut h: u64 = FNV_OFFSET;
    let mut i: usize = 0;
    while i < n
        invariant
            n == value@.len(),
            i <= n,
            h == hash_chars(value@.take(i as int)),
        decreases n - i,
    {
        let c = value.get_char(i);
        h = (h ^ (c as u64)).wrapping_mul(FNV_PRIME);
        i = i + 1;
        proof {
            assert(value@.take(i as int).drop_last() =~= value@.take(i - 1));
            assert(value@.take(i as int).last() == value@[i - 1]);
        }
    }
    proof {
        assert(value@.take(n as int) =~= value@);
    }
    h
}

} // verus!
