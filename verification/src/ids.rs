use vstd::prelude::*;

verus! {

/// A 32-byte stable identity: a wallet address or the derived address
/// of a persisted record. The core never derives or interprets these
/// bytes; it only compares them and lays them into signed messages.
pub type Pubkey = [u8; 32];

/// Byte-for-byte equality of two identities.
pub fn id_eq(a: &Pubkey, b: &Pubkey) -> (r: bool)
    ensures
        r <==> a@ == b@,
{
    let mut i: usize = 0;
    while i < 32
        invariant
            0 <= i <= 32,
            forall|k: int| 0 <= k < i ==> a@[k] == b@[k],
        decreases 32 - i,
    {
        if a[i] != b[i] {
            return false;
        }
        i = i + 1;
    }
    proof {
        assert(a@ =~= b@);
    }
    true
}

} // verus!
