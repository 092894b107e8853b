//! Small verified helpers on byte slices and byte vectors.
//!
//! All wire data in this crate — the handshake payload, inbound messages,
//! registry labels and addresses, outbound URLs — is modeled as plain bytes.

use vstd::prelude::*;

verus! {

/// Appends every byte of `s` to `v`, in order.
pub fn append_bytes(v: &mut Vec<u8>, s: &[u8])
    ensures
        final(v)@ == old(v)@ + s@,
{
    let ghost orig = v@;
    let mut i: usize = 0;
    while i < s.len()
        invariant
            0 <= i <= s@.len(),
            v@ == orig + s@.subrange(0, i as int),
        decreases s@.len() - i,
    {
        let b = *vstd::slice::slice_index_get(s, i);
        v.push(b);
        i = i + 1;
        proof {
            assert(orig + s@.subrange(0, i - 1) + seq![s@[i - 1]] =~= orig + s@.subrange(
                0,
                i as int,
            ));
        }
    }
    proof {
        assert(orig + s@.subrange(0, s@.len() as int) =~= orig + s@);
    }
}

/// True exactly when the two slices hold the same bytes.
pub fn bytes_eq(a: &[u8], b: &[u8]) -> (r: bool)
    ensures
        r <==> a@ == b@,
{
    if a.len() != b.len() {
        proof {
            assert(a@ != b@);
        }
        return false;
    }
    let mut i: usize = 0;
    while i < a.len()
        invariant
            0 <= i <= a@.len(),
            a@.len() == b@.len(),
            forall|j: int| 0 <= j < i ==> a@[j] == b@[j],
        decreases a@.len() - i,
    {
        if *vstd::slice::slice_index_get(a, i) != *vstd::slice::slice_index_get(b, i) {
            proof {
                assert(a@[i as int] != b@[i as int]);
            }
            return false;
        }
        i = i + 1;
    }
    proof {
        assert(a@ =~= b@);
    }
    true
}

} // verus!
