//! Small verified helpers on byte vectors used throughout the protocol
//! layer.

use vstd::prelude::*;
use vstd::assert_seqs_equal;

verus! {

/// Appends every byte of `src` to the end of `dst`.
pub fn append_bytes(dst: &mut Vec<u8>, src: &Vec<u8>)
    ensures
        final(dst)@ == old(dst)@ + src@,
{
    proof {
        assert_seqs_equal!(dst@ == old(dst)@ + src@.subrange(0, 0));
    }
    let mut i: usize = 0;
    while i < src.len()
        invariant
            i <= src@.len(),
            dst@ == old(dst)@ + src@.subrange(0, i as int),
        decreases src@.len() - i,
    {
        dst.push(src[i]);
        i += 1;
        proof {
            assert_seqs_equal!(old(dst)@ + src@.subrange(0, i - 1) + seq![src@[i - 1]]
                == old(dst)@ + src@.subrange(0, i as int));
        }
    }
    proof {
        assert_seqs_equal!(old(dst)@ + src@.subrange(0, src@.len() as int) == old(dst)@ + src@);
    }
}

/// Whether `a` and `b` hold exactly the same bytes.
pub fn bytes_eq(a: &Vec<u8>, b: &Vec<u8>) -> (r: bool)
    ensures
        r == (a@ == b@),
{
    if a.len() != b.len() {
        return false;
    }
    let mut i: usize = 0;
    while i < a.len()
        invariant
            a@.len() == b@.len(),
            i <= a@.len(),
            forall|j: int| 0 <= j < i ==> a@[j] == b@[j],
        decreases a@.len() - i,
    {
        if a[i] != b[i] {
            return false;
        }
        i += 1;
    }
    proof {
        assert_seqs_equal!(a@ == b@);
    }
    true
}

} // verus!
