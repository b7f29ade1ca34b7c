//! Software baselines measured beside the accelerators.

use vstd::prelude::*;

verus! {

/// `<[u8]>::copy_from_slice`: its documentation says it copies all of
/// `src` into `dst`, and panics unless the two have the same length.
#[verifier::external_body]
fn copy_bytes(dst: &mut [u8], src: &[u8])
    requires
        old(dst)@.len() == src@.len(),
    ensures
        final(dst)@ == src@,
{
    dst.copy_from_slice(src);
}

/// Copies `src` to the front of `dst`; the rest of `dst` is left as it was.
pub fn sw_memcpy(dst: &mut [u8], src: &[u8])
    requires
        src@.len() <= old(dst)@.len(),
    ensures
        final(dst)@ == src@ + old(dst)@.subrange(src@.len() as int, old(dst)@.len() as int),
{
    let (head, _tail) = dst.split_at_mut(src.len());
    copy_bytes(head, src);
}

} // verus!
