//! Length-checked slice copying for `no_std` environments.
//!
//! Copies one slice into another with a length check that returns an error
//! instead of panicking when the slices differ in length.

use vstd::prelude::*;

verus! {

/// Copies all elements from `src` into `dest`, returning an error if the
/// slices are not the same length.
///
/// This function never panics. When the lengths match, the contents of
/// `src` are copied into `dest` and `Ok(())` is returned. When they differ,
/// `dest` is left unchanged and `Err(())` is returned.
#[allow(clippy::result_unit_err)]
pub fn checked_copy_from_slice<T: Copy>(dest: &mut [T], src: &[T]) -> (r: Result<(), ()>)
    ensures
        old(dest)@.len() != src@.len() ==> r == Err::<(), ()>(()) && final(dest)@ == old(dest)@,
        old(dest)@.len() == src@.len() ==> r == Ok::<(), ()>(()) && final(dest)@ == src@,
{
    if dest.len() != src.len() {
        return Err(());
    }
    let mut i: usize = 0;
    while i < src.len()
        invariant
            dest@.len() == src@.len(),
            i <= src@.len(),
            forall|j: int| 0 <= j < i ==> dest@[j] == src@[j],
        decreases src@.len() - i,
    {
        dest[i] = src[i];
        i = i + 1;
    }
    assert(dest@ =~= src@);
    Ok(())
}

} // verus!
