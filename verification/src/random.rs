//! Random choice, as the `rand` crate makes it.

use rand::seq::IndexedRandom;
use vstd::prelude::*;

verus! {

/// Calls `IndexedRandom::choose` of `rand` on the slice, with the generator
/// of the current thread (`rand::rng()`). It returns `None` for an empty
/// slice and otherwise a reference to one of the slice's elements, picked at
/// random. Which element comes back differs from call to call, so the
/// contract says only that it is one of them.
///
/// The generator of a thread is seeded from the operating system when the
/// thread first asks for it, and again from time to time. `rand` panics
/// where the system gives no seed; no argument makes it do so.
#[verifier::external_body]
pub(crate) fn pick_one<T>(items: &[T]) -> (picked: Option<&T>)
    ensures
        items@.len() == 0 ==> picked is None,
        items@.len() > 0 ==> picked is Some,
        picked matches Some(item) ==> items@.contains(*item),
{
    items.choose(&mut rand::rng())
}

} // verus!
