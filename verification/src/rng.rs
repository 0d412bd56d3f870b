use vstd::prelude::*;

use rand::seq::SliceRandom;

verus! {

/// Relies on rand's `SliceRandom::choose` with the thread-local generator:
/// it returns `None` exactly when the slice is empty, and otherwise one
/// element of the slice, picked at a uniformly random index. Which element
/// comes back is random, so nothing more is promised.
#[verifier::external_body]
pub(crate) fn choose_one<T: Copy>(items: &Vec<T>) -> (r: Option<T>)
    ensures
        r is None <==> items@.len() == 0,
        r matches Some(v) ==> items@.contains(v),
{
    items.as_slice().choose(&mut rand::thread_rng()).copied()
}

} // verus!
