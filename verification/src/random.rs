//! The draws that the game makes, taken from the `rand` crate.

use vstd::prelude::*;

verus! {

/// One item of `items`, picked by `rand::seq::SliceRandom::choose` with the
/// calling thread's generator, `rand::thread_rng`.
///
/// Believed of `choose`: on an empty slice it returns nothing, and on any
/// other a reference to one of the slice's items. Which one is left open.
/// The generator stops the program where the system gives it no seed; that
/// is not a matter of the arguments.
#[verifier::external_body]
pub(crate) fn pick<T>(items: &Vec<T>) -> (picked: Option<&T>)
    ensures
        picked is None <==> items@.len() == 0,
        picked matches Some(item) ==> items@.contains(*item),
{
    rand::seq::SliceRandom::choose(items.as_slice(), &mut rand::thread_rng())
}

/// One fair coin toss: `rand::Rng::gen` for a `bool`, with the calling
/// thread's generator, `rand::thread_rng`. Nothing is known of the outcome.
#[verifier::external_body]
pub(crate) fn toss() -> (heads: bool) {
    rand::Rng::gen(&mut rand::thread_rng())
}

} // verus!
