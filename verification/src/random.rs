//! The randomness source for slug generation.

use vstd::prelude::*;

use rand::distr::{Alphanumeric, SampleString};

use crate::model::is_slug_char;

verus! {

/// Relies on `rand::distr::Alphanumeric::sample_string` with the
/// thread-local generator of `rand::rng`: it appends exactly `len` bytes,
/// each drawn uniformly from the ASCII alphabet `A-Z`, `a-z`, `0-9`, to an
/// empty string. Which characters come back depends on the generator, so
/// nothing more is stated of them. `rand::rng` panics only if the operating
/// system fails to seed the generator.
#[verifier::external_body]
pub(crate) fn random_alphanumeric_string(len: usize) -> (r: String)
    ensures
        r@.len() == len,
        forall|i: int| 0 <= i < r@.len() ==> is_slug_char(#[trigger] r@[i]),
{
    Alphanumeric.sample_string(&mut rand::rng(), len)
}

} // verus!
