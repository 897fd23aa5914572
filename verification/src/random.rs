//! The source of randomness.

use crate::math::{Scalar, ONE_BITS};
use rand::Rng;
use rand::StdRng;
use vstd::prelude::*;

verus! {

/// `rand::StdRng`, which is handed on and not looked into.
#[verifier::external_type_specification]
#[verifier::external_body]
pub struct ExStdRng(rand::StdRng);

/// `rand::Rng::choose` on a `rand::StdRng`. Believed of it: it gives nothing
/// for an empty list and an element of the list otherwise. Which element is
/// left to chance, so nothing is said of that.
#[verifier::external_body]
pub(crate) fn choose_from<'a, T>(rng: &mut StdRng, values: &'a Vec<T>) -> (r: Option<&'a T>)
    ensures
        r.is_none() == (values@.len() == 0),
        r.is_some() ==> values@.contains(*r.unwrap()),
{
    rng.choose(values.as_slice())
}

/// `rand::Rng::next_f64` on a `rand::StdRng`, with the number handed on by
/// its encoding. Believed of it: the number is at least 0 and below 1, as
/// `rand` requires of every generator.
#[verifier::external_body]
pub(crate) fn next_scalar(rng: &mut StdRng) -> (r: Scalar)
    ensures
        r.spec_ge(Scalar { bits: 0 }),
        r.spec_lt(Scalar { bits: ONE_BITS }),
{
    Scalar { bits: rng.next_f64().to_bits() }
}

} // verus!
