//! Calls of `std` that hand a value on to its own `Hash` or `Debug`.
//!
//! What such a call does is up to the type of the value. So a caller's contract says which value
//! it hands on, once: that the call here may have led from the state before to the state after.

use vstd::prelude::*;

use crate::format::took_last;

verus! {

/// `Hash::hash`: feeds `value` to the hasher. What it feeds is left unsaid: it is up to the type
/// of the value.
#[verifier::external_body]
pub fn hash_value<T: std::hash::Hash + ?Sized, H: std::hash::Hasher>(value: &T, state: &mut H) {
    value.hash(state);
}

/// `Formatter::debug_tuple` with one field: shows `field` under `name`, and answers whether
/// the place that it goes to took it. What is written is left unsaid: it is up to the `Debug`
/// of the field and to the options of the formatter.
#[verifier::external_body]
pub fn write_tuple<T: std::fmt::Debug>(
    f: &mut std::fmt::Formatter<'_>,
    name: &str,
    field: &T,
) -> (result: Result<(), std::fmt::Error>)
    ensures
        result is Ok <==> took_last(*final(f)),
{
    f.debug_tuple(name).field(field).finish()
}

} // verus!
