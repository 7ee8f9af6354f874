//! What the library takes from `std` about text.
//!
//! Each item gives a contract to one function of `std`; the contract is taken on trust and
//! says what the documentation of that function says.

use std::cmp::Ordering;

use vstd::prelude::*;

verus! {

/// `==` on `str`: two strings are equal exactly when they hold the same characters.
pub assume_specification[ <str as PartialEq>::eq ](a: &str, b: &str) -> (same: bool)
    ensures
        same == (a@ == b@),
;

/// `Clone` of a boxed string: the copy holds the same characters.
pub assume_specification[ <Box<str> as Clone>::clone ](text: &Box<str>) -> (copy: Box<str>)
    ensures
        copy@ == text@,
;

/// `String::into_boxed_str`: drops the spare capacity and keeps the characters.
pub assume_specification[ String::into_boxed_str ](text: String) -> (boxed: Box<str>)
    ensures
        boxed@ == text@,
;

/// `Box::leak`: gives up the box and hands out its contents, which are then never freed.
#[verifier::external_body]
pub(crate) fn leak(text: Box<str>) -> (leaked: &'static str)
    ensures
        leaked@ == text@,
{
    Box::leak(text)
}

/// The order of texts: by the first character in which they differ, and a text that the other
/// continues comes first.
pub open spec fn text_order(a: Seq<char>, b: Seq<char>) -> Ordering
    decreases a.len(),
{
    if a.len() == 0 && b.len() == 0 {
        Ordering::Equal
    } else if a.len() == 0 {
        Ordering::Less
    } else if b.len() == 0 {
        Ordering::Greater
    } else if a[0] < b[0] {
        Ordering::Less
    } else if a[0] > b[0] {
        Ordering::Greater
    } else {
        text_order(a.drop_first(), b.drop_first())
    }
}

} // verus!
