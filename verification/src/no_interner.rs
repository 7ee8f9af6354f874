//! The fallback that keeps a copy of every string.

use vstd::prelude::*;

use crate::format::{quoted, took_last, write_quoted, written};
use crate::hand_on::hash_value;
use crate::interner::Interner;
use crate::text::text_order;

verus! {

/// The key of [`NoInterner`]: a `Box<str>` of its own, compared by its characters.
///
/// It is a type of its own since Verus knows no contract for `==` on `Box<str>`.
pub struct BoxedText(Box<str>);

impl View for BoxedText {
    type V = Seq<char>;

    closed spec fn view(&self) -> Seq<char> {
        self.0@
    }
}

/// As a `Box<str>` does, a key gives access to its text.
impl std::ops::Deref for BoxedText {
    type Target = str;

    fn deref(&self) -> (s: &str)
        ensures
            s@ == self@,
    {
        &self.0
    }
}

impl Clone for BoxedText {
    fn clone(&self) -> (copy: Self)
        ensures
            copy@ == self@,
    {
        BoxedText(self.0.clone())
    }
}

impl PartialEq for BoxedText {
    fn eq(&self, other: &Self) -> (same: bool) {
        *self.0 == *other.0
    }
}

impl vstd::std_specs::cmp::PartialEqSpecImpl for BoxedText {
    open spec fn obeys_eq_spec() -> bool {
        true
    }

    open spec fn eq_spec(&self, other: &Self) -> bool {
        self@ == other@
    }
}

/// The key is hashed as its text is.
impl std::hash::Hash for BoxedText {
    fn hash<H: std::hash::Hasher>(&self, state: &mut H)
        ensures
            exists|text: &str, s: &mut H| #[trigger]
                call_ensures(hash_value::<str, H>, (text, s), ()) && text@ == self@ && *s == *old(
                    state,
                ) && *final(s) == *final(state),
    {
        let text: &str = &self.0;
        hash_value(text, state);
        assert(exists|s: &mut H| #[trigger]
            call_ensures(hash_value::<str, H>, (text, s), ()) && *s == *old(state) && *final(s)
                == *state);
        assert(has_resolved(state));
    }
}

/// The key is shown as its text, in quotes.
impl std::fmt::Debug for BoxedText {
    fn fmt(&self, f: &mut std::fmt::Formatter<'_>) -> (result: Result<(), std::fmt::Error>)
        ensures
            result is Ok ==> written(*final(f)) == written(*old(f)) + quoted(self@),
            result is Ok <==> took_last(*final(f)),
    {
        write_quoted(f, &self.0)
    }
}

impl Eq for BoxedText {

}

impl PartialOrd for BoxedText {
    fn partial_cmp(&self, other: &Self) -> (order: Option<std::cmp::Ordering>) {
        Some(self.cmp(other))
    }
}

impl vstd::std_specs::cmp::PartialOrdSpecImpl for BoxedText {
    open spec fn obeys_partial_cmp_spec() -> bool {
        true
    }

    open spec fn partial_cmp_spec(&self, other: &Self) -> Option<std::cmp::Ordering> {
        Some(text_order(self@, other@))
    }
}

/// Keys are ordered as their texts are.
impl Ord for BoxedText {
    /// `Ord::cmp` of `Box<str>`: the lexicographic order by bytes, which in UTF-8 is the order
    /// by characters.
    #[verifier::external_body]
    fn cmp(&self, other: &Self) -> (order: std::cmp::Ordering)
        ensures
            order == text_order(self@, other@),
    {
        self.0.cmp(&other.0)
    }
}

/// Non-interning fallback that allocates each string as a `Box<str>`.
///
/// No deduplication occurs. The [`Key`](Interner::Key) type owns its text,
/// making `Interned<NoInterner>` `Clone` but not `Copy`.
#[derive(Debug, Clone, Copy, Default, PartialEq, Eq)]
pub struct NoInterner;

impl Interner for NoInterner {
    type Key = BoxedText;

    open spec fn text(key: BoxedText) -> Option<Seq<char>> {
        Some(key@)
    }

    fn get_or_intern(s: &str) -> (key: BoxedText) {
        BoxedText(s.to_owned().into_boxed_str())
    }

    fn resolve(key: &BoxedText) -> (s: &str) {
        &key.0
    }
}

} // verus!
