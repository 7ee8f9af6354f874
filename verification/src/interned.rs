//! Interned strings.

use vstd::prelude::*;
use vstd::std_specs::cmp::OrdSpec;

use crate::format::{took_last, write_text, written};
use crate::hand_on::{hash_value, write_tuple};
use crate::interner::{copies_keep_text, keys_compare_by_text, Interner};

verus! {

/// An interned string key parameterized by [`Interner`] type `I`.
///
/// With [`GlobalInterner`](crate::GlobalInterner), this is 4 bytes and `Copy`.
/// With [`NoInterner`](crate::NoInterner), this is a pointer and `Clone` only.
///
/// Its view is the string that it stands for.
pub struct Interned<I: Interner>(I::Key);

impl<I: Interner> View for Interned<I> {
    type V = Seq<char>;

    open spec fn view(&self) -> Seq<char> {
        I::text(self.key())->0
    }
}

impl<I: Interner> Interned<I> {
    /// The key that the interner gave to the string.
    pub closed spec fn key(&self) -> I::Key {
        self.0
    }

    /// The key is one that the interner handed out, and its keys behave as it promises.
    #[verifier::type_invariant]
    spec fn has_text(self) -> bool {
        &&& I::text(self.0) is Some
        &&& keys_compare_by_text::<I>()
        &&& copies_keep_text::<I>()
    }

    /// Intern a string, returning a new `Interned<I>`.
    pub fn intern(s: &str) -> (interned: Self)
        ensures
            call_ensures(I::get_or_intern, (s,), interned.key()),
            I::text(interned.key()) == Some(s@),
            interned@ == s@,
    {
        Interned(I::get_or_intern(s))
    }

    /// Resolve this interned key back to its original string.
    pub fn resolve(&self) -> (s: &str)
        ensures
            call_ensures(I::resolve, (&self.key(),), s),
            I::text(self.key()) == Some(s@),
            s@ == self@,
    {
        proof {
            use_type_invariant(self);
        }
        I::resolve(&self.0)
    }

    /// Get the interned string as a `&str`.
    pub fn as_str(&self) -> (s: &str)
        ensures
            call_ensures(I::resolve, (&self.key(),), s),
            I::text(self.key()) == Some(s@),
            s@ == self@,
    {
        self.resolve()
    }
}

impl<I: Interner> Clone for Interned<I> {
    fn clone(&self) -> (copy: Self)
        ensures
            cloned(self.key(), copy.key()),
            I::text(copy.key()) == I::text(self.key()),
            copy@ == self@,
    {
        proof {
            use_type_invariant(self);
        }
        let key = self.0.clone();
        assert(cloned(self.0, key));
        Interned(key)
    }
}

impl<I: Interner> Copy for Interned<I> where I::Key: Copy {

}

/// Comparing two interned strings compares their keys, and so the strings.
impl<I: Interner> PartialEq for Interned<I> {
    fn eq(&self, other: &Self) -> (same: bool)
        ensures
            call_ensures(I::Key::eq, (&self.key(), &other.key()), same),
    {
        proof {
            use_type_invariant(self);
            use_type_invariant(other);
        }
        self.0 == other.0
    }
}

impl<I: Interner> vstd::std_specs::cmp::PartialEqSpecImpl for Interned<I> {
    open spec fn obeys_eq_spec() -> bool {
        true
    }

    open spec fn eq_spec(&self, other: &Self) -> bool {
        self@ == other@
    }
}

impl<I: Interner> Eq for Interned<I> {

}

/// Any two interned strings are ordered, as `cmp` orders them.
impl<I: Interner> PartialOrd for Interned<I> {
    fn partial_cmp(&self, other: &Self) -> (order: Option<std::cmp::Ordering>)
        ensures
            order is Some,
            call_ensures(I::Key::cmp, (&self.key(), &other.key()), order->0),
    {
        Some(self.cmp(other))
    }
}

impl<I: Interner> vstd::std_specs::cmp::PartialOrdSpecImpl for Interned<I> {
    open spec fn obeys_partial_cmp_spec() -> bool {
        I::Key::obeys_cmp_spec()
    }

    open spec fn partial_cmp_spec(&self, other: &Self) -> Option<std::cmp::Ordering> {
        Some(self.key().cmp_spec(&other.key()))
    }
}

/// Interned strings are ordered by their keys, not by the strings.
impl<I: Interner> Ord for Interned<I> {
    /// `Ord::cmp` of the keys: the answer is the one that comparing the keys gives, as it is.
    /// It is not proved, since Verus holds a `cmp` to a spec function that it has no way to
    /// know for this type.
    #[verifier::external_body]
    fn cmp(&self, other: &Self) -> (order: std::cmp::Ordering)
        ensures
            call_ensures(I::Key::cmp, (&self.key(), &other.key()), order),
    {
        self.0.cmp(&other.0)
    }
}

/// An interned string is hashed by its key, and by nothing else.
impl<I: Interner> std::hash::Hash for Interned<I> {
    fn hash<H: std::hash::Hasher>(&self, state: &mut H)
        ensures
            exists|s: &mut H| #[trigger]
                call_ensures(hash_value::<I::Key, H>, (&self.key(), s), ()) && *s == *old(state)
                    && *final(s) == *final(state),
    {
        hash_value(&self.0, state);
        assert(exists|s: &mut H| #[trigger]
            call_ensures(hash_value::<I::Key, H>, (&self.0, s), ()) && *s == *old(state)
                && *final(s) == *state);
        assert(has_resolved(state));
        assert(self.key() == self.0);
    }
}

/// An interned string is shown as its key, under the name `Interned`.
impl<I: Interner> std::fmt::Debug for Interned<I> {
    fn fmt(&self, f: &mut std::fmt::Formatter<'_>) -> (result: Result<(), std::fmt::Error>)
        ensures
            result is Ok <==> took_last(*final(f)),
            exists|g: &mut std::fmt::Formatter<'_>| #[trigger]
                call_ensures(write_tuple::<I::Key>, (g, "Interned", &self.key()), result) && *g
                    == *old(f) && *final(g) == *final(f),
    {
        let result = write_tuple(f, "Interned", &self.0);
        assert(exists|g: &mut std::fmt::Formatter<'_>| #[trigger]
            call_ensures(write_tuple::<I::Key>, (g, "Interned", &self.0), result) && *g == *old(f)
                && *final(g) == *f);
        assert(has_resolved(f));
        assert(self.key() == self.0);
        result
    }
}

impl<I: Interner> std::ops::Deref for Interned<I> {
    type Target = str;

    fn deref(&self) -> (s: &str)
        ensures
            call_ensures(I::resolve, (&self.key(),), s),
            I::text(self.key()) == Some(s@),
            s@ == self@,
    {
        self.resolve()
    }
}

impl<I: Interner> AsRef<str> for Interned<I> {
    fn as_ref(&self) -> (s: &str)
        ensures
            call_ensures(I::resolve, (&self.key(),), s),
            I::text(self.key()) == Some(s@),
            s@ == self@,
    {
        self.resolve()
    }
}

impl<'a, I: Interner> From<&'a str> for Interned<I> {
    fn from(s: &'a str) -> (interned: Self)
        ensures
            call_ensures(I::get_or_intern, (s,), interned.key()),
            I::text(interned.key()) == Some(s@),
            interned@ == s@,
    {
        Self::intern(s)
    }
}

/// Which key a string gets is up to the interner, so no one value is promised for a string.
impl<'a, I: Interner> vstd::std_specs::convert::FromSpecImpl<&'a str> for Interned<I> {
    open spec fn obeys_from_spec() -> bool {
        false
    }

    open spec fn from_spec(s: &'a str) -> Self {
        arbitrary()
    }
}

impl<I: Interner> From<String> for Interned<I> {
    fn from(s: String) -> (interned: Self)
        ensures
            exists|text: &str| text@ == s@ && #[trigger] call_ensures(
                I::get_or_intern,
                (text,),
                interned.key(),
            ),
            I::text(interned.key()) == Some(s@),
            interned@ == s@,
    {
        Self::intern(s.as_str())
    }
}

/// Which key a string gets is up to the interner, so no one value is promised for a string.
impl<I: Interner> vstd::std_specs::convert::FromSpecImpl<String> for Interned<I> {
    open spec fn obeys_from_spec() -> bool {
        false
    }

    open spec fn from_spec(s: String) -> Self {
        arbitrary()
    }
}

/// An interned string is displayed as its text.
impl<I: Interner> std::fmt::Display for Interned<I> {
    fn fmt(&self, f: &mut std::fmt::Formatter<'_>) -> (result: Result<(), std::fmt::Error>)
        ensures
            written(*final(f)) == written(*old(f)) + self@,
            result is Ok <==> took_last(*final(f)),
    {
        write_text(f, self.resolve())
    }
}

impl<I: Interner> PartialEq<str> for Interned<I> {
    fn eq(&self, other: &str) -> (same: bool) {
        *self.resolve() == *other
    }
}

impl<I: Interner> vstd::std_specs::cmp::PartialEqSpecImpl<str> for Interned<I> {
    open spec fn obeys_eq_spec() -> bool {
        true
    }

    open spec fn eq_spec(&self, other: &str) -> bool {
        self@ == other@
    }
}

impl<'a, I: Interner> PartialEq<&'a str> for Interned<I> {
    fn eq(&self, other: &&'a str) -> (same: bool) {
        *self.resolve() == **other
    }
}

impl<'a, I: Interner> vstd::std_specs::cmp::PartialEqSpecImpl<&'a str> for Interned<I> {
    open spec fn obeys_eq_spec() -> bool {
        true
    }

    open spec fn eq_spec(&self, other: &&'a str) -> bool {
        self@ == other@
    }
}

impl<I: Interner> PartialEq<Interned<I>> for str {
    fn eq(&self, other: &Interned<I>) -> (same: bool) {
        *self == *other.resolve()
    }
}

impl<I: Interner> vstd::std_specs::cmp::PartialEqSpecImpl<Interned<I>> for str {
    open spec fn obeys_eq_spec() -> bool {
        true
    }

    open spec fn eq_spec(&self, other: &Interned<I>) -> bool {
        self@ == other@
    }
}

impl<'a, I: Interner> PartialEq<Interned<I>> for &'a str {
    fn eq(&self, other: &Interned<I>) -> (same: bool) {
        **self == *other.resolve()
    }
}

impl<'a, I: Interner> vstd::std_specs::cmp::PartialEqSpecImpl<Interned<I>> for &'a str {
    open spec fn obeys_eq_spec() -> bool {
        true
    }

    open spec fn eq_spec(&self, other: &Interned<I>) -> bool {
        self@ == other@
    }
}

} // verus!
