//! The interface that every interner offers.

use vstd::prelude::*;

verus! {

/// Interning strings into compact keys.
///
/// Implementations map strings to keys and resolve keys back to strings.
/// All methods are static, allowing the interner type to serve as a
/// configuration parameter without carrying runtime state.
pub trait Interner: Clone + Send + Sync + 'static {
    /// Key type returned by [`get_or_intern`](Self::get_or_intern).
    type Key: Clone + Eq + Ord + std::hash::Hash + Send + Sync + 'static + std::fmt::Debug;

    /// The string that was interned under `key`, or `None` for a key that no string has.
    ///
    /// An interner never forgets: the string of a key is the same whenever it is asked for.
    /// Each interner says for itself what its keys stand for.
    open spec fn text(key: Self::Key) -> Option<Seq<char>> {
        None
    }

    /// Intern `s`, returning a stable key.
    ///
    /// Comparing two keys that stand for strings compares the strings, and a copy of such a
    /// key stands for the same string.
    fn get_or_intern(s: &str) -> (key: Self::Key)
        ensures
            Self::text(key) == Some(s@),
            forall|a: Self::Key, b: Self::Key, same: bool|
                Self::text(a) is Some && Self::text(b) is Some && #[trigger] call_ensures(
                    <Self::Key as PartialEq>::eq,
                    (&a, &b),
                    same,
                ) ==> same == (Self::text(a) == Self::text(b)),
            forall|a: Self::Key, copy: Self::Key|
                Self::text(a) is Some && #[trigger] cloned(a, copy) ==> Self::text(copy)
                    == Self::text(a),
    ;

    /// Resolve `key` back to its original string.
    fn resolve(key: &Self::Key) -> (s: &str)
        requires
            Self::text(*key) is Some,
        ensures
            Self::text(*key) == Some(s@),
    ;
}

/// Whether comparing two keys of `I` that stand for strings compares the strings.
pub open spec fn keys_compare_by_text<I: Interner>() -> bool {
    forall|a: I::Key, b: I::Key, same: bool|
        I::text(a) is Some && I::text(b) is Some && #[trigger] call_ensures(
            <I::Key as PartialEq>::eq,
            (&a, &b),
            same,
        ) ==> same == (I::text(a) == I::text(b))
}

/// Whether a copy of a key of `I` that stands for a string stands for the same string.
pub open spec fn copies_keep_text<I: Interner>() -> bool {
    forall|a: I::Key, copy: I::Key|
        I::text(a) is Some && #[trigger] cloned(a, copy) ==> I::text(copy) == I::text(a)
}

} // verus!
