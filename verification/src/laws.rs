//! What holds of the library across calls.
//!
//! `call_ensures(f, args, result)` says that `f` may return `result` when it is called with
//! `args`: each law holds of whatever the calls that it speaks of return, in any order and with
//! any other calls in between, on whichever threads they are made.

use std::cmp::Ordering;

use vstd::prelude::*;
use vstd::std_specs::cmp::{OrdSpec, PartialEqSpec};

use crate::global_interner::{symbol_number, symbol_text, GlobalInterner};
use crate::hand_on::{hash_value, write_tuple};
use crate::interned::Interned;
use crate::interner::Interner;
use crate::lasso_state::{
    id_for_spur, rodeo_intern, rodeo_memory_limit, rodeo_texts, rodeo_try_resolve, spur_index,
    ArenaExhausted, LassoState,
};
use crate::no_interner::{BoxedText, NoInterner};
use crate::state::{
    find_id, find_id_locked, held_lock, id_for_slot, kept_ids, shard_index, slot_text, slot_texts,
    text_hash, GlobalState, IdSpaceExhausted, ShardGuard,
};
use crate::text::text_order;

verus! {

/// Every interner gives back under a key the string that it was given for it.
pub proof fn interner_resolves_what_it_interned<I: Interner>(s: &str, key: I::Key, back: &str)
    requires
        call_ensures(I::get_or_intern, (s,), key),
        call_ensures(I::resolve, (&key,), back),
    ensures
        back@ == s@,
{
}

/// Resolving an interned string gives the string back that was interned.
pub proof fn resolve_undoes_intern<I: Interner>(s: &str, interned: Interned<I>, back: &str)
    requires
        call_ensures(Interned::<I>::intern, (s,), interned),
        call_ensures(Interned::<I>::resolve, (&interned,), back),
    ensures
        back@ == s@,
{
}

/// A key stands for one string for good: whenever it is resolved, the same string comes back.
pub proof fn keys_keep_their_string<I: Interner>(key: I::Key, before: &str, after: &str)
    requires
        call_ensures(I::resolve, (&key,), before),
        call_ensures(I::resolve, (&key,), after),
    ensures
        before@ == after@,
{
}

/// Every key of the fallback resolves, and interning what it resolves to gives its equal.
pub proof fn no_interner_round_trip(key: BoxedText, text: &str, again: BoxedText, same: bool)
    requires
        call_ensures(<NoInterner as Interner>::resolve, (&key,), text),
        call_ensures(<NoInterner as Interner>::get_or_intern, (text,), again),
        call_ensures(<BoxedText as PartialEq>::eq, (&again, &key), same),
    ensures
        forall|any: BoxedText| #[trigger]
            call_requires(<NoInterner as Interner>::resolve, (&any,)),
        text@ == key@,
        same,
{
}

/// Interning the string that an interned string stands for gives its equal.
pub proof fn intern_undoes_resolve<I: Interner>(
    interned: Interned<I>,
    text: &str,
    again: Interned<I>,
    same: bool,
)
    requires
        call_ensures(Interned::<I>::resolve, (&interned,), text),
        call_ensures(Interned::<I>::intern, (text,), again),
        call_ensures(<Interned<I> as PartialEq>::eq, (&interned, &again), same),
    ensures
        same,
{
}

/// Two interned strings are equal exactly when the same string was interned.
pub proof fn equal_exactly_when_text_is_equal<I: Interner>(
    s: &str,
    t: &str,
    a: Interned<I>,
    b: Interned<I>,
    same: bool,
)
    requires
        call_ensures(Interned::<I>::intern, (s,), a),
        call_ensures(Interned::<I>::intern, (t,), b),
        call_ensures(<Interned<I> as PartialEq>::eq, (&a, &b), same),
    ensures
        same == (s@ == t@),
{
}

/// The process-wide interner gives one key to each string: the same string always gets the
/// same key, and another string gets another.
pub proof fn global_keys_are_stable(s: &str, t: &str, a: u32, b: u32)
    requires
        call_ensures(<GlobalInterner as Interner>::get_or_intern, (s,), a),
        call_ensures(<GlobalInterner as Interner>::get_or_intern, (t,), b),
    ensures
        a == b <==> s@ == t@,
{
    if s@ == t@ {
        crate::global_interner::one_key_per_text(a, b);
    }
}

/// A copy of an interned string is its equal.
pub proof fn clone_is_equal<I: Interner>(interned: Interned<I>, copy: Interned<I>, same: bool)
    requires
        call_ensures(<Interned<I> as Clone>::clone, (&interned,), copy),
        call_ensures(<Interned<I> as PartialEq>::eq, (&interned, &copy), same),
    ensures
        same,
{
}

/// Converting a string gives the equal of interning it.
pub proof fn conversion_is_interning<I: Interner>(
    s: &str,
    owned: String,
    interned: Interned<I>,
    from_str: Interned<I>,
    from_string: Interned<I>,
)
    requires
        s@ == owned@,
        call_ensures(Interned::<I>::intern, (s,), interned),
        call_ensures(<Interned<I> as From<&str>>::from, (s,), from_str),
        call_ensures(<Interned<I> as From<String>>::from, (owned,), from_string),
    ensures
        interned.eq_spec(&from_str),
        interned.eq_spec(&from_string),
{
}

/// An interned string compares with a `str` as the string that it stands for does, from
/// either side.
pub proof fn comparison_with_str_is_symmetric<I: Interner>(
    interned: Interned<I>,
    s: &str,
    left: bool,
    right: bool,
)
    requires
        call_ensures(<Interned<I> as PartialEq<str>>::eq, (&interned, s), left),
        call_ensures(<str as PartialEq<Interned<I>>>::eq, (s, &interned), right),
    ensures
        left == right,
        left == (interned@ == s@),
{
}

/// Whether comparing `a` with `b` for equality may give `same`.
pub open spec fn equality_gives<I: Interner>(a: Interned<I>, b: Interned<I>, same: bool) -> bool {
    call_ensures(<Interned<I> as PartialEq>::eq, (&a, &b), same)
}

/// Equal process-wide interned strings have one key, so they are hashed and shown alike: what
/// hashing or showing the key of one may do, hashing or showing the key of the other may do.
pub proof fn equal_global_strings_hash_and_show_alike<H: std::hash::Hasher>(
    s: &str,
    t: &str,
    a: Interned<GlobalInterner>,
    b: Interned<GlobalInterner>,
)
    requires
        call_ensures(Interned::<GlobalInterner>::intern, (s,), a),
        call_ensures(Interned::<GlobalInterner>::intern, (t,), b),
        equality_gives(a, b, true),
    ensures
        a.key() == b.key(),
        forall|state: &mut H|
            call_ensures(hash_value::<u32, H>, (&a.key(), state), ()) <==> #[trigger] call_ensures(
                hash_value::<u32, H>,
                (&b.key(), state),
                (),
            ),
        forall|f: &mut std::fmt::Formatter<'_>, result: Result<(), std::fmt::Error>|
            call_ensures(write_tuple::<u32>, (f, "Interned", &a.key()), result)
                <==> #[trigger] call_ensures(
                write_tuple::<u32>,
                (f, "Interned", &b.key()),
                result,
            ),
{
    crate::global_interner::one_key_per_text(a.key(), b.key());
}

/// The order of process-wide interned strings is total and in step with equality: none but
/// equal ones stand level, swapping two turns their order round, and it carries over from one
/// to the next.
pub proof fn global_order_is_total(
    s: &str,
    t: &str,
    a: Interned<GlobalInterner>,
    b: Interned<GlobalInterner>,
    c: Interned<GlobalInterner>,
    ab: Ordering,
    ba: Ordering,
    bc: Ordering,
    ac: Ordering,
)
    requires
        call_ensures(Interned::<GlobalInterner>::intern, (s,), a),
        call_ensures(Interned::<GlobalInterner>::intern, (t,), b),
        call_ensures(Interned::<GlobalInterner>::cmp, (&a, &b), ab),
        call_ensures(Interned::<GlobalInterner>::cmp, (&b, &a), ba),
        call_ensures(Interned::<GlobalInterner>::cmp, (&b, &c), bc),
        call_ensures(Interned::<GlobalInterner>::cmp, (&a, &c), ac),
    ensures
        ab == a.key().cmp_spec(&b.key()),
        ab == Ordering::Equal <==> s@ == t@,
        ab == Ordering::Less <==> ba == Ordering::Greater,
        ab == Ordering::Less && bc == Ordering::Less ==> ac == Ordering::Less,
{
    if a@ == b@ {
        crate::global_interner::one_key_per_text(a.key(), b.key());
    }
}

/// Whatever the interner, where the order of its keys is lawful so is that of its interned
/// strings: the order of two is that of their keys, it is total, and it is in step with
/// equality. `same` is what comparing `a` and `b` for equality gives.
pub proof fn lawful_keys_give_a_total_order<I: Interner>(
    a: Interned<I>,
    b: Interned<I>,
    c: Interned<I>,
    same: bool,
    ab: Ordering,
    ba: Ordering,
    bc: Ordering,
    ac: Ordering,
)
    requires
        vstd::laws_cmp::obeys_cmp::<I::Key>(),
        equality_gives(a, b, same),
        call_ensures(Interned::<I>::cmp, (&a, &b), ab),
        call_ensures(Interned::<I>::cmp, (&b, &a), ba),
        call_ensures(Interned::<I>::cmp, (&b, &c), bc),
        call_ensures(Interned::<I>::cmp, (&a, &c), ac),
    ensures
        ab == a.key().cmp_spec(&b.key()),
        ab == Ordering::Equal <==> same,
        ab == Ordering::Less <==> ba == Ordering::Greater,
        ab == Ordering::Less && bc == Ordering::Less ==> ac == Ordering::Less,
{
    reveal(vstd::laws_cmp::obeys_cmp_ord);
    reveal(vstd::laws_cmp::obeys_cmp_partial_ord);
    reveal(vstd::laws_cmp::obeys_partial_cmp_spec_properties);
}

/// Any two interned strings are ordered, whatever the interner: as their keys are.
pub proof fn any_two_are_ordered<I: Interner>(
    a: Interned<I>,
    b: Interned<I>,
    order: Option<Ordering>,
)
    requires
        call_ensures(Interned::<I>::partial_cmp, (&a, &b), order),
    ensures
        order matches Some(order) && call_ensures(I::Key::cmp, (&a.key(), &b.key()), order),
{
}

/// `partial_cmp` gives what `cmp` gives, for every interner whose keys are ordered by a settled
/// order.
pub proof fn partial_order_is_the_order<I: Interner>(
    a: Interned<I>,
    b: Interned<I>,
    partial: Option<Ordering>,
    order: Ordering,
)
    requires
        I::Key::obeys_cmp_spec(),
        call_ensures(Interned::<I>::partial_cmp, (&a, &b), partial),
        call_ensures(Interned::<I>::cmp, (&a, &b), order),
    ensures
        partial == Some(order),
{
}

/// Without an interner, interned strings are ordered as their texts are. That order is total
/// and in step with equality, and `partial_cmp` gives it too.
pub proof fn no_interner_order_is_that_of_the_text(
    a: Interned<NoInterner>,
    b: Interned<NoInterner>,
    c: Interned<NoInterner>,
    partial: Option<Ordering>,
    ab: Ordering,
    ba: Ordering,
    bc: Ordering,
    ac: Ordering,
)
    requires
        call_ensures(Interned::<NoInterner>::partial_cmp, (&a, &b), partial),
        call_ensures(Interned::<NoInterner>::cmp, (&a, &b), ab),
        call_ensures(Interned::<NoInterner>::cmp, (&b, &a), ba),
        call_ensures(Interned::<NoInterner>::cmp, (&b, &c), bc),
        call_ensures(Interned::<NoInterner>::cmp, (&a, &c), ac),
    ensures
        ab == text_order(a@, b@),
        partial == Some(ab),
        ab == Ordering::Equal <==> a.eq_spec(&b),
        ab == Ordering::Less <==> ba == Ordering::Greater,
        ab == Ordering::Less && bc == Ordering::Less ==> ac == Ordering::Less,
{
    text_order_is_total(a@, b@, c@);
}

/// The order of texts: none but equal texts stand level, swapping two turns their order
/// round, and it carries over from one to the next.
pub proof fn text_order_is_total(a: Seq<char>, b: Seq<char>, c: Seq<char>)
    ensures
        text_order(a, b) == Ordering::Equal <==> a == b,
        text_order(a, b) == Ordering::Less <==> text_order(b, a) == Ordering::Greater,
        text_order(a, b) == Ordering::Less && text_order(b, c) == Ordering::Less ==> text_order(
            a,
            c,
        ) == Ordering::Less,
    decreases a.len(),
{
    if a.len() > 0 && b.len() > 0 {
        text_order_is_total(a.drop_first(), b.drop_first(), c.drop_first());
        if a[0] == b[0] && a.drop_first() == b.drop_first() {
            assert(a =~= seq![a[0]] + a.drop_first());
            assert(b =~= seq![b[0]] + b.drop_first());
        }
    } else if a.len() == 0 && b.len() == 0 {
        assert(a =~= b);
    }
}

/// A copy stands level with what it was copied from, for either interner of this library.
pub proof fn copies_stand_level(
    a: Interned<GlobalInterner>,
    copy_of_a: Interned<GlobalInterner>,
    order_a: Ordering,
    b: Interned<NoInterner>,
    copy_of_b: Interned<NoInterner>,
    order_b: Ordering,
)
    requires
        call_ensures(Interned::<GlobalInterner>::clone, (&a,), copy_of_a),
        call_ensures(Interned::<GlobalInterner>::cmp, (&copy_of_a, &a), order_a),
        call_ensures(Interned::<NoInterner>::clone, (&b,), copy_of_b),
        call_ensures(Interned::<NoInterner>::cmp, (&copy_of_b, &b), order_b),
    ensures
        copy_of_a.key() == a.key(),
        order_a == Ordering::Equal,
        order_b == Ordering::Equal,
{
    text_order_is_total(copy_of_b@, b@, b@);
}

/// A shared store gives one id to each string: the same string always gets the same id, and
/// another string gets another.
pub proof fn state_ids_are_stable(state: GlobalState, s: &str, t: &str, a: u32, b: u32)
    requires
        call_ensures(GlobalState::get_or_intern, (&state, s), Ok::<u32, IdSpaceExhausted>(a)),
        call_ensures(GlobalState::get_or_intern, (&state, t), Ok::<u32, IdSpaceExhausted>(b)),
    ensures
        a == b <==> s@ == t@,
{
}

/// A string that the map of a shared store has an id for gets that id, however many slots are
/// in use: a string is refused only where the map was asked for it and had none.
pub proof fn state_refuses_only_missing_strings(state: GlobalState, s: &str)
    requires
        call_ensures(
            GlobalState::get_or_intern,
            (&state, s),
            Err::<u32, IdSpaceExhausted>(IdSpaceExhausted),
        ),
    ensures
        state.finds(s, None),
{
}

/// A shared store gives back under an id the string that it was given for it.
pub proof fn state_resolves_what_it_interned(state: GlobalState, s: &str, id: u32)
    requires
        call_ensures(GlobalState::get_or_intern, (&state, s), Ok::<u32, IdSpaceExhausted>(id)),
    ensures
        call_requires(GlobalState::resolve, (&state, &id)),
        forall|back: &'static str|
            call_ensures(GlobalState::resolve, (&state, &id), back) ==> back@ == s@,
        forall|back: &'static str|
            call_ensures(GlobalState::lookup, (&state, &id), Some(back)) ==> back@ == s@,
{
}

/// An arena store gives one id to each string: the same string always gets the same id, and
/// another string gets another.
pub proof fn lasso_ids_are_stable(state: LassoState, s: &str, t: &str, a: u32, b: u32)
    requires
        call_ensures(LassoState::get_or_intern, (&state, s), Ok::<u32, ArenaExhausted>(a)),
        call_ensures(LassoState::get_or_intern, (&state, t), Ok::<u32, ArenaExhausted>(b)),
    ensures
        a == b <==> s@ == t@,
{
}

/// An arena store gives back under an id the string that it was given for it.
pub proof fn lasso_resolves_what_it_interned(state: LassoState, s: &str, id: u32)
    requires
        call_ensures(LassoState::get_or_intern, (&state, s), Ok::<u32, ArenaExhausted>(id)),
    ensures
        call_requires(LassoState::resolve, (&state, &id)),
        forall|back: &str|
            call_ensures(LassoState::resolve, (&state, &id), back) ==> back@ == s@,
        forall|back: &str|
            call_ensures(LassoState::lookup, (&state, &id), Some(back)) ==> back@ == s@,
{
}

/// However an interned string is read, the string comes out that was interned.
pub proof fn every_reading_gives_what_was_interned<I: Interner>(
    s: &str,
    interned: Interned<I>,
    resolved: &str,
    as_str: &str,
    dereferenced: &str,
)
    requires
        call_ensures(Interned::<I>::intern, (s,), interned),
        call_ensures(Interned::<I>::resolve, (&interned,), resolved),
        call_ensures(Interned::<I>::as_str, (&interned,), as_str),
        call_ensures(<Interned<I> as std::ops::Deref>::deref, (&interned,), dereferenced),
    ensures
        resolved@ == s@,
        as_str@ == s@,
        dereferenced@ == s@,
{
}

/// However a string is converted, what comes out resolves to the string.
pub proof fn conversions_resolve_to_the_string<I: Interner>(
    s: &str,
    from_str: Interned<I>,
    text_of_str: &str,
    owned: String,
    from_string: Interned<I>,
    text_of_string: &str,
)
    requires
        call_ensures(<Interned<I> as From<&str>>::from, (s,), from_str),
        call_ensures(Interned::<I>::resolve, (&from_str,), text_of_str),
        call_ensures(<Interned<I> as From<String>>::from, (owned,), from_string),
        call_ensures(Interned::<I>::resolve, (&from_string,), text_of_string),
    ensures
        text_of_str@ == s@,
        text_of_string@ == owned@,
{
}

/// A copy of an interned string resolves to the same string.
pub proof fn copies_resolve_alike<I: Interner>(
    interned: Interned<I>,
    copy: Interned<I>,
    text: &str,
    text_of_copy: &str,
)
    requires
        call_ensures(<Interned<I> as Clone>::clone, (&interned,), copy),
        call_ensures(Interned::<I>::resolve, (&interned,), text),
        call_ensures(Interned::<I>::resolve, (&copy,), text_of_copy),
    ensures
        text_of_copy@ == text@,
{
}

/// Two interned strings are equal exactly when they resolve to the same string, and unequal
/// exactly when they do not.
pub proof fn equal_exactly_when_they_resolve_alike<I: Interner>(
    a: Interned<I>,
    b: Interned<I>,
    text_a: &str,
    text_b: &str,
    same: bool,
    differ: bool,
)
    requires
        call_ensures(Interned::<I>::resolve, (&a,), text_a),
        call_ensures(Interned::<I>::resolve, (&b,), text_b),
        call_ensures(<Interned<I> as PartialEq>::eq, (&a, &b), same),
        call_ensures(<Interned<I> as PartialEq>::ne, (&a, &b), differ),
    ensures
        same == (text_a@ == text_b@),
        differ == (text_a@ != text_b@),
{
}

/// An interned string equals a `str` exactly when it resolves to the same string, whichever
/// of the two stands first.
pub proof fn equals_str_exactly_when_it_resolves_to_it<I: Interner>(
    interned: Interned<I>,
    text: &str,
    s: &str,
    left: bool,
    right: bool,
    left_differs: bool,
    right_differs: bool,
)
    requires
        call_ensures(Interned::<I>::resolve, (&interned,), text),
        call_ensures(<Interned<I> as PartialEq<str>>::eq, (&interned, s), left),
        call_ensures(<str as PartialEq<Interned<I>>>::eq, (s, &interned), right),
        call_ensures(<Interned<I> as PartialEq<str>>::ne, (&interned, s), left_differs),
        call_ensures(<str as PartialEq<Interned<I>>>::ne, (s, &interned), right_differs),
    ensures
        left == (text@ == s@),
        right == (text@ == s@),
        left_differs == (text@ != s@),
        right_differs == (text@ != s@),
{
}

/// An interned string equals a `&str` exactly when it resolves to the same string, whichever
/// of the two stands first.
pub proof fn equals_str_ref_exactly_when_it_resolves_to_it<I: Interner>(
    interned: Interned<I>,
    text: &str,
    s: &str,
    left: bool,
    right: bool,
    left_differs: bool,
    right_differs: bool,
)
    requires
        call_ensures(Interned::<I>::resolve, (&interned,), text),
        call_ensures(<Interned<I> as PartialEq<&str>>::eq, (&interned, &s), left),
        call_ensures(<&str as PartialEq<Interned<I>>>::eq, (&s, &interned), right),
        call_ensures(<Interned<I> as PartialEq<&str>>::ne, (&interned, &s), left_differs),
        call_ensures(<&str as PartialEq<Interned<I>>>::ne, (&s, &interned), right_differs),
    ensures
        left == (text@ == s@),
        right == (text@ == s@),
        left_differs == (text@ != s@),
        right_differs == (text@ != s@),
{
}

/// Keys of the fallback are equal exactly when their strings are, a copy of one is its equal,
/// and each gives access to its string.
pub proof fn fallback_keys_are_their_strings(
    s: &str,
    t: &str,
    a: BoxedText,
    b: BoxedText,
    same: bool,
    differ: bool,
    copy: BoxedText,
    same_as_copy: bool,
    access: &str,
    text_of_copy: &str,
)
    requires
        call_ensures(<NoInterner as Interner>::get_or_intern, (s,), a),
        call_ensures(<NoInterner as Interner>::get_or_intern, (t,), b),
        call_ensures(<BoxedText as PartialEq>::eq, (&a, &b), same),
        call_ensures(<BoxedText as PartialEq>::ne, (&a, &b), differ),
        call_ensures(<BoxedText as Clone>::clone, (&a,), copy),
        call_ensures(<BoxedText as PartialEq>::eq, (&copy, &a), same_as_copy),
        call_ensures(<BoxedText as std::ops::Deref>::deref, (&a,), access),
        call_ensures(<NoInterner as Interner>::resolve, (&copy,), text_of_copy),
    ensures
        same == (s@ == t@),
        differ == (s@ != t@),
        same_as_copy,
        access@ == s@,
        text_of_copy@ == s@,
{
}

/// A text that agrees with another up to `at`, and there ends or has the lesser character,
/// comes before it.
pub proof fn text_order_is_by_first_difference(a: Seq<char>, b: Seq<char>, at: int)
    requires
        0 <= at <= a.len(),
        at < b.len(),
        forall|i: int| 0 <= i < at ==> a[i] == b[i],
        at == a.len() || a[at] < b[at],
    ensures
        text_order(a, b) == Ordering::Less,
        text_order(b, a) == Ordering::Greater,
    decreases a.len(),
{
    if at > 0 {
        assert(a[0] == b[0]);
        text_order_is_by_first_difference(a.drop_first(), b.drop_first(), at - 1);
    }
}

/// The key of a string that agrees with another up to `at`, and there ends or has the lesser
/// character, comes before the key of the other, by every way of comparing the two.
pub proof fn fallback_keys_are_ordered_by_first_difference(
    s: &str,
    t: &str,
    at: int,
    a: BoxedText,
    b: BoxedText,
    forth: Ordering,
    back: Ordering,
    partial_forth: Option<Ordering>,
    partial_back: Option<Ordering>,
)
    requires
        call_ensures(NoInterner::get_or_intern, (s,), a),
        call_ensures(NoInterner::get_or_intern, (t,), b),
        0 <= at <= s@.len(),
        at < t@.len(),
        forall|i: int| 0 <= i < at ==> s@[i] == t@[i],
        at == s@.len() || s@[at] < t@[at],
        call_ensures(BoxedText::cmp, (&a, &b), forth),
        call_ensures(BoxedText::cmp, (&b, &a), back),
        call_ensures(BoxedText::partial_cmp, (&a, &b), partial_forth),
        call_ensures(BoxedText::partial_cmp, (&b, &a), partial_back),
    ensures
        forth == Ordering::Less,
        back == Ordering::Greater,
        partial_forth == Some(Ordering::Less),
        partial_back == Some(Ordering::Greater),
{
    text_order_is_by_first_difference(s@, t@, at);
}

/// The order of two keys of the fallback is the same by every way of comparing them: any two
/// are ordered, and they stand level exactly when their strings are equal.
pub proof fn fallback_comparisons_agree(
    a: BoxedText,
    b: BoxedText,
    order: Ordering,
    partial: Option<Ordering>,
    lt: bool,
    le: bool,
    gt: bool,
    ge: bool,
)
    requires
        call_ensures(BoxedText::cmp, (&a, &b), order),
        call_ensures(BoxedText::partial_cmp, (&a, &b), partial),
        call_ensures(BoxedText::lt, (&a, &b), lt),
        call_ensures(BoxedText::le, (&a, &b), le),
        call_ensures(BoxedText::gt, (&a, &b), gt),
        call_ensures(BoxedText::ge, (&a, &b), ge),
    ensures
        partial == Some(order),
        order == Ordering::Equal <==> a@ == b@,
        lt == (order == Ordering::Less),
        le == (order != Ordering::Greater),
        gt == (order == Ordering::Greater),
        ge == (order != Ordering::Less),
{
    text_order_is_total(a@, b@, b@);
}

/// Without an interner, a string that agrees with another up to `at`, and there ends or has
/// the lesser character, comes before the other once both are interned.
pub proof fn no_interner_orders_by_first_difference(
    s: &str,
    t: &str,
    at: int,
    a: Interned<NoInterner>,
    b: Interned<NoInterner>,
    forth: Ordering,
    back: Ordering,
    partial_forth: Option<Ordering>,
    partial_back: Option<Ordering>,
)
    requires
        call_ensures(Interned::<NoInterner>::intern, (s,), a),
        call_ensures(Interned::<NoInterner>::intern, (t,), b),
        0 <= at <= s@.len(),
        at < t@.len(),
        forall|i: int| 0 <= i < at ==> s@[i] == t@[i],
        at == s@.len() || s@[at] < t@[at],
        call_ensures(Interned::<NoInterner>::cmp, (&a, &b), forth),
        call_ensures(Interned::<NoInterner>::cmp, (&b, &a), back),
        call_ensures(Interned::<NoInterner>::partial_cmp, (&a, &b), partial_forth),
        call_ensures(Interned::<NoInterner>::partial_cmp, (&b, &a), partial_back),
    ensures
        forth == Ordering::Less,
        back == Ordering::Greater,
        partial_forth == Some(Ordering::Less),
        partial_back == Some(Ordering::Greater),
{
    text_order_is_by_first_difference(s@, t@, at);
}

/// The operators on interned strings go by the order of `cmp`, for every interner whose keys
/// are ordered by a settled order.
pub proof fn operators_go_by_the_order<I: Interner>(
    a: Interned<I>,
    b: Interned<I>,
    order: Ordering,
    lt: bool,
    le: bool,
    gt: bool,
    ge: bool,
)
    requires
        I::Key::obeys_cmp_spec(),
        call_ensures(Interned::<I>::cmp, (&a, &b), order),
        call_ensures(Interned::<I>::lt, (&a, &b), lt),
        call_ensures(Interned::<I>::le, (&a, &b), le),
        call_ensures(Interned::<I>::gt, (&a, &b), gt),
        call_ensures(Interned::<I>::ge, (&a, &b), ge),
    ensures
        lt == (order == Ordering::Less),
        le == (order != Ordering::Greater),
        gt == (order == Ordering::Greater),
        ge == (order != Ordering::Less),
{
}

/// Without an interner, the operators on interned strings go by the order of `cmp`.
pub proof fn no_interner_operators_go_by_the_order(
    a: Interned<NoInterner>,
    b: Interned<NoInterner>,
    order: Ordering,
    lt: bool,
    le: bool,
    gt: bool,
    ge: bool,
)
    requires
        call_ensures(Interned::<NoInterner>::cmp, (&a, &b), order),
        call_ensures(Interned::<NoInterner>::lt, (&a, &b), lt),
        call_ensures(Interned::<NoInterner>::le, (&a, &b), le),
        call_ensures(Interned::<NoInterner>::gt, (&a, &b), gt),
        call_ensures(Interned::<NoInterner>::ge, (&a, &b), ge),
    ensures
        lt == (order == Ordering::Less),
        le == (order != Ordering::Greater),
        gt == (order == Ordering::Greater),
        ge == (order != Ordering::Less),
{
}

/// The key of the process-wide interner is the number of the symbol that the symbol table has
/// for the string, and it is never zero.
pub proof fn global_keys_are_symbol_numbers(s: &str, key: u32)
    requires
        call_ensures(<GlobalInterner as Interner>::get_or_intern, (s,), key),
    ensures
        key != 0,
        exists|symbol: symbol_table::GlobalSymbol| #[trigger]
            symbol_text(symbol) == Some(s@) && symbol_number(symbol) == key,
{
    let symbol = choose|symbol: symbol_table::GlobalSymbol|
        crate::global_interner::names_symbol(key, symbol);
    assert(symbol_text(symbol) == Some(s@));
}

/// A string has one of 32 shards, by its hash under the hasher of the store: the remainder of
/// the hash. Its lock is the one of its shard, and there are 32 locks.
pub proof fn state_shards_go_by_the_hash(
    hash: u64,
    index: usize,
    fresh: GlobalState,
    state: GlobalState,
    s: &str,
    shard: usize,
)
    requires
        call_ensures(shard_index, (hash,), index),
        call_ensures(GlobalState::new, (), fresh),
        call_ensures(GlobalState::shard_for, (&state, s), shard),
    ensures
        index == hash % 32,
        fresh.locks().len() == 32,
        shard == text_hash(state.hasher(), s@) % 32,
        state.lock_of(s@) == state.locks()[shard as int],
{
}

/// A slot has its own index for an id, and none where the index does not fit.
pub proof fn ids_are_slot_indexes(index: usize, id: Result<u32, IdSpaceExhausted>)
    requires
        call_ensures(id_for_slot, (index,), id),
    ensures
        id is Ok <==> index <= 0xffff_ffff,
        id matches Ok(id) ==> id == index,
{
}

/// What a shared store gives for a string is settled by its two collections: an id is the one
/// that the map keeps for the string, and its slot in the vec holds the string. A string is
/// refused only where the map was asked for it, once without the lock and once with it, and
/// had none, and where its slot lies beyond the ids.
pub proof fn state_outcomes_are_those_of_its_tables(
    state: GlobalState,
    s: &str,
    outcome: Result<u32, IdSpaceExhausted>,
)
    requires
        call_ensures(GlobalState::get_or_intern, (&state, s), outcome),
    ensures
        outcome matches Ok(id) ==> kept_ids(state.tables()).contains_pair(s@, id),
        outcome matches Ok(id) ==> slot_texts(state.tables()).contains_pair(id as usize, s@),
        outcome is Err ==> call_ensures(find_id, (&state.tables(), s), None::<u32>),
        outcome is Err ==> exists|guard: ShardGuard<'_>, after: ShardGuard<'_>|
            held_lock(guard) == state.lock_of(s@) && #[trigger] call_ensures(
                find_id_locked,
                (&state.tables(), s, guard),
                (after, None::<u32>),
            ),
        outcome is Err ==> exists|index: usize|
            index > 0xffff_ffff && #[trigger] slot_texts(state.tables()).contains_pair(index, s@),
{
}

/// A lookup in a shared store answers what the vec answers for the slot of the key in this
/// very call, whatever the key: it finds nothing only where the vec found nothing.
pub proof fn state_lookup_answers_as_the_vec(
    state: GlobalState,
    key: u32,
    found: Option<&'static str>,
)
    requires
        call_ensures(GlobalState::lookup, (&state, &key), found),
    ensures
        call_ensures(slot_text, (&state.tables(), key as usize), found),
{
}

/// Looking up an id of a shared store asks the vec for the slot that holds the string which
/// the id was given for: what is found is that string, and only the vec itself can say that
/// the slot is empty.
pub proof fn state_lookup_asks_for_the_interned_string(
    state: GlobalState,
    s: &str,
    id: u32,
    found: Option<&'static str>,
)
    requires
        call_ensures(GlobalState::get_or_intern, (&state, s), Ok::<u32, IdSpaceExhausted>(id)),
        call_ensures(GlobalState::lookup, (&state, &id), found),
    ensures
        slot_texts(state.tables()).contains_pair(id as usize, s@),
        call_ensures(slot_text, (&state.tables(), id as usize), found),
        found matches Some(text) ==> text@ == s@,
{
}

/// What a lookup in a shared store found can be resolved, to the same string.
pub proof fn state_resolves_what_it_found(state: GlobalState, key: u32, text: &'static str)
    requires
        call_ensures(GlobalState::lookup, (&state, &key), Some(text)),
    ensures
        call_requires(GlobalState::resolve, (&state, &key)),
        forall|back: &'static str|
            call_ensures(GlobalState::resolve, (&state, &key), back) ==> back@ == text@,
{
}

/// What an arena store gives for a string is what the arena gives for it in this very call:
/// the index of its key where there is one, and a refusal where the arena refuses, and only
/// there.
pub proof fn lasso_outcomes_are_those_of_the_arena(
    state: LassoState,
    s: &str,
    outcome: Result<u32, ArenaExhausted>,
)
    requires
        call_ensures(LassoState::get_or_intern, (&state, s), outcome),
    ensures
        outcome is Err ==> exists|error: lasso::LassoError| #[trigger]
            call_ensures(
                rodeo_intern,
                (&state.rodeo(), s),
                Err::<lasso::Spur, lasso::LassoError>(error),
            ),
        outcome matches Ok(id) ==> exists|spur: lasso::Spur|
            spur_index(spur) == id as usize && #[trigger] call_ensures(
                rodeo_intern,
                (&state.rodeo(), s),
                Ok::<lasso::Spur, lasso::LassoError>(spur),
            ),
        outcome matches Ok(id) ==> rodeo_texts(state.rodeo()).contains_pair(id as usize, s@),
{
    let answer = choose|answer: Result<lasso::Spur, lasso::LassoError>| #[trigger]
        call_ensures(rodeo_intern, (&state.rodeo(), s), answer) && match answer {
            Ok(spur) => outcome matches Ok(id) && id as usize == spur_index(spur),
            Err(_) => outcome is Err,
        };
    match answer {
        Ok(spur) => {
            assert(answer == Ok::<lasso::Spur, lasso::LassoError>(spur));
        },
        Err(error) => {
            assert(answer == Err::<lasso::Spur, lasso::LassoError>(error));
        },
    }
}

/// An answer of the arena has an id exactly where it is a key: the index of the key.
pub proof fn ids_are_spur_indexes(
    answer: Result<lasso::Spur, lasso::LassoError>,
    id: Result<u32, ArenaExhausted>,
)
    requires
        call_ensures(id_for_spur, (answer,), id),
    ensures
        id is Ok <==> answer is Ok,
        id matches Ok(id) ==> id as usize == spur_index(answer->Ok_0),
{
}

/// A lookup in an arena store answers what the arena answers for the key with this index in
/// this very call, whatever the key: it finds nothing only where the arena found nothing, or
/// where the key is `u32::MAX`, which no key of the arena has for an index.
pub proof fn lasso_lookup_answers_as_the_arena(state: LassoState, key: u32, found: Option<&str>)
    requires
        call_ensures(LassoState::lookup, (&state, &key), found),
    ensures
        key == 0xffff_ffff ==> found is None,
        key < 0xffff_ffff ==> exists|spur: lasso::Spur| #[trigger]
            spur_index(spur) == key as usize && call_ensures(
                rodeo_try_resolve,
                (&state.rodeo(), &spur),
                found,
            ),
{
}

/// Looking up an id of an arena store asks the arena for the string which the id was given
/// for: what is found is that string, and only the arena itself can say that it has none.
pub proof fn lasso_lookup_asks_for_the_interned_string(
    state: LassoState,
    s: &str,
    id: u32,
    found: Option<&str>,
)
    requires
        call_ensures(LassoState::get_or_intern, (&state, s), Ok::<u32, ArenaExhausted>(id)),
        call_ensures(LassoState::lookup, (&state, &id), found),
    ensures
        rodeo_texts(state.rodeo()).contains_pair(id as usize, s@),
        exists|spur: lasso::Spur| #[trigger]
            spur_index(spur) == id as usize && call_ensures(
                rodeo_try_resolve,
                (&state.rodeo(), &spur),
                found,
            ),
        found matches Some(text) ==> text@ == s@,
{
    lasso_outcomes_are_those_of_the_arena(state, s, Ok(id));
}

/// What a lookup in an arena store found can be resolved, to the same string.
pub proof fn lasso_resolves_what_it_found(state: LassoState, key: u32, text: &str)
    requires
        call_ensures(LassoState::lookup, (&state, &key), Some(text)),
    ensures
        call_requires(LassoState::resolve, (&state, &key)),
        forall|back: &str|
            call_ensures(LassoState::resolve, (&state, &key), back) ==> back@ == text@,
{
}

/// The arena of a new store has no limit on the memory of its strings.
pub proof fn lasso_arena_is_unlimited(state: LassoState)
    requires
        call_ensures(LassoState::new, (), state),
    ensures
        rodeo_memory_limit(state.rodeo()) == usize::MAX,
{
}

} // verus!
