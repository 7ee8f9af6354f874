//! A store of interned strings in a `lasso` arena.
//!
//! As in [`crate::state`], the store only ever grows, and [`LassoState::texts`] speaks of its
//! whole life.

use lasso::Key;

use vstd::prelude::*;

verus! {

/// `lasso::ThreadedRodeo`, as an opaque type.
#[verifier::external_type_specification]
#[verifier::external_body]
#[verifier::reject_recursive_types(K)]
#[verifier::reject_recursive_types(S)]
pub struct ExThreadedRodeo<K, S>(lasso::ThreadedRodeo<K, S>);

/// `lasso::Spur`, the key of a `ThreadedRodeo`, as an opaque type.
#[verifier::external_type_specification]
#[verifier::external_body]
pub struct ExSpur(lasso::Spur);

/// `lasso::LassoError`, as an opaque type.
#[verifier::external_type_specification]
#[verifier::external_body]
pub struct ExLassoError(lasso::LassoError);

/// The strings that `rodeo` comes to hold over its life, by the index of their keys.
///
/// A `ThreadedRodeo` neither replaces nor removes a string that is in it.
pub uninterp spec fn rodeo_texts(rodeo: lasso::ThreadedRodeo) -> Map<usize, Seq<char>>;

/// The index that `spur` wraps.
pub uninterp spec fn spur_index(spur: lasso::Spur) -> usize;

/// The bytes of interned strings that `rodeo` was made to hold at most.
pub uninterp spec fn rodeo_memory_limit(rodeo: lasso::ThreadedRodeo) -> usize;

/// The arena refused a string: it ran out of keys or of memory.
#[derive(Debug, Clone, Copy, PartialEq, Eq)]
pub struct ArenaExhausted;

/// `ThreadedRodeo::default`: an arena without a memory limit, which the default
/// `MemoryLimits` put at `usize::MAX`. That it holds no string yet is left unsaid: the names
/// speak of what it ever comes to hold.
#[verifier::external_body]
fn new_rodeo() -> (rodeo: lasso::ThreadedRodeo)
    ensures
        rodeo_memory_limit(rodeo) == usize::MAX,
{
    lasso::ThreadedRodeo::default()
}

/// `ThreadedRodeo::try_get_or_intern`: the one key that the arena has for `s`, made if there
/// is none yet. When the arena refuses depends on its memory and on the keys left, so nothing
/// is claimed of a refusal.
#[verifier::external_body]
pub fn rodeo_intern(rodeo: &lasso::ThreadedRodeo, s: &str) -> (spur: Result<
    lasso::Spur,
    lasso::LassoError,
>)
    ensures
        spur matches Ok(spur) ==> rodeo_texts(*rodeo).contains_pair(spur_index(spur), s@),
        spur matches Ok(spur) ==> forall|index: usize| #[trigger]
            rodeo_texts(*rodeo).contains_pair(index, s@) ==> index == spur_index(spur),
{
    rodeo.try_get_or_intern(s)
}

/// `ThreadedRodeo::resolve`: the string of a key that the arena has. It panics on a key that
/// the arena does not have. A caller learns of a key only from a call that came back with it
/// or with its string, so the arena has it by the time that it is resolved here.
#[verifier::external_body]
fn rodeo_resolve<'a>(rodeo: &'a lasso::ThreadedRodeo, spur: &lasso::Spur) -> (text: &'a str)
    requires
        rodeo_texts(*rodeo).dom().contains(spur_index(*spur)),
    ensures
        rodeo_texts(*rodeo).contains_pair(spur_index(*spur), text@),
{
    rodeo.resolve(spur)
}

/// `ThreadedRodeo::try_resolve`: the string of a key, if the arena has the key by now. Nothing
/// is claimed of a key that it does not have: it may come to have it later.
#[verifier::external_body]
pub fn rodeo_try_resolve<'a>(rodeo: &'a lasso::ThreadedRodeo, spur: &lasso::Spur) -> (found: Option<
    &'a str,
>)
    ensures
        found matches Some(text) ==> rodeo_texts(*rodeo).contains_pair(spur_index(*spur), text@),
{
    rodeo.try_resolve(spur)
}

/// `Key::into_usize` of a `Spur`: the index that the key wraps, which is below `u32::MAX`.
#[verifier::external_body]
fn index_of(spur: lasso::Spur) -> (index: usize)
    ensures
        index == spur_index(spur),
        index < u32::MAX,
{
    spur.into_usize()
}

/// `Key::try_from_usize` of `Spur`: the key that wraps `index`, if it is below `u32::MAX`.
#[verifier::external_body]
fn spur_with(index: usize) -> (spur: Option<lasso::Spur>)
    ensures
        spur is Some <==> index < u32::MAX,
        spur matches Some(spur) ==> spur_index(spur) == index,
{
    lasso::Spur::try_from_usize(index)
}

/// The strings interned so far, in an arena.
pub struct LassoState {
    rodeo: lasso::ThreadedRodeo,
}

/// The id that an answer of the arena stands for: the index of the key, if it gave one.
pub open spec fn id_in_answer(answer: Result<lasso::Spur, lasso::LassoError>) -> Result<
    u32,
    ArenaExhausted,
> {
    match answer {
        Ok(spur) => Ok(spur_index(spur) as u32),
        Err(_) => Err(ArenaExhausted),
    }
}

/// The id that the arena's answer stands for: the index of the key, if it gave one.
pub fn id_for_spur(answer: Result<lasso::Spur, lasso::LassoError>) -> (id: Result<
    u32,
    ArenaExhausted,
>)
    ensures
        id == id_in_answer(answer),
        match answer {
            Ok(spur) => id matches Ok(id) && id as usize == spur_index(spur) && id < u32::MAX,
            Err(_) => id == Err::<u32, ArenaExhausted>(ArenaExhausted),
        },
{
    match answer {
        Ok(spur) => Ok(index_of(spur) as u32),
        Err(_) => Err(ArenaExhausted),
    }
}

impl LassoState {
    /// The arena of this store.
    pub closed spec fn rodeo(&self) -> lasso::ThreadedRodeo {
        self.rodeo
    }

    /// The string of each id that this store comes to hold.
    pub closed spec fn texts(&self) -> Map<usize, Seq<char>> {
        rodeo_texts(self.rodeo)
    }

    /// The bytes of strings that this store was made to hold at most.
    pub closed spec fn memory_limit(&self) -> usize {
        rodeo_memory_limit(self.rodeo)
    }

    /// Whether `answer` is one that the arena may give when it is handed `s` to intern: the
    /// key of `s`, or a refusal.
    pub closed spec fn answers(
        &self,
        s: &str,
        answer: Result<lasso::Spur, lasso::LassoError>,
    ) -> bool {
        call_ensures(rodeo_intern, (&self.rodeo, s), answer)
    }

    /// Whether `found` is an answer that the arena may give when it is asked for the string of
    /// `spur`: the string, or nothing where it has none by then.
    pub closed spec fn reads(&self, spur: lasso::Spur, found: Option<&str>) -> bool {
        call_ensures(rodeo_try_resolve, (&self.rodeo, &spur), found)
    }

    /// A store without strings, and without a limit on the memory that they take.
    pub fn new() -> (state: Self)
        ensures
            state.memory_limit() == usize::MAX,
            rodeo_memory_limit(state.rodeo()) == usize::MAX,
    {
        LassoState { rodeo: new_rodeo() }
    }

    /// Intern `s`, returning a stable id: the only one under which this store holds `s`.
    /// There is none where, and only where, the arena refuses the string.
    pub fn get_or_intern(&self, s: &str) -> (outcome: Result<u32, ArenaExhausted>)
        ensures
            exists|answer: Result<lasso::Spur, lasso::LassoError>| #[trigger]
                self.answers(s, answer) && outcome == id_in_answer(answer),
            exists|answer: Result<lasso::Spur, lasso::LassoError>| #[trigger]
                call_ensures(rodeo_intern, (&self.rodeo(), s), answer) && match answer {
                    Ok(spur) => outcome matches Ok(id) && id as usize == spur_index(spur),
                    Err(_) => outcome is Err,
                },
            outcome matches Ok(id) ==> id < u32::MAX,
            outcome matches Ok(id) ==> self.texts().contains_pair(id as usize, s@),
            outcome matches Ok(id) ==> forall|index: usize| #[trigger]
                self.texts().contains_pair(index, s@) ==> index == id as usize,
    {
        let answer = rodeo_intern(&self.rodeo, s);
        assert(self.answers(s, answer));
        id_for_spur(answer)
    }

    /// Resolve `key` back to its original string. Only a key that was handed out has one.
    pub fn resolve(&self, key: &u32) -> (text: &str)
        requires
            *key < u32::MAX,
            self.texts().dom().contains(*key as usize),
        ensures
            self.texts().contains_pair(*key as usize, text@),
    {
        let spur = spur_with(*key as usize).unwrap();
        rodeo_resolve(&self.rodeo, &spur)
    }

    /// The string of `key`, if a string is found under it: the answer of the arena for the
    /// key with this index, as it is. `u32::MAX` is no key.
    pub fn lookup(&self, key: &u32) -> (found: Option<&str>)
        ensures
            *key == u32::MAX ==> found is None,
            *key < u32::MAX ==> exists|spur: lasso::Spur| #[trigger]
                spur_index(spur) == *key as usize && self.reads(spur, found),
            *key < u32::MAX ==> exists|spur: lasso::Spur| #[trigger]
                spur_index(spur) == *key as usize && call_ensures(
                    rodeo_try_resolve,
                    (&self.rodeo(), &spur),
                    found,
                ),
            found matches Some(text) ==> self.texts().contains_pair(*key as usize, text@),
    {
        match spur_with(*key as usize) {
            Some(spur) => rodeo_try_resolve(&self.rodeo, &spur),
            None => None,
        }
    }
}

} // verus!
