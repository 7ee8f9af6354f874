//! A store of interned strings that threads share without a lock on the fast path.
//!
//! * Fast path: lock-free `papaya` lookup, no allocation.
//! * Slow path: sharded mutexes. The string's hash picks one of [`N_SHARDS`] mutexes; only
//!   threads colliding on the same shard contend. Inside the lock the lookup is repeated (a
//!   lock-free reader may have missed the entry), then the text is leaked, pushed to the
//!   reverse vec and entered into the forward map, which keeps an entry that is there.
//! * Resolve: O(1) indexed read into a `boxcar::Vec<&'static str>`.
//!
//! The store only ever grows. An id, once it is handed out, stands for one string for good,
//! and a string has one id for good. So the contracts speak of the whole life of a store:
//! [`GlobalState::ids`] and [`GlobalState::texts`] are the entries that it ever comes to hold,
//! whichever thread puts them there and whenever. A call that returns an entry shows that the
//! entry is there; a lookup that finds nothing shows only that it is not there yet.

use std::hash::BuildHasher;

use vstd::prelude::*;

use crate::text::leak;

verus! {

/// `parking_lot::RawMutex`, the lock inside a `parking_lot::Mutex`, as an opaque type.
#[verifier::external_type_specification]
#[verifier::external_body]
pub struct ExRawMutex(parking_lot::RawMutex);

/// The type that `parking_lot::Mutex` is an alias of, as an opaque type.
#[verifier::external_type_specification]
#[verifier::external_body]
#[verifier::reject_recursive_types(R)]
#[verifier::reject_recursive_types(T)]
pub struct ExMutex<R, T: ?Sized>(parking_lot::lock_api::Mutex<R, T>);

/// A `parking_lot::MutexGuard`: holds the lock of a shard until it is dropped.
///
/// The outside type is hidden in a field, since its own declaration would need the trait
/// `lock_api::RawMutex`, which Verus has no declaration of.
#[verifier::external_body]
pub struct ShardGuard<'a>(parking_lot::MutexGuard<'a, ()>);

/// The two collections of a store, which belong together: an id in the map is the index of a
/// slot in the vec.
///
/// They are hidden in one struct, so that nothing but the functions below reaches either, and
/// no map is ever joined with the vec of another store.
#[verifier::external_body]
pub struct Tables {
    /// `str` to id. Keys are leaked so they are `'static`.
    forward: papaya::HashMap<&'static str, u32>,
    /// id to `'static` str.
    reverse: boxcar::Vec<&'static str>,
}

/// The entries that the map of `tables` comes to hold over its life: the id that it keeps for
/// each string.
///
/// This is one map, not a map for each moment: [`keep_id`], the only writer, leaves an entry
/// that is there as it is, and nothing removes one.
pub uninterp spec fn kept_ids(tables: Tables) -> Map<Seq<char>, u32>;

/// The slots that the vec of `tables` comes to hold over its life: the text in each, by index.
///
/// A `boxcar::Vec` is append-only, so a slot that is filled keeps its text.
pub uninterp spec fn slot_texts(tables: Tables) -> Map<usize, Seq<char>>;

/// The lock that `guard` holds.
pub uninterp spec fn held_lock(guard: ShardGuard<'_>) -> parking_lot::Mutex<()>;

/// The text that the holder of `guard` looked up under the lock and found missing, until it
/// is stored.
pub uninterp spec fn missing_text(guard: ShardGuard<'_>) -> Option<Seq<char>>;

/// The hash that `hasher` gives to `text`.
pub uninterp spec fn text_hash(
    hasher: std::collections::hash_map::RandomState,
    text: Seq<char>,
) -> u64;

/// How many locks guard the slow path.
pub const N_SHARDS: usize = 32;

/// More strings were interned than there are ids: the slot that a string was put in lies
/// beyond `u32::MAX`.
#[derive(Debug, Clone, Copy, PartialEq, Eq)]
pub struct IdSpaceExhausted;

/// The strings interned so far, with their ids.
pub struct GlobalState {
    /// The strings and their ids, both ways.
    tables: Tables,
    /// One mutex per shard. The string's hash selects the shard so threads
    /// colliding on the same shard serialize; everyone else proceeds in parallel.
    insert_shards: Vec<parking_lot::Mutex<()>>,
    /// Made once, so that the shard of a string does not change.
    hasher: std::collections::hash_map::RandomState,
}

/// `papaya::HashMap::new` and `boxcar::Vec::new`. That both are empty yet is left unsaid: the
/// names speak of what they ever come to hold.
#[verifier::external_body]
fn new_tables() -> Tables {
    Tables { forward: papaya::HashMap::new(), reverse: boxcar::Vec::new() }
}

/// `RandomState::new`. Nothing is claimed of the seed, which is drawn at random.
pub assume_specification[ std::collections::hash_map::RandomState::new ]()
    -> std::collections::hash_map::RandomState
;

/// `parking_lot::Mutex::new`. Nothing is claimed of the new lock.
#[verifier::external_body]
fn new_lock() -> parking_lot::Mutex<()> {
    parking_lot::Mutex::new(())
}

/// `parking_lot::Mutex::lock`: waits for the lock and holds it until the guard is dropped. A
/// thread that locks twice waits forever; the guards taken here never leave the call that
/// takes them.
#[verifier::external_body]
fn lock_shard(shard: &parking_lot::Mutex<()>) -> (guard: ShardGuard<'_>)
    ensures
        held_lock(guard) == *shard,
{
    ShardGuard(shard.lock())
}

/// `BuildHasher::hash_one` of a `RandomState`: the hash of a text is settled by the hasher,
/// which holds its seed, and by the characters.
#[verifier::external_body]
fn hash_text(hasher: &std::collections::hash_map::RandomState, s: &str) -> (hash: u64)
    ensures
        hash == text_hash(*hasher, s@),
{
    hasher.hash_one(s)
}

/// `boxcar::Vec::push`: the text goes into a slot of its own, whose index comes back. Which
/// index that is is left unsaid: it depends on what all threads pushed before.
///
/// A text may be stored only by the holder of its lock, who looked it up under the lock and
/// found it missing, and only once for each such lookup. So no text is stored that the map has
/// an id for, and no other thread stores the same text meanwhile.
#[verifier::external_body]
fn push_text<'a>(state: &GlobalState, text: &'static str, guard: ShardGuard<'a>) -> (stored: (
    ShardGuard<'a>,
    usize,
))
    requires
        held_lock(guard) == state.lock_of(text@),
        missing_text(guard) == Some(text@),
    ensures
        slot_texts(state.tables).contains_pair(stored.1, text@),
        held_lock(stored.0) == held_lock(guard),
        missing_text(stored.0) is None,
{
    (guard, state.tables.reverse.push(text))
}

/// `boxcar::Vec::get`: the text in a slot, if the slot is filled by now. Nothing is claimed
/// of a slot that is not: it may be filled later.
#[verifier::external_body]
pub fn slot_text(tables: &Tables, index: usize) -> (found: Option<&'static str>)
    ensures
        found matches Some(text) ==> slot_texts(*tables).contains_pair(index, text@),
{
    tables.reverse.get(index).copied()
}

/// Indexing a `boxcar::Vec`, which panics on a slot that is not filled: the text in a slot
/// that is known to be filled. A caller learns of a slot only from a call that came back with
/// its index or its text, so the slot is filled by the time that it is read here.
#[verifier::external_body]
fn filled_slot_text(tables: &Tables, index: usize) -> (text: &'static str)
    requires
        slot_texts(*tables).dom().contains(index),
    ensures
        slot_texts(*tables).contains_pair(index, text@),
{
    tables.reverse[index]
}

/// `papaya::HashMap::get`: the id under which the map keeps `s`, if it has one by now. Nothing
/// is claimed of a string without one: it may be entered later.
///
/// What a lookup finds, a call of [`keep_id`] on these tables put there, since a new map is
/// empty and there is no other writer. That call was given a slot that holds the key: so the
/// slot of the id found holds `s`.
#[verifier::external_body]
pub fn find_id(tables: &Tables, s: &str) -> (found: Option<u32>)
    ensures
        found matches Some(id) ==> kept_ids(*tables).contains_pair(s@, id),
        found matches Some(id) ==> slot_texts(*tables).contains_pair(id as usize, s@),
{
    tables.forward.pin().get(s).copied()
}

/// `papaya::HashMap::get`, as [`find_id`], by the holder of a lock: where nothing is found, the
/// guard that comes back stands for that.
#[verifier::external_body]
pub fn find_id_locked<'a>(tables: &Tables, s: &str, guard: ShardGuard<'a>) -> (answer: (
    ShardGuard<'a>,
    Option<u32>,
))
    ensures
        answer.1 matches Some(id) ==> kept_ids(*tables).contains_pair(s@, id),
        answer.1 matches Some(id) ==> slot_texts(*tables).contains_pair(id as usize, s@),
        held_lock(answer.0) == held_lock(guard),
        missing_text(answer.0) == (if answer.1 is None { Some(s@) } else { None }),
{
    (guard, tables.forward.pin().get(s).copied())
}

/// `papaya::HashMap::get_or_insert`: enters `id` for `key` unless the map has an entry for it,
/// and hands back the id that the map then keeps. An entry that is there stays as it is.
///
/// Whichever call on these tables entered the id that comes back, that call was given a slot
/// that holds the key, as this one is. Only the holder of the lock for the key may enter it,
/// so that the lock is not given up between storing a text and entering it.
#[verifier::external_body]
fn keep_id(state: &GlobalState, key: &'static str, id: u32, guard: &ShardGuard<'_>) -> (kept: u32)
    requires
        slot_texts(state.tables).contains_pair(id as usize, key@),
        held_lock(*guard) == state.lock_of(key@),
    ensures
        kept_ids(state.tables).contains_pair(key@, kept),
        slot_texts(state.tables).contains_pair(kept as usize, key@),
{
    *state.tables.forward.pin().get_or_insert(key, id)
}

/// The shard of a string with this hash: the hash modulo [`N_SHARDS`], which a bitmask gives
/// since [`N_SHARDS`] is a power of two.
pub fn shard_index(hash: u64) -> (shard: usize)
    ensures
        shard == hash % (N_SHARDS as u64),
        shard < N_SHARDS,
{
    let low: usize = #[verifier::truncate] (hash as usize);
    assert((hash as usize) & 31usize == hash % 32u64) by (bit_vector);
    low & (N_SHARDS - 1)
}

/// The id of the string in the slot at `index`: the index itself, as far as ids reach.
///
/// Cutting the index short would give the string the id of another and corrupt later
/// resolves, so an index beyond `u32::MAX` has no id.
pub fn id_for_slot(index: usize) -> (id: Result<u32, IdSpaceExhausted>)
    ensures
        index <= u32::MAX ==> id == Ok::<u32, IdSpaceExhausted>(index as u32),
        index > u32::MAX ==> id == Err::<u32, IdSpaceExhausted>(IdSpaceExhausted),
{
    if index <= u32::MAX as usize {
        Ok(index as u32)
    } else {
        Err(IdSpaceExhausted)
    }
}

impl GlobalState {
    /// The two collections of this store.
    pub closed spec fn tables(&self) -> Tables {
        self.tables
    }

    /// The locks of the slow path, by shard.
    pub closed spec fn locks(&self) -> Seq<parking_lot::Mutex<()>> {
        self.insert_shards@
    }

    /// The hasher that selects the shard of a string.
    pub closed spec fn hasher(&self) -> std::collections::hash_map::RandomState {
        self.hasher
    }

    /// The id of each string that this store comes to hold.
    pub closed spec fn ids(&self) -> Map<Seq<char>, u32> {
        kept_ids(self.tables)
    }

    /// The text of each slot that this store comes to hold.
    pub closed spec fn texts(&self) -> Map<usize, Seq<char>> {
        slot_texts(self.tables)
    }

    /// The number of locks on the slow path.
    pub closed spec fn lock_count(&self) -> nat {
        self.insert_shards@.len()
    }

    /// Whether `found` is an answer that the map may give when it is asked for the id of `s`:
    /// the id that it has for `s` by then, or nothing where it has none yet.
    pub closed spec fn finds(&self, s: &str, found: Option<u32>) -> bool {
        call_ensures(find_id, (&self.tables, s), found)
    }

    /// The lock that guards the slow path of `text`: that of its shard.
    pub closed spec fn lock_of(&self, text: Seq<char>) -> parking_lot::Mutex<()> {
        self.insert_shards@[(self.hash_of(text) % (N_SHARDS as u64)) as int]
    }

    /// Whether `found` is an answer that the map may give when it is asked for the id of `s` by
    /// the holder of the lock for `s`.
    pub closed spec fn finds_locked(&self, s: &str, found: Option<u32>) -> bool {
        exists|guard: ShardGuard<'_>, after: ShardGuard<'_>|
            held_lock(guard) == self.lock_of(s@) && #[trigger] call_ensures(
                find_id_locked,
                (&self.tables, s, guard),
                (after, found),
            )
    }

    /// Whether `outcome` is one that the slow path may give for `s` to a thread that holds the
    /// lock for `s`.
    pub closed spec fn interns_locked(
        &self,
        s: &str,
        outcome: Result<u32, IdSpaceExhausted>,
    ) -> bool {
        exists|guard: ShardGuard<'_>| #[trigger]
            held_lock(guard) == self.lock_of(s@) && call_ensures(
                GlobalState::intern_locked,
                (self, s, guard),
                outcome,
            )
    }

    /// Whether `found` is an answer that the vec may give when it is asked for the slot at
    /// `index`: what is in the slot by then, or nothing where it is not filled yet.
    pub closed spec fn reads(&self, index: usize, found: Option<&'static str>) -> bool {
        call_ensures(slot_text, (&self.tables, index), found)
    }

    /// The hash of a text, which selects its shard.
    pub closed spec fn hash_of(&self, text: Seq<char>) -> u64 {
        text_hash(self.hasher, text)
    }

    #[verifier::type_invariant]
    spec fn has_all_shards(self) -> bool {
        self.insert_shards@.len() == N_SHARDS
    }

    /// A store without strings.
    pub fn new() -> (state: Self)
        ensures
            state.lock_count() == N_SHARDS,
            state.locks().len() == N_SHARDS,
    {
        let mut insert_shards: Vec<parking_lot::Mutex<()>> = Vec::new();
        while insert_shards.len() < N_SHARDS
            invariant
                insert_shards@.len() <= N_SHARDS,
            decreases N_SHARDS - insert_shards@.len(),
        {
            insert_shards.push(new_lock());
        }
        GlobalState {
            tables: new_tables(),
            insert_shards,
            hasher: std::collections::hash_map::RandomState::new(),
        }
    }

    /// The shard whose lock guards the slow path of `s`. Which one it is depends on the seed
    /// of the hasher, but it does not change.
    pub fn shard_for(&self, s: &str) -> (shard: usize)
        ensures
            shard == self.hash_of(s@) % (N_SHARDS as u64),
            shard == text_hash(self.hasher(), s@) % (N_SHARDS as u64),
            shard < N_SHARDS,
            self.lock_of(s@) == self.locks()[shard as int],
    {
        shard_index(hash_text(&self.hasher, s))
    }

    /// Intern `s`, returning a stable id.
    ///
    /// The id is the one that this store keeps for `s`, and its slot holds `s`. Where the map
    /// answers with an id for `s`, that one comes back; else the slow path decides, under the
    /// lock for `s`. There is none only where `s` was put in a slot that lies beyond the reach
    /// of ids. What the map and the vec hold at one moment is left unsaid.
    pub fn get_or_intern(&self, s: &str) -> (outcome: Result<u32, IdSpaceExhausted>)
        ensures
            match outcome {
                Ok(id) => {
                    &&& self.ids().contains_pair(s@, id)
                    &&& self.texts().contains_pair(id as usize, s@)
                },
                Err(_) => exists|index: usize|
                    index > u32::MAX && #[trigger] self.texts().contains_pair(index, s@),
            },
            exists|found: Option<u32>| #[trigger]
                self.finds(s, found) && match found {
                    Some(id) => outcome == Ok::<u32, IdSpaceExhausted>(id),
                    None => self.interns_locked(s, outcome),
                },
            match outcome {
                Ok(id) => {
                    &&& kept_ids(self.tables()).contains_pair(s@, id)
                    &&& slot_texts(self.tables()).contains_pair(id as usize, s@)
                },
                Err(_) => {
                    &&& call_ensures(find_id, (&self.tables(), s), None::<u32>)
                    &&& exists|guard: ShardGuard<'_>, after: ShardGuard<'_>|
                        held_lock(guard) == self.lock_of(s@) && #[trigger] call_ensures(
                            find_id_locked,
                            (&self.tables(), s, guard),
                            (after, None::<u32>),
                        )
                    &&& exists|index: usize|
                        index > u32::MAX && #[trigger] slot_texts(self.tables()).contains_pair(
                            index,
                            s@,
                        )
                },
            },
            exists|found: Option<u32>| #[trigger]
                call_ensures(find_id, (&self.tables(), s), found) && (found matches Some(id)
                    ==> outcome == Ok::<u32, IdSpaceExhausted>(id)),
    {
        // Fast path: lock-free read.
        let found = find_id(&self.tables, s);
        assert(self.finds(s, found));
        if let Some(id) = found {
            return Ok(id);
        }
        // Slow path: lock just the shard this string hashes to.

        let shard: usize = self.shard_for(s);
        proof {
            use_type_invariant(self);
        }
        let guard = lock_shard(&self.insert_shards[shard]);
        self.intern_locked(s, guard)
    }

    /// The slow path, for the thread that holds the lock for `s`, which it gives up at the end.
    ///
    /// It looks again, since another thread may have entered `s` before the lock was taken. An
    /// id that is found comes back. Where `s` is still missing it is put in a slot, and the
    /// slot decides whether there is an id.
    fn intern_locked(&self, s: &str, guard: ShardGuard<'_>) -> (outcome: Result<
        u32,
        IdSpaceExhausted,
    >)
        requires
            held_lock(guard) == self.lock_of(s@),
        ensures
            match outcome {
                Ok(id) => {
                    &&& self.ids().contains_pair(s@, id)
                    &&& self.texts().contains_pair(id as usize, s@)
                },
                Err(_) => exists|index: usize|
                    index > u32::MAX && #[trigger] self.texts().contains_pair(index, s@),
            },
            exists|found: Option<u32>| #[trigger]
                self.finds_locked(s, found) && match found {
                    Some(id) => outcome == Ok::<u32, IdSpaceExhausted>(id),
                    None => exists|index: usize| #[trigger]
                        self.texts().contains_pair(index, s@) && (outcome is Ok <==> index
                            <= u32::MAX),
                },
    {
        let (guard, found) = find_id_locked(&self.tables, s, guard);
        assert(self.finds_locked(s, found));
        if let Some(id) = found {
            return Ok(id);
        }
        let leaked: &'static str = leak(s.to_owned().into_boxed_str());
        let (guard, index) = push_text(self, leaked, guard);
        assert(self.texts().contains_pair(index, s@));
        match id_for_slot(index) {
            Ok(id) => Ok(keep_id(self, leaked, id, &guard)),
            Err(exhausted) => Err(exhausted),
        }
    }

    /// Resolve `key` back to its original string. Only a key that was handed out has one.
    pub fn resolve(&self, key: &u32) -> (text: &'static str)
        requires
            self.texts().dom().contains(*key as usize),
        ensures
            self.texts().contains_pair(*key as usize, text@),
    {
        filled_slot_text(&self.tables, *key as usize)
    }

    /// The string of `key`, if a string is found under it: the answer of the vec for the slot
    /// of `key`, as it is.
    pub fn lookup(&self, key: &u32) -> (found: Option<&'static str>)
        ensures
            self.reads(*key as usize, found),
            call_ensures(slot_text, (&self.tables(), *key as usize), found),
            found matches Some(text) ==> self.texts().contains_pair(*key as usize, text@),
    {
        slot_text(&self.tables, *key as usize)
    }
}

} // verus!
