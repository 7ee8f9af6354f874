use std::num::NonZeroUsize;

use gentoo_interner::lasso_state::id_for_spur;
use gentoo_interner::state::{id_for_slot, shard_index, N_SHARDS};
use gentoo_interner::{ArenaExhausted, GlobalState, IdSpaceExhausted, LassoState};

#[test]
fn shard_index_is_the_remainder() {
    assert_eq!(N_SHARDS, 32);
    assert_eq!(shard_index(0), 0);
    assert_eq!(shard_index(31), 31);
    assert_eq!(shard_index(32), 0);
    assert_eq!(shard_index(1_000_003), 3);
    assert_eq!(shard_index(u64::MAX), 31);
}

#[test]
fn slots_beyond_the_ids_have_none() {
    assert_eq!(id_for_slot(0), Ok(0));
    assert_eq!(id_for_slot(7), Ok(7));
    assert_eq!(id_for_slot(u32::MAX as usize), Ok(u32::MAX));
    assert_eq!(id_for_slot(u32::MAX as usize + 1), Err(IdSpaceExhausted));
}

#[test]
fn state_shard_is_in_range_and_fixed() {
    let state = GlobalState::new();
    for i in 0..200 {
        let s = format!("shard {i}");
        let shard = state.shard_for(&s);
        assert!(shard < N_SHARDS);
        assert_eq!(state.shard_for(&s), shard);
    }
}

#[test]
fn state_ids_count_up_from_zero() {
    let state = GlobalState::new();
    assert_eq!(state.lookup(&0), None);
    assert_eq!(state.get_or_intern("a"), Ok(0));
    assert_eq!(state.get_or_intern("b"), Ok(1));
    assert_eq!(state.get_or_intern("a"), Ok(0));
    assert_eq!(state.get_or_intern(""), Ok(2));
    assert_eq!(state.resolve(&0), "a");
    assert_eq!(state.resolve(&1), "b");
    assert_eq!(state.resolve(&2), "");
    assert_eq!(state.lookup(&1), Some("b"));
    assert_eq!(state.lookup(&3), None);
    assert_eq!(state.lookup(&u32::MAX), None);
}

#[test]
fn state_round_trips_many() {
    let state = GlobalState::new();
    let strings: Vec<String> = (0..1024).map(|i| format!("many_{i:08}")).collect();
    let ids: Vec<u32> = strings.iter().map(|s| state.get_or_intern(s).unwrap()).collect();
    for (id, s) in ids.iter().zip(strings.iter()) {
        assert_eq!(state.resolve(id), s);
        assert_eq!(state.get_or_intern(s), Ok(*id));
    }
}

#[test]
fn states_are_independent() {
    let one = GlobalState::new();
    let two = GlobalState::new();
    assert_eq!(one.get_or_intern("x"), Ok(0));
    assert_eq!(two.get_or_intern("y"), Ok(0));
    assert_eq!(one.resolve(&0), "x");
    assert_eq!(two.resolve(&0), "y");
}

#[test]
fn lasso_state_round_trips() {
    let state = LassoState::new();
    assert_eq!(state.lookup(&0), None);
    let a = state.get_or_intern("a").unwrap();
    let b = state.get_or_intern("b").unwrap();
    assert_eq!((a, b), (0, 1));
    assert_eq!(state.get_or_intern("a"), Ok(a));
    assert_eq!(state.resolve(&a), "a");
    assert_eq!(state.resolve(&b), "b");
    assert_eq!(state.lookup(&b), Some("b"));
    assert_eq!(state.lookup(&2), None);
    assert_eq!(state.lookup(&u32::MAX), None);
}

#[test]
fn an_arena_that_refuses_gives_no_id() {
    let rodeo: lasso::ThreadedRodeo = lasso::ThreadedRodeo::with_capacity_and_memory_limits(
        lasso::Capacity::new(50, NonZeroUsize::new(10).unwrap()),
        lasso::MemoryLimits::for_memory_usage(10),
    );
    assert_eq!(id_for_spur(rodeo.try_get_or_intern("0123456789")), Ok(0));
    assert_eq!(id_for_spur(rodeo.try_get_or_intern("a")), Err(ArenaExhausted));
}

#[test]
fn lasso_state_grows_past_its_first_allocation() {
    let state = LassoState::new();
    let strings: Vec<String> = (0..64).map(|i| format!("{i:01000}")).collect();
    let ids: Vec<u32> = strings.iter().map(|s| state.get_or_intern(s).unwrap()).collect();
    for (id, s) in ids.iter().zip(strings.iter()) {
        assert_eq!(state.resolve(id), s);
        assert_eq!(state.lookup(id), Some(s.as_str()));
        assert_eq!(state.get_or_intern(s), Ok(*id));
    }
}
