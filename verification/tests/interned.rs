use std::collections::hash_map::DefaultHasher;
use std::collections::HashSet;
use std::hash::{Hash, Hasher};

use gentoo_interner::{DefaultInterner, GlobalInterner, Interned, Interner, NoInterner};

#[test]
fn test_interned_basic() {
    let a = Interned::<DefaultInterner>::intern("test");
    assert_eq!(a.resolve(), "test");
    assert_eq!(a.as_str(), "test");
}

#[test]
fn test_interned_equality() {
    let a = Interned::<DefaultInterner>::intern("foo");
    let b = Interned::<DefaultInterner>::intern("foo");
    let c = Interned::<DefaultInterner>::intern("bar");

    assert_eq!(a, b);
    assert_ne!(a, c);
}

#[test]
fn test_interned_copy() {
    let a = Interned::<DefaultInterner>::intern("test");
    #[allow(clippy::clone_on_copy)]
    let b = a.clone();
    assert_eq!(a, b);
}

#[test]
fn test_interned_from_str() {
    let a: Interned<DefaultInterner> = "hello".into();
    assert_eq!(a.as_str(), "hello");
}

#[test]
fn test_interned_deref() {
    let a = Interned::<DefaultInterner>::intern("test");
    assert!(a.starts_with("te"));
    assert!(a.ends_with("st"));
}

#[test]
fn test_interned_as_ref() {
    let a = Interned::<DefaultInterner>::intern("test");
    let s: &str = a.as_ref();
    assert_eq!(s, "test");
}

#[test]
fn test_interned_display() {
    let a = Interned::<DefaultInterner>::intern("test");
    assert_eq!(format!("{}", a), "test");
}

#[test]
fn test_interned_str_eq() {
    let a = Interned::<DefaultInterner>::intern("test");
    assert_eq!(a, "test");
    assert_eq!("test", a);
    assert_ne!(a, "other");
}

/// Roundtrip stress test: intern many unique strings, resolve them
/// all back, verify every one round-trips.
#[test]
fn test_roundtrip_many() {
    let prefix = "rt_many_1_";
    let strings: Vec<String> = (0..1024).map(|i| format!("{prefix}{i:08}")).collect();
    let keys: Vec<Interned<DefaultInterner>> =
        strings.iter().map(|s| Interned::intern(s)).collect();
    for (k, s) in keys.iter().zip(strings.iter()) {
        assert_eq!(k.as_str(), s, "roundtrip failed for {s}");
    }
}

/// Same string interned multiple times must always yield the same key,
/// regardless of interleaving with other interns.
#[test]
fn test_intern_stable() {
    let s = "stable_1".to_string();
    let first = Interned::<DefaultInterner>::intern(&s);
    for noise in 0..100 {
        Interned::<DefaultInterner>::intern(&format!("noise_{noise}"));
        let again = Interned::<DefaultInterner>::intern(&s);
        assert_eq!(first, again, "intern of {s} was not stable");
    }
}

#[test]
fn global_keys_are_stable_and_distinct() {
    let amd64 = GlobalInterner::get_or_intern("amd64");
    let arm64 = GlobalInterner::get_or_intern("arm64");
    assert_eq!(amd64, GlobalInterner::get_or_intern("amd64"));
    assert_ne!(amd64, arm64);
    assert_ne!(amd64, 0);
    assert_eq!(GlobalInterner::resolve(&amd64), "amd64");
    assert_eq!(GlobalInterner::resolve(&arm64), "arm64");
}

#[test]
fn interned_global_key_is_four_bytes() {
    assert_eq!(std::mem::size_of::<Interned<GlobalInterner>>(), 4);
    assert_eq!(std::mem::size_of::<GlobalInterner>(), 0);
}

#[test]
fn interned_global_key_is_copy() {
    let a = Interned::<GlobalInterner>::intern("copied");
    let b = a;
    assert_eq!(a, b);
    assert_eq!(a.resolve(), b.resolve());
}

#[test]
fn intern_of_a_resolved_string_is_equal() {
    let a = Interned::<DefaultInterner>::intern("sys-apps/portage");
    let again = Interned::<DefaultInterner>::intern(a.resolve());
    assert_eq!(a, again);
}

#[test]
fn edge_strings_round_trip() {
    for s in ["", " ", "a\0b", "\u{e9}\u{1f980}", "line\nbreak"] {
        assert_eq!(Interned::<GlobalInterner>::intern(s).resolve(), s);
        assert_eq!(Interned::<NoInterner>::intern(s).resolve(), s);
    }
}

#[test]
fn owned_string_converts() {
    let a: Interned<DefaultInterner> = String::from("hello").into();
    let b: Interned<DefaultInterner> = "hello".into();
    assert_eq!(a, b);
    assert_eq!(a.as_str(), "hello");
}

#[test]
fn compares_with_unsized_str_from_either_side() {
    let a = Interned::<DefaultInterner>::intern("test");
    let same: &str = "test";
    let other: &str = "other";
    assert!(a == *same);
    assert!(*same == a);
    assert!(a != *other);
    assert!(*other != a);
    assert!("other" != a);
}

#[test]
fn order_is_that_of_the_keys() {
    let a = Interned::<GlobalInterner>::intern("order a");
    let b = Interned::<GlobalInterner>::intern("order b");
    let key_a = GlobalInterner::get_or_intern("order a");
    let key_b = GlobalInterner::get_or_intern("order b");
    assert_eq!(a.cmp(&b), key_a.cmp(&key_b));
    assert_eq!(a.partial_cmp(&b), key_a.partial_cmp(&key_b));
    assert_eq!(a.cmp(&a), std::cmp::Ordering::Equal);
    assert_eq!(a < b, key_a < key_b);
}

#[test]
fn equal_interned_strings_hash_alike() {
    let mut seen = HashSet::new();
    assert!(seen.insert(Interned::<GlobalInterner>::intern("x86")));
    assert!(!seen.insert(Interned::<GlobalInterner>::intern("x86")));
    assert!(seen.insert(Interned::<GlobalInterner>::intern("ppc")));
    assert_eq!(seen.len(), 2);
}

fn hash_of<T: Hash + ?Sized>(value: &T) -> u64 {
    let mut state = DefaultHasher::new();
    value.hash(&mut state);
    state.finish()
}

#[test]
fn hash_is_that_of_the_key_alone() {
    let a = Interned::<GlobalInterner>::intern("hashed");
    let b = Interned::<GlobalInterner>::intern("hashed");
    assert_eq!(hash_of(&a), hash_of(&GlobalInterner::get_or_intern("hashed")));
    assert_eq!(hash_of(&a), hash_of(&b));
    assert_ne!(hash_of(&a), DefaultHasher::new().finish());
    let c = Interned::<NoInterner>::intern("hashed");
    assert_eq!(hash_of(&c), hash_of("hashed"));
    assert_eq!(hash_of(&NoInterner::get_or_intern("hashed")), hash_of("hashed"));
    assert_ne!(hash_of(&c), hash_of("other"));
}

#[test]
fn partial_order_is_the_order() {
    for (s, t) in [("a", "b"), ("b", "a"), ("same", "same")] {
        let a = Interned::<GlobalInterner>::intern(s);
        let b = Interned::<GlobalInterner>::intern(t);
        assert_eq!(a.partial_cmp(&b), Some(a.cmp(&b)));
        assert_eq!(a.cmp(&b), b.cmp(&a).reverse());
        assert_eq!(a.cmp(&b) == std::cmp::Ordering::Equal, a == b);
        let c = Interned::<NoInterner>::intern(s);
        let d = Interned::<NoInterner>::intern(t);
        assert_eq!(c.partial_cmp(&d), Some(c.cmp(&d)));
        assert_eq!(c.cmp(&d), s.cmp(t));
    }
}

#[test]
fn debug_shows_the_key() {
    let a = Interned::<GlobalInterner>::intern("shown");
    let key = GlobalInterner::get_or_intern("shown");
    assert_eq!(format!("{a:?}"), format!("Interned({key})"));
}

#[test]
fn no_interner_keeps_the_text_in_each_key() {
    let a = Interned::<NoInterner>::intern("foo");
    let b = Interned::<NoInterner>::intern("foo");
    let c = Interned::<NoInterner>::intern("bar");
    assert_eq!(a, b);
    assert_ne!(a, c);
    assert_eq!(a.clone(), a);
    assert_eq!(a.clone().resolve(), "foo");
    assert_eq!(a, "foo");
    assert_eq!("bar", c);
    assert!(c < a);
    assert_ne!(a.resolve().as_ptr(), b.resolve().as_ptr());
}

/// An interner as a user of the library writes one.
#[derive(Clone)]
struct OwnedKeys;

impl Interner for OwnedKeys {
    type Key = String;

    fn get_or_intern(s: &str) -> String {
        s.to_owned()
    }

    fn resolve(key: &String) -> &str {
        key
    }
}

#[test]
fn users_bring_interners_of_their_own() {
    let a = Interned::<OwnedKeys>::intern("foo");
    let b: Interned<OwnedKeys> = "foo".into();
    assert_eq!(a, b);
    assert_eq!(a.clone(), b);
    assert_ne!(a, "bar");
    assert_eq!(a.resolve(), "foo");
    assert_eq!(format!("{a:?}"), "Interned(\"foo\")");
    assert_eq!(a.partial_cmp(&Interned::intern("goo")), Some(std::cmp::Ordering::Less));
    assert_eq!(a.cmp(&Interned::intern("goo")), std::cmp::Ordering::Less);
    assert_eq!(hash_of(&a), hash_of("foo"));
    let mut seen = HashSet::new();
    assert!(seen.insert(a));
    assert!(!seen.insert(b));
}

#[test]
fn fallback_keys_give_access_to_their_text() {
    let key = NoInterner::get_or_intern("amd64");
    assert_eq!(&*key, "amd64");
    assert_eq!(key.len(), 5);
    assert!(key.starts_with("amd"));
    assert!(key < NoInterner::get_or_intern("arm64"));
    assert_eq!(format!("{key:?}"), "\"amd64\"");
}

#[test]
fn only_equal_interned_strings_stand_level() {
    let a = Interned::<GlobalInterner>::intern("level");
    let b = Interned::<GlobalInterner>::intern("level");
    let c = Interned::<GlobalInterner>::intern("uneven");
    assert_eq!(a.partial_cmp(&b), Some(std::cmp::Ordering::Equal));
    assert_ne!(a.partial_cmp(&c), Some(std::cmp::Ordering::Equal));
}

#[test]
fn no_interner_orders_as_text() {
    let ten = Interned::<NoInterner>::intern("10");
    let nine = Interned::<NoInterner>::intern("9");
    let nines = Interned::<NoInterner>::intern("99");
    let accent = Interned::<NoInterner>::intern("\u{e9}");
    let crab = Interned::<NoInterner>::intern("\u{1f980}");
    assert_eq!(ten.cmp(&nine), std::cmp::Ordering::Less);
    assert_eq!(ten.partial_cmp(&nine), Some(std::cmp::Ordering::Less));
    assert_eq!(nines.partial_cmp(&nine), Some(std::cmp::Ordering::Greater));
    assert_eq!(nine.partial_cmp(&nine.clone()), Some(std::cmp::Ordering::Equal));
    assert!(accent < crab);
    assert!(nine < accent);
}

#[test]
fn no_interner_debug_shows_the_text() {
    let plain = Interned::<NoInterner>::intern("test");
    assert_eq!(format!("{plain:?}"), "Interned(\"test\")");
    let a = Interned::<NoInterner>::intern("te\"st");
    assert_eq!(format!("{a:?}"), "Interned(\"te\\\"st\")");
}

#[test]
fn display_writes_the_text_and_nothing_else() {
    let a = Interned::<NoInterner>::intern("x86");
    assert_eq!(format!("[{a}]"), "[x86]");
    assert_eq!(a.to_string(), "x86");
}
