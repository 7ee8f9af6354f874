# gentoo-interner

String interning for Gentoo-related Rust crates, verified with Verus.

```rust
use gentoo_interner::{Interned, DefaultInterner};

let a = Interned::<DefaultInterner>::intern("amd64");
assert_eq!(a.resolve(), "amd64");

let b = Interned::<DefaultInterner>::intern("amd64");
assert_eq!(a, b); // Same key, cheap equality
```

## Layout

| Path | What it holds |
|------|---------------|
| `src/interner.rs` | the trait `Interner` |
| `src/interned.rs` | `Interned<I>`, an interned string |
| `src/global_interner.rs` | `GlobalInterner`: process-wide, `u32` keys, over `symbol_table` |
| `src/no_interner.rs` | `NoInterner`: a `Box<str>` for each string |
| `src/state.rs` | `GlobalState`: a store that threads share, over `papaya` and `boxcar` |
| `src/lasso_state.rs` | `LassoState`: a store in an arena, over `lasso` |
| `src/text.rs` | what is taken from `std` about text |
| `src/format.rs` | what is taken from `std::fmt` |
| `src/hand_on.rs` | what hands a value on to its own `Hash` or `Debug` |
| `src/laws.rs` | what is proved across calls |
| `app/` | process-wide interners over the two stores; serde |

## What is proved

- Resolving an interned string gives back the string that was interned.
- Two interned strings are equal exactly when the strings are.
- An interned string is compared, ordered, hashed and shown by its key.
- Every store keeps one id for each string, whichever threads intern it.

The proofs rest on the contracts of the outside calls, each of which stands beside the call
with a doc comment that says what it claims.

## License

MIT
