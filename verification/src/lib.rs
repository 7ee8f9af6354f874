//! String interning for Gentoo-related crates.
//!
//! Provides a flexible interning system for reducing memory usage when
//! processing large numbers of repeated strings. Functions state in their contracts what they
//! do, and Verus proves that they do it. An interned string hands its key on to be hashed and
//! shown; what that feeds or writes is up to the type of the key. Derived impls state nothing.
//!
//! # Components
//!
//! - [`Interner`]: Trait for interning strings into compact keys
//! - [`Interned<I>`](Interned): An interned string key parameterized by interner type
//! - [`GlobalInterner`]: Process-wide interner with `u32` keys, `Copy`
//! - [`NoInterner`]: No deduplication, `Clone` only
//! - [`DefaultInterner`]: The interner to use where nothing speaks for another
//! - [`GlobalState`]: A store of strings for an interner of one's own: papaya-backed, lock-free
//! - [`LassoState`]: A store of strings for an interner of one's own: lasso-backed, arena alloc
//! - [`laws`]: What holds across calls
//!
//! # Example
//!
//! ```
//! use gentoo_interner::{Interned, DefaultInterner};
//!
//! let interned = Interned::<DefaultInterner>::intern("amd64");
//! assert_eq!(interned.resolve(), "amd64");
//! ```

use vstd::prelude::*;

pub mod format;
pub mod global_interner;
mod hand_on;
pub mod interned;
pub mod interner;
pub mod lasso_state;
pub mod laws;
pub mod no_interner;
pub mod state;
pub mod text;

pub use crate::global_interner::GlobalInterner;
pub use crate::interned::Interned;
pub use crate::interner::Interner;
pub use crate::lasso_state::{ArenaExhausted, LassoState};
pub use crate::no_interner::{BoxedText, NoInterner};
pub use crate::state::{GlobalState, IdSpaceExhausted};

verus! {

/// Default interner type: [`GlobalInterner`], process-global with `Copy` keys.
pub type DefaultInterner = GlobalInterner;

} // verus!
