//! The process-wide interner.

use vstd::prelude::*;

use crate::interner::Interner;

verus! {

/// `symbol_table::GlobalSymbol`, a handle to a string in the symbol table of this process, as
/// an opaque type.
#[verifier::external_type_specification]
#[verifier::external_body]
pub struct ExGlobalSymbol(symbol_table::GlobalSymbol);

/// The string that the symbol table of this process comes to hold under `symbol`, or `None`
/// where it never holds one.
///
/// The table only ever grows and strings in it are never freed, so the string of a symbol is
/// the same for the whole run. A symbol means something only in the process that made it.
pub uninterp spec fn symbol_text(symbol: symbol_table::GlobalSymbol) -> Option<Seq<char>>;

/// The number that `symbol` wraps.
pub uninterp spec fn symbol_number(symbol: symbol_table::GlobalSymbol) -> u32;

/// `GlobalSymbol::from` of a string: the one symbol that the table has for `s`. Interning the
/// same string again gives the same symbol, so no other symbol has this text. What else the
/// table holds at that moment is left unsaid.
///
/// It panics once a shard of the table holds as many strings as a symbol can number, which no
/// caller can see beforehand.
#[verifier::external_body]
fn symbol_for(s: &str) -> (symbol: symbol_table::GlobalSymbol)
    ensures
        symbol_text(symbol) == Some(s@),
        forall|other: symbol_table::GlobalSymbol| #[trigger]
            symbol_text(other) == Some(s@) ==> other == symbol,
{
    symbol_table::GlobalSymbol::from(s)
}

/// `NonZeroU32::from` of a symbol: the number that the symbol wraps, which is never zero. A
/// symbol is nothing but its number, so no other symbol wraps the same one.
#[verifier::external_body]
fn number_of(symbol: symbol_table::GlobalSymbol) -> (number: u32)
    ensures
        number == symbol_number(symbol),
        number != 0,
        forall|other: symbol_table::GlobalSymbol| #[trigger]
            symbol_number(other) == number ==> other == symbol,
{
    std::num::NonZeroU32::from(symbol).get()
}

/// `GlobalSymbol::from` of a `NonZeroU32`: the symbol that wraps `number`. Zero has none.
#[verifier::external_body]
fn symbol_with(number: u32) -> (symbol: Option<symbol_table::GlobalSymbol>)
    ensures
        symbol is None <==> number == 0,
        symbol matches Some(symbol) ==> symbol_number(symbol) == number,
{
    std::num::NonZeroU32::new(number).map(symbol_table::GlobalSymbol::from)
}

/// `GlobalSymbol::as_str`: the string of a symbol that the table has. It panics on a symbol
/// that the table does not have. A caller learns that a symbol has a string only from a call
/// that came back with the symbol, so the table has it by the time that it is read here.
#[verifier::external_body]
fn text_of(symbol: symbol_table::GlobalSymbol) -> (text: &'static str)
    requires
        symbol_text(symbol) is Some,
    ensures
        symbol_text(symbol) == Some(text@),
{
    symbol.as_str()
}

/// Whether `key` is the number of `symbol`, which the table has: of this symbol and no other,
/// while no other symbol has the same text.
pub open spec fn names_symbol(key: u32, symbol: symbol_table::GlobalSymbol) -> bool {
    &&& key != 0
    &&& symbol_number(symbol) == key
    &&& symbol_text(symbol) is Some
    &&& forall|other: symbol_table::GlobalSymbol| #[trigger]
        symbol_number(other) == key ==> other == symbol
    &&& forall|other: symbol_table::GlobalSymbol| #[trigger]
        symbol_text(other) == symbol_text(symbol) ==> other == symbol
}

/// Global process-wide interner. Zero-sized type; all state lives in a
/// process-wide table. Keys are stable `u32` values, making
/// `Interned<GlobalInterner>` `Copy`.
///
/// The backing store is the sharded table behind `symbol_table::GlobalSymbol`.
#[derive(Debug, Clone, Copy, Default, PartialEq, Eq)]
pub struct GlobalInterner;

impl Interner for GlobalInterner {
    type Key = u32;

    open spec fn text(key: u32) -> Option<Seq<char>> {
        if exists|symbol: symbol_table::GlobalSymbol| names_symbol(key, symbol) {
            symbol_text(
                choose|symbol: symbol_table::GlobalSymbol| names_symbol(key, symbol),
            )
        } else {
            None
        }
    }

    fn get_or_intern(s: &str) -> (key: u32) {
        let symbol = symbol_for(s);
        let key: u32 = number_of(symbol);
        assert(names_symbol(key, symbol));
        proof {
            assert forall|a: u32, b: u32|
                Self::text(a) is Some && Self::text(a) == Self::text(b) implies a == b by {
                one_key_per_text(a, b);
            }
        }
        key
    }

    fn resolve(key: &u32) -> (s: &str) {
        let symbol = symbol_with(*key).unwrap();
        text_of(symbol)
    }
}

/// No two keys of the process-wide interner stand for the same string.
pub proof fn one_key_per_text(a: u32, b: u32)
    requires
        GlobalInterner::text(a) is Some,
        GlobalInterner::text(a) == GlobalInterner::text(b),
    ensures
        a == b,
{
    let for_a = choose|symbol: symbol_table::GlobalSymbol| names_symbol(a, symbol);
    let for_b = choose|symbol: symbol_table::GlobalSymbol| names_symbol(b, symbol);
    assert(for_a == for_b);
}

} // verus!
