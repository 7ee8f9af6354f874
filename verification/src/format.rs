//! What the library takes from `std::fmt`.

use vstd::prelude::*;

verus! {

/// `std::fmt::Formatter`, as an opaque type.
#[verifier::external_type_specification]
#[verifier::external_body]
pub struct ExFormatter<'a>(std::fmt::Formatter<'a>);

/// `std::fmt::Error`, as an opaque type.
#[verifier::external_type_specification]
#[verifier::external_body]
pub struct ExFormatError(std::fmt::Error);

/// The text that `f` was handed to write so far.
pub uninterp spec fn written(f: std::fmt::Formatter<'_>) -> Seq<char>;

/// Whether the place that `f` writes to took what `f` was last asked to write.
pub uninterp spec fn took_last(f: std::fmt::Formatter<'_>) -> bool;

/// How `Debug` shows `text`: in quotes, with escapes where they are needed.
pub uninterp spec fn quoted(text: Seq<char>) -> Seq<char>;

/// `Formatter::write_str`: hands `text` to the formatter, as it is, and answers whether the
/// place that it goes to took it.
#[verifier::external_body]
pub(crate) fn write_text(f: &mut std::fmt::Formatter<'_>, text: &str) -> (result: Result<
    (),
    std::fmt::Error,
>)
    ensures
        written(*final(f)) == written(*old(f)) + text@,
        result is Ok <==> took_last(*final(f)),
{
    f.write_str(text)
}

/// `Debug::fmt` of `str`: hands the text to the formatter in quotes, and answers whether the
/// place that it goes to took it. It stops early where that takes no more.
#[verifier::external_body]
pub(crate) fn write_quoted(f: &mut std::fmt::Formatter<'_>, text: &str) -> (result: Result<
    (),
    std::fmt::Error,
>)
    ensures
        result is Ok ==> written(*final(f)) == written(*old(f)) + quoted(text@),
        result is Ok <==> took_last(*final(f)),
{
    std::fmt::Debug::fmt(text, f)
}

} // verus!
