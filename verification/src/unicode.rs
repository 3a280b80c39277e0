//! The Unicode character properties and case mappings of the standard
//! library, as far as the generators use them.
//!
//! Their tables are not restated here. Each result has a name, and the
//! functions below say only that a call returns what its name stands for.

use vstd::prelude::*;

verus! {

/// What `str::to_lowercase` returns for the text `s`.
pub uninterp spec fn lowercase_of(s: Seq<char>) -> Seq<char>;

/// What `str::to_uppercase` returns for the text `s`.
pub uninterp spec fn uppercase_of(s: Seq<char>) -> Seq<char>;

/// The characters that `char::to_uppercase` yields for `c`.
pub uninterp spec fn char_uppercase_of(c: char) -> Seq<char>;

/// The characters that `char::to_lowercase` yields for `c`.
pub uninterp spec fn char_lowercase_of(c: char) -> Seq<char>;

/// What `char::is_uppercase` returns for `c`.
pub uninterp spec fn is_uppercase_char(c: char) -> bool;

/// What `char::is_whitespace` returns for `c`.
pub uninterp spec fn is_whitespace_char(c: char) -> bool;

/// Calls `str::to_lowercase`. The result is the lowercase form that the
/// standard library gives the whole text.
#[verifier::external_body]
pub(crate) fn str_to_lowercase(s: &str) -> (r: String)
    ensures
        r@ == lowercase_of(s@),
{
    s.to_lowercase()
}

/// Calls `str::to_uppercase`. The result is the uppercase form that the
/// standard library gives the whole text.
#[verifier::external_body]
pub(crate) fn str_to_uppercase(s: &str) -> (r: String)
    ensures
        r@ == uppercase_of(s@),
{
    s.to_uppercase()
}

/// Calls `char::to_uppercase` and collects what it yields.
#[verifier::external_body]
pub(crate) fn char_to_uppercase(c: char) -> (r: Vec<char>)
    ensures
        r@ == char_uppercase_of(c),
{
    c.to_uppercase().collect()
}

/// Calls `char::to_lowercase` and collects what it yields, which the
/// standard library documents to be one or more characters.
#[verifier::external_body]
pub(crate) fn char_to_lowercase(c: char) -> (r: Vec<char>)
    ensures
        r@ == char_lowercase_of(c),
        r@.len() >= 1,
{
    c.to_lowercase().collect()
}

/// Calls `char::is_uppercase`.
#[verifier::external_body]
pub(crate) fn char_is_uppercase(c: char) -> (r: bool)
    ensures
        r == is_uppercase_char(c),
{
    c.is_uppercase()
}

/// Calls `char::is_whitespace`.
#[verifier::external_body]
pub(crate) fn char_is_whitespace(c: char) -> (r: bool)
    ensures
        r == is_whitespace_char(c),
{
    c.is_whitespace()
}

/// What the `Debug` form of `str` shows for the text `s`: the text in
/// double quotes, with escapes.
pub uninterp spec fn debug_quoted(s: Seq<char>) -> Seq<char>;

/// Formats a text with `{:?}`, the `Debug` form of `str`.
#[verifier::external_body]
pub(crate) fn debug_text(s: &str) -> (r: String)
    ensures
        r@ == debug_quoted(s@),
{
    format!("{:?}", s)
}

/// The lowercase form of `s`; the empty text stays empty.
pub open spec fn lowered(s: Seq<char>) -> Seq<char> {
    if s.len() == 0 {
        s
    } else {
        lowercase_of(s)
    }
}

/// The uppercase form of `s`; the empty text stays empty.
pub open spec fn raised(s: Seq<char>) -> Seq<char> {
    if s.len() == 0 {
        s
    } else {
        uppercase_of(s)
    }
}

/// The lowercase form of `s`.
pub fn lowercase(s: &str) -> (r: String)
    ensures
        r@ == lowered(s@),
{
    if s.is_empty() {
        String::new()
    } else {
        str_to_lowercase(s)
    }
}

/// The uppercase form of `s`.
pub fn uppercase(s: &str) -> (r: String)
    ensures
        r@ == raised(s@),
{
    if s.is_empty() {
        String::new()
    } else {
        str_to_uppercase(s)
    }
}

} // verus!
