//! Naming conventions for identifiers, as the `inflections` crate defines them.
//!
//! The conversions depend on Unicode case tables, so their results are given
//! names here instead of definitions. Each executable function below is a thin
//! call into `inflections` whose contract ties its result to the matching name.

use vstd::prelude::*;

verus! {

/// The text that `inflections::case::to_pascal_case` returns for `text`.
pub uninterp spec fn pascal_case_of(text: Seq<char>) -> Seq<char>;

/// The text that `inflections::case::to_snake_case` returns for `text`.
pub uninterp spec fn snake_case_of(text: Seq<char>) -> Seq<char>;

/// The text that `inflections::case::to_constant_case` returns for `text`.
pub uninterp spec fn constant_case_of(text: Seq<char>) -> Seq<char>;

/// Calls `inflections::case::to_pascal_case`.
///
/// Not proved: that the result is a function of the characters of `text` alone,
/// which is what naming it claims. `inflections` goes through the characters
/// once and keeps nothing between calls.
#[verifier::external_body]
pub(crate) fn to_pascal_case(text: &str) -> (cased: String)
    ensures
        cased@ == pascal_case_of(text@),
{
    inflections::case::to_pascal_case(text)
}

/// Calls `inflections::case::to_snake_case`.
///
/// Not proved: that the result is a function of the characters of `text` alone.
#[verifier::external_body]
pub(crate) fn to_snake_case(text: &str) -> (cased: String)
    ensures
        cased@ == snake_case_of(text@),
{
    inflections::case::to_snake_case(text)
}

/// Calls `inflections::case::to_constant_case`.
///
/// Not proved: that the result is a function of the characters of `text` alone.
#[verifier::external_body]
pub(crate) fn to_constant_case(text: &str) -> (cased: String)
    ensures
        cased@ == constant_case_of(text@),
{
    inflections::case::to_constant_case(text)
}

} // verus!
