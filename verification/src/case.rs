//! Letter-case conversions of field names, through `convert_case`.

use vstd::prelude::*;

use convert_case::{Case, Casing};

use crate::text::str_eq;

verus! {

/// `s` converted to PascalCase by `convert_case` (`to_case(Case::Pascal)`).
pub uninterp spec fn pascal_case_of(s: Seq<char>) -> Seq<char>;

/// `s` converted to snake_case by `convert_case` (`to_case(Case::Snake)`).
pub uninterp spec fn snake_case_of(s: Seq<char>) -> Seq<char>;

/// Whether `s` is in PascalCase: `convert_case` decides `is_case` by converting and
/// comparing the result with the input.
pub open spec fn is_pascal_case(s: Seq<char>) -> bool {
    pascal_case_of(s) == s
}

/// `Casing::to_case(s, Case::Pascal)`; the result depends only on the characters of `s`.
#[verifier::external_body]
pub(crate) fn to_pascal_case(s: &str) -> (r: String)
    ensures
        r@ == pascal_case_of(s@),
{
    s.to_case(Case::Pascal)
}

/// `Casing::to_case(s, Case::Snake)`; the result depends only on the characters of `s`.
#[verifier::external_body]
pub(crate) fn to_snake_case(s: &str) -> (r: String)
    ensures
        r@ == snake_case_of(s@),
{
    s.to_case(Case::Snake)
}

/// Whether `s` is in PascalCase, decided as `Casing::is_case(Case::Pascal)` decides it.
pub fn is_pascal(s: &str) -> (r: bool)
    ensures
        r == is_pascal_case(s@),
{
    let p = to_pascal_case(s);
    str_eq(p.as_str(), s)
}

} // verus!
