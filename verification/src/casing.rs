//! Case conversion of identifiers, done by the `convert_case` crate.

use convert_case::{Case, Casing};
use vstd::prelude::*;

verus! {

/// The two target cases this tool converts crate names into.
#[derive(Clone, Copy, Debug, PartialEq, Eq, Structural)]
pub enum TextCase {
    /// `snake_case`: words in lower case joined by `_`.
    Snake,
    /// `UPPER_SNAKE_CASE`: words in upper case joined by `_`.
    UpperSnake,
}

/// The text that `convert_case::Casing::to_case` gives for `text` converted into `case`.
pub uninterp spec fn case_converted(text: Seq<char>, case: TextCase) -> Seq<char>;

/// Calls `convert_case::Casing::to_case` on `text` with `Case::Snake` or `Case::UpperSnake`.
/// The contract claims only that the result is `case_converted` of the text and the case:
/// the word splitting and letter mapping are convert_case's and are not restated here.
#[verifier::external_body]
pub(crate) fn to_case(text: &str, case: TextCase) -> (r: String)
    ensures
        r@ == case_converted(text@, case),
{
    match case {
        TextCase::Snake => text.to_case(Case::Snake),
        TextCase::UpperSnake => text.to_case(Case::UpperSnake),
    }
}

} // verus!
