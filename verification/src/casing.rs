//! Identifier casing.
//!
//! Splitting an identifier into words and re-casing them is the work of the `convert_case` crate;
//! this module gives its result a name, and joins the segments of a scoped type name.

use vstd::prelude::*;
use convert_case::Casing;
use crate::text::{join, joined, texts};

verus! {

/// The two casings that generated Rust code uses.
#[derive(Clone, Copy, Debug, PartialEq, Eq, Structural)]
pub enum Case {
    /// `snake_case`: modules, functions, fields and arguments.
    Snake,
    /// `PascalCase`: types and enum variants.
    Pascal,
}

/// What `convert_case` turns `text` into for `case`, word boundaries being its default ones.
pub uninterp spec fn case_converted(text: Seq<char>, case: Case) -> Seq<char>;

/// `text` in snake case.
pub open spec fn snake(text: Seq<char>) -> Seq<char> {
    case_converted(text, Case::Snake)
}

/// `text` in Pascal case.
pub open spec fn pascal(text: Seq<char>) -> Seq<char> {
    case_converted(text, Case::Pascal)
}

/// Calls `convert_case::Casing::to_case`, which re-cases an identifier.
///
/// The contract claims that the result is a function of the text and of the case alone. Where the
/// words of an identifier begin and end is left to that crate.
#[verifier::external_body]
pub(crate) fn to_case(text: &str, case: Case) -> (converted: String)
    ensures
        converted@ == case_converted(text@, case),
{
    let case = match case {
        Case::Snake => convert_case::Case::Snake,
        Case::Pascal => convert_case::Case::Pascal,
    };
    text.to_case(case)
}

impl Case {
    /// The text that stands between two words in this case.
    pub open spec fn delimiter(self) -> Seq<char> {
        match self {
            Case::Snake => "_"@,
            Case::Pascal => ""@,
        }
    }

    /// The text that stands between two words in this case.
    pub fn delim(self) -> (delim: &'static str)
        ensures
            delim@ == self.delimiter(),
    {
        match self {
            Case::Snake => "_",
            Case::Pascal => "",
        }
    }
}

/// The segments of a scoped name, each re-cased, joined as `case` joins words.
pub open spec fn case_collected(case: Case, segments: Seq<Seq<char>>) -> Seq<char> {
    joined(segments.map_values(|s: Seq<char>| case_converted(s, case)), case.delimiter())
}

/// Re-cases every segment of a scoped name and joins them as `case` joins words.
pub fn collect_case(case: Case, segments: &Vec<String>) -> (name: String)
    ensures
        name@ == case_collected(case, texts(segments@)),
{
    let mut words: Vec<String> = Vec::new();
    let ghost expected = texts(segments@).map_values(|s: Seq<char>| case_converted(s, case));
    for i in 0..segments.len()
        invariant
            words@.len() == i,
            forall|j: int| 0 <= j < i ==> #[trigger] words@[j]@ == case_converted(
                segments@[j]@,
                case,
            ),
    {
        words.push(to_case(segments[i].as_str(), case));
    }
    assert(texts(words@) =~= expected);
    join(&words, case.delim())
}

} // verus!
