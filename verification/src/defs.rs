//! The body of the definitions.

use vstd::prelude::*;
use crate::markup::{
    regex_replace_all, regex_replaced, CITATION_PATTERN, HEADWORD_PATTERN, LANG_PATTERN,
};
use crate::profiles::{canonical, canonicalize, Profile};

verus! {

/// The markup of an entry without its citation markers, its headword and its
/// language tag, cut in that order. Each cut runs from the first opening tag
/// of its kind to the last closing tag of that kind, whatever stands between
/// them: where one line holds two spans of a kind, what stands between the
/// two goes as well.
pub open spec fn body_markup(fragment: Seq<char>) -> Seq<char> {
    let without_citations = regex_replaced(CITATION_PATTERN@, fragment, Seq::empty());
    let without_headword = regex_replaced(HEADWORD_PATTERN@, without_citations, Seq::empty());
    regex_replaced(LANG_PATTERN@, without_headword, Seq::empty())
}

/// The markup of the definitions of the entry `input`, as it goes to the
/// renderer.
pub fn except_headword(input: &str) -> (out: String)
    ensures
        out@ == body_markup(input@),
{
    proof {
        reveal_strlit("");
        assert(""@ =~= Seq::<char>::empty());
    }
    let without_citations = regex_replace_all(CITATION_PATTERN, input, "");
    let without_headword = regex_replace_all(HEADWORD_PATTERN, without_citations.as_str(), "");
    regex_replace_all(LANG_PATTERN, without_headword.as_str(), "")
}

/// The canonical form of rendered definitions.
pub fn clean_defs(input: &str) -> (out: String)
    ensures
        out@ == canonical(input@, Profile::Definitions),
{
    canonicalize(input, Profile::Definitions)
}

} // verus!
