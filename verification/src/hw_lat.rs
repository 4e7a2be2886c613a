//! The headword in Latin transliteration.

use vstd::prelude::*;
use vstd::string::StringExecFns;
use crate::markup::{first_markup, first_of, selected_markup, LATIN_SELECTOR};
use crate::profiles::{
    canonical, canonicalize, is_canonical, lemma_canonical_fixed_point, rules_of, Profile,
};
use crate::rewrite::matches_at;

verus! {

/// What stands for the Latin headword of an entry that has none.
pub const NOT_AVAILABLE: &'static str = "N/A";

/// The markup of the transliteration of the entry `fragment`: that of its
/// first such element, none where the entry has no such element.
pub open spec fn latin_markup(fragment: Seq<char>) -> Option<Seq<char>> {
    first_of(selected_markup(fragment, LATIN_SELECTOR@))
}

/// The Latin headword of an entry whose transliteration, if it has one, was
/// rendered as `rendered`.
pub open spec fn latin_headword(rendered: Option<Seq<char>>) -> Seq<char> {
    match rendered {
        Some(text) => canonical(text, Profile::LatinHeadword),
        None => NOT_AVAILABLE@,
    }
}

/// The stand-in is in canonical form: canonicalized as a Latin headword, it
/// stays as it is.
pub proof fn lemma_stand_in_is_canonical()
    ensures
        canonical(NOT_AVAILABLE@, Profile::LatinHeadword) == NOT_AVAILABLE@,
{
    reveal_strlit("N/A");
    let text = NOT_AVAILABLE@;
    let rules = rules_of(Profile::LatinHeadword);
    assert(text.len() == 3);
    assert forall|k: int, i: int| 0 <= k < rules.len() implies !#[trigger] matches_at(
        text,
        rules[k].pattern,
        i,
    ) by {
        let pattern = rules[k].pattern;
        if matches_at(text, pattern, i) {
            // No pattern begins with a scalar value of the stand-in.
            assert(text.subrange(i, i + pattern.len())[0] == pattern[0]);
        }
    }
    assert(is_canonical(text, Profile::LatinHeadword));
    lemma_canonical_fixed_point(text, Profile::LatinHeadword);
}

/// The markup of the transliteration of the entry `fragment`, as it goes to
/// the renderer; none where the entry has no transliteration, which is no
/// fault.
pub fn get_hw_lat(fragment: &str) -> (markup: Option<String>)
    ensures
        markup.deep_view() == latin_markup(fragment@),
{
    first_markup(fragment, LATIN_SELECTOR)
}

/// The Latin headword of an entry whose transliteration, if it has one, was
/// rendered as `rendered`.
pub fn headword_latin(rendered: Option<&str>) -> (out: String)
    ensures
        out@ == latin_headword(rendered.deep_view()),
{
    match rendered {
        Some(text) => clean_hw_lat(text),
        None => String::from_str(NOT_AVAILABLE),
    }
}

/// The canonical form of a rendered transliteration.
pub fn clean_hw_lat(input: &str) -> (out: String)
    ensures
        out@ == canonical(input@, Profile::LatinHeadword),
{
    canonicalize(input, Profile::LatinHeadword)
}

} // verus!
