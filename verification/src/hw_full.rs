//! The headword as a whole.

use vstd::prelude::*;
use crate::error::{Element, ExtractError};
use crate::markup::{first_markup, first_of, selected_markup, HEADWORD_SELECTOR};
use crate::profiles::{canonical, canonicalize, Profile};

verus! {

/// The markup of the headword of the entry `fragment`: that of its first
/// headword element, none where the entry has no such element.
pub open spec fn headword_markup(fragment: Seq<char>) -> Option<Seq<char>> {
    first_of(selected_markup(fragment, HEADWORD_SELECTOR@))
}

/// The markup of the headword of the entry `fragment`, as it goes to the
/// renderer. An entry without a headword is refused.
pub fn select_full_headword(fragment: &str) -> (r: Result<String, ExtractError>)
    ensures
        match headword_markup(fragment@) {
            Some(markup) => r matches Ok(found) && found@ == markup,
            None => r == Err::<String, ExtractError>(
                ExtractError::MissingRequiredElement { element: Element::Headword },
            ),
        },
{
    match first_markup(fragment, HEADWORD_SELECTOR) {
        Some(markup) => Ok(markup),
        None => Err(ExtractError::MissingRequiredElement { element: Element::Headword }),
    }
}

/// The canonical form of a rendered headword.
pub fn clean_hw_full(input: &str) -> (out: String)
    ensures
        out@ == canonical(input@, Profile::FullHeadword),
{
    canonicalize(input, Profile::FullHeadword)
}

} // verus!
