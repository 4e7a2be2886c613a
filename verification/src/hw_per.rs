//! The headword in Persian script.

use vstd::prelude::*;
use crate::error::{Element, ExtractError};
use crate::markup::{first_of, first_text, selected_texts, PERSIAN_SELECTOR};
use crate::profiles::{canonical, canonicalize, Profile};

verus! {

/// The Persian-script headword of the entry `fragment`: the canonical form of
/// the text of its first such element, none where the entry has no such
/// element.
pub open spec fn persian_headword(fragment: Seq<char>) -> Option<Seq<char>> {
    match first_of(selected_texts(fragment, PERSIAN_SELECTOR@)) {
        Some(text) => Some(canonical(text, Profile::PersianHeadword)),
        None => None,
    }
}

/// The Persian-script headword of the entry `fragment`. An entry without one
/// is refused.
pub fn get_hw_per(fragment: &str) -> (r: Result<String, ExtractError>)
    ensures
        match persian_headword(fragment@) {
            Some(headword) => r matches Ok(found) && found@ == headword,
            None => r == Err::<String, ExtractError>(
                ExtractError::MissingRequiredElement { element: Element::PersianHeadword },
            ),
        },
{
    match first_text(fragment, PERSIAN_SELECTOR) {
        Some(text) => Ok(clean_hw_per(text.as_str())),
        None => Err(ExtractError::MissingRequiredElement { element: Element::PersianHeadword }),
    }
}

/// The canonical form of a Persian-script headword.
pub fn clean_hw_per(input: &str) -> (out: String)
    ensures
        out@ == canonical(input@, Profile::PersianHeadword),
{
    canonicalize(input, Profile::PersianHeadword)
}

} // verus!
