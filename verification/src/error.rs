//! Why an entry could not be read from its markup.

use vstd::prelude::*;

verus! {

/// An element that every entry must hold.
#[derive(Debug, Clone, Copy, PartialEq, Eq, Structural)]
pub enum Element {
    /// The headword as a whole.
    Headword,
    /// The part of the headword in Persian script.
    PersianHeadword,
}

/// A fault in one entry. It ends the work on that entry and is never retried.
#[derive(Debug, PartialEq, Eq)]
pub enum ExtractError {
    /// The markup lacks an element that every entry must hold.
    MissingRequiredElement { element: Element },
    /// The language tag, trimmed and without its final period, is in no
    /// known category.
    UnrecognizedLanguageTag { tag: String },
}

/// An extraction fault without its exec strings.
pub enum ExtractErrorModel {
    MissingRequiredElement { element: Element },
    UnrecognizedLanguageTag { tag: Seq<char> },
}

impl View for ExtractError {
    type V = ExtractErrorModel;

    open spec fn view(&self) -> ExtractErrorModel {
        match *self {
            ExtractError::MissingRequiredElement { element } => {
                ExtractErrorModel::MissingRequiredElement { element }
            },
            ExtractError::UnrecognizedLanguageTag { tag } => {
                ExtractErrorModel::UnrecognizedLanguageTag { tag: tag@ }
            },
        }
    }
}

} // verus!
