//! One entry of the dictionary: what is selected from its markup, and the
//! record that is assembled from it.
//!
//! The way from markup to record has a step outside this library: the
//! headword, the transliteration and the definitions are selected as markup,
//! and a renderer turns each into plain text. So the parts of an entry pass
//! here twice in one shape: once as `select_fields` reads them, then, with
//! the three rendered, as `assemble` takes them.

use vstd::prelude::*;
use vstd::string::StringExecFns;
use crate::charsets::{CharacterIntegrityViolation, Charsets, Field};
use crate::defs::{body_markup, clean_defs, except_headword};
use crate::error::{Element, ExtractError, ExtractErrorModel};
use crate::hw_full::{clean_hw_full, headword_markup, select_full_headword};
use crate::hw_lat::{get_hw_lat, headword_latin, latin_headword, latin_markup};
use crate::hw_per::clean_hw_per;
use crate::langs::{classify, lang_of, reports, Lang};
use crate::markup::{first_of, first_text, selected_texts, LANG_SELECTOR, PERSIAN_SELECTOR};
use crate::profiles::{canonical, Profile};

verus! {

/// The parts of one entry.
#[derive(Debug, Clone, PartialEq, Eq, Default)]
pub struct Selection {
    /// The headword as a whole.
    pub full_headword: String,
    /// The text of the headword in Persian script.
    pub persian_headword: String,
    /// The transliteration of the headword, where the entry has one.
    pub latin_headword: Option<String>,
    /// The text of the language tag, where the entry has one.
    pub language_tag: Option<String>,
    /// The entry without its citation markers, its headword and its language
    /// tag.
    pub definitions: String,
}

/// The parts of one entry, as texts.
pub struct SelectionModel {
    pub full_headword: Seq<char>,
    pub persian_headword: Seq<char>,
    pub latin_headword: Option<Seq<char>>,
    pub language_tag: Option<Seq<char>>,
    pub definitions: Seq<char>,
}

impl View for Selection {
    type V = SelectionModel;

    open spec fn view(&self) -> SelectionModel {
        SelectionModel {
            full_headword: self.full_headword@,
            persian_headword: self.persian_headword@,
            latin_headword: self.latin_headword.deep_view(),
            language_tag: self.language_tag.deep_view(),
            definitions: self.definitions@,
        }
    }
}

/// The record of one entry.
#[derive(Debug, PartialEq, Eq, PartialOrd, Ord, Clone, Hash, Default)]
pub struct Entry {
    /// The page of the dictionary that the entry stands on.
    pub page: u16,
    /// The markup of the entry as it was found.
    pub raw_html: String,
    /// The language that the entry is marked with.
    pub lang: Lang,
    /// The canonical form of the headword as a whole.
    pub headword_full: String,
    /// The canonical form of the headword in Persian script.
    pub headword_persian: String,
    /// The canonical form of the headword in Latin transliteration, or the
    /// stand-in for it.
    pub headword_latin: String,
    /// The canonical form of the definitions.
    pub definitions: String,
}

/// The record of one entry, as texts.
pub struct EntryModel {
    pub page: u16,
    pub raw_html: Seq<char>,
    pub lang: Lang,
    pub headword_full: Seq<char>,
    pub headword_persian: Seq<char>,
    pub headword_latin: Seq<char>,
    pub definitions: Seq<char>,
}

impl View for Entry {
    type V = EntryModel;

    open spec fn view(&self) -> EntryModel {
        EntryModel {
            page: self.page,
            raw_html: self.raw_html@,
            lang: self.lang,
            headword_full: self.headword_full@,
            headword_persian: self.headword_persian@,
            headword_latin: self.headword_latin@,
            definitions: self.definitions@,
        }
    }
}

/// The parts of the entry `fragment`, or the required element that it lacks:
/// the headword is looked for first, its Persian-script part second.
pub open spec fn selection_of(fragment: Seq<char>) -> Result<SelectionModel, Element> {
    match headword_markup(fragment) {
        None => Err(Element::Headword),
        Some(full_headword) => match first_of(selected_texts(fragment, PERSIAN_SELECTOR@)) {
            None => Err(Element::PersianHeadword),
            Some(persian_headword) => Ok(
                SelectionModel {
                    full_headword,
                    persian_headword,
                    latin_headword: latin_markup(fragment),
                    language_tag: first_of(selected_texts(fragment, LANG_SELECTOR@)),
                    definitions: body_markup(fragment),
                },
            ),
        },
    }
}

/// The parts of the entry `fragment`. The headword, the transliteration and
/// the definitions come as markup, to be rendered; the Persian-script
/// headword and the language tag come as text.
pub fn select_fields(fragment: &str) -> (r: Result<Selection, ExtractError>)
    ensures
        match selection_of(fragment@) {
            Ok(parts) => r matches Ok(found) && found@ == parts,
            Err(element) => r == Err::<Selection, ExtractError>(
                ExtractError::MissingRequiredElement { element },
            ),
        },
{
    let full_headword = match select_full_headword(fragment) {
        Ok(markup) => markup,
        Err(e) => { return Err(e); },
    };
    let persian_headword = match first_text(fragment, PERSIAN_SELECTOR) {
        Some(text) => text,
        None => {
            return Err(
                ExtractError::MissingRequiredElement { element: Element::PersianHeadword },
            );
        },
    };
    Ok(
        Selection {
            full_headword,
            persian_headword,
            latin_headword: get_hw_lat(fragment),
            language_tag: first_text(fragment, LANG_SELECTOR),
            definitions: except_headword(fragment),
        },
    )
}

/// The record of the entry on `page` with markup `raw_html` and the parts
/// `parts`, or the key of its language tag where no category holds it.
pub open spec fn assembled(page: u16, raw_html: Seq<char>, parts: SelectionModel) -> Result<
    EntryModel,
    Seq<char>,
> {
    match lang_of(parts.language_tag) {
        Err(key) => Err(key),
        Ok(lang) => Ok(
            EntryModel {
                page,
                raw_html,
                lang,
                headword_full: canonical(parts.full_headword, Profile::FullHeadword),
                headword_persian: canonical(parts.persian_headword, Profile::PersianHeadword),
                headword_latin: latin_headword(parts.latin_headword),
                definitions: canonical(parts.definitions, Profile::Definitions),
            },
        ),
    }
}

/// The record of the entry on `page` with markup `raw_html`. `parts` holds
/// the parts of the entry with the headword, the transliteration and the
/// definitions rendered as plain text. The language tag is classified and
/// each text brought into the canonical form of its field; an entry without
/// transliteration gets the stand-in for it.
pub fn assemble(page: u16, raw_html: &str, parts: &Selection) -> (r: Result<Entry, ExtractError>)
    ensures
        match assembled(page, raw_html@, parts@) {
            Ok(entry) => r matches Ok(made) && made@ == entry,
            Err(key) => r matches Err(e) && e@ == (ExtractErrorModel::UnrecognizedLanguageTag {
                tag: key,
            }),
        },
{
    let lang = match &parts.language_tag {
        Some(tag) => match classify(tag.as_str()) {
            Ok(lang) => lang,
            Err(e) => { return Err(e); },
        },
        None => Lang::Unmarked,
    };
    let rendered_latin: Option<&str> = match &parts.latin_headword {
        Some(text) => Some(text.as_str()),
        None => None,
    };
    Ok(
        Entry {
            page,
            raw_html: String::from_str(raw_html),
            lang,
            headword_full: clean_hw_full(parts.full_headword.as_str()),
            headword_persian: clean_hw_per(parts.persian_headword.as_str()),
            headword_latin: headword_latin(rendered_latin),
            definitions: clean_defs(parts.definitions.as_str()),
        },
    )
}

/// Every field of `entry` holds only what `charsets` allows it.
pub open spec fn is_clean(charsets: &Charsets, entry: EntryModel) -> bool {
    &&& charsets.allows_all(Field::HeadwordFull, entry.headword_full)
    &&& charsets.allows_all(Field::HeadwordPersian, entry.headword_persian)
    &&& charsets.allows_all(Field::HeadwordLatin, entry.headword_latin)
    &&& charsets.allows_all(Field::Definitions, entry.definitions)
}

/// The findings on the record `entry` with identifier `id`: those of the full
/// headword, of the Persian-script headword, of the Latin headword and of the
/// definitions, in that order.
pub open spec fn findings(charsets: &Charsets, id: u32, entry: EntryModel) -> Seq<
    CharacterIntegrityViolation,
> {
    charsets.violations(id, Field::HeadwordFull, entry.headword_full) + charsets.violations(
        id,
        Field::HeadwordPersian,
        entry.headword_persian,
    ) + charsets.violations(id, Field::HeadwordLatin, entry.headword_latin) + charsets.violations(
        id,
        Field::Definitions,
        entry.definitions,
    )
}

/// The scalar values in the fields of `entry` that `charsets` does not allow
/// there. There are none exactly when every field holds only what it may.
pub fn check_entry(charsets: &Charsets, id: u32, entry: &Entry) -> (found: Vec<
    CharacterIntegrityViolation,
>)
    ensures
        found@ == findings(charsets, id, entry@),
        found@.len() == 0 <==> is_clean(charsets, entry@),
{
    let mut found = charsets.check_text(id, Field::HeadwordFull, entry.headword_full.as_str());
    let mut persian = charsets.check_text(
        id,
        Field::HeadwordPersian,
        entry.headword_persian.as_str(),
    );
    let mut latin = charsets.check_text(id, Field::HeadwordLatin, entry.headword_latin.as_str());
    let mut definitions = charsets.check_text(id, Field::Definitions, entry.definitions.as_str());
    found.append(&mut persian);
    found.append(&mut latin);
    found.append(&mut definitions);
    found
}

} // verus!
