//! What is read off the markup of a page or of one entry: the elements that a
//! CSS selector picks, and the markup that is left when tagged spans are cut.

use vstd::prelude::*;
use regex::Regex;
use scraper::{Html, Selector};

verus! {

/// Selects the language tag of an entry.
pub const LANG_SELECTOR: &'static str = "lang";

/// Selects the headword of an entry.
pub const HEADWORD_SELECTOR: &'static str = "hw";

/// Selects the Persian-script part of the headword.
pub const PERSIAN_SELECTOR: &'static str = "hw pa";

/// Selects the Latin transliteration in the headword.
pub const LATIN_SELECTOR: &'static str = "hw i";

/// Selects the entries of a results page.
pub const RESULTS_SELECTOR: &'static str = "#results_display .container div";

/// `selector` is one of the selectors above.
pub open spec fn known_selector(selector: Seq<char>) -> bool {
    ||| selector == LANG_SELECTOR@
    ||| selector == HEADWORD_SELECTOR@
    ||| selector == PERSIAN_SELECTOR@
    ||| selector == LATIN_SELECTOR@
    ||| selector == RESULTS_SELECTOR@
}

/// The text content of each element of `fragment`, parsed as an HTML
/// fragment, that `selector` matches. The elements come in the order in which
/// the parser made them, which is the order of their opening tags wherever
/// the parser has not moved an element to mend the nesting.
pub uninterp spec fn selected_texts(fragment: Seq<char>, selector: Seq<char>) -> Seq<Seq<char>>;

/// `scraper::Html::parse_fragment` parses `fragment`, `Html::select` walks the
/// nodes of the tree in the order in which they were made and yields the
/// elements that `selector` (read by `Selector::parse`) matches, and
/// `ElementRef::text` gives the text nodes below each, which are joined. The
/// result depends on the two arguments alone. The selectors admitted are
/// those that `Selector::parse` is known to accept.
#[verifier::external_body]
pub(crate) fn fragment_texts(fragment: &str, selector: &str) -> (texts: Vec<String>)
    requires
        known_selector(selector@),
    ensures
        texts.deep_view() == selected_texts(fragment@, selector@),
{
    let parsed = Html::parse_fragment(fragment);
    let selector = Selector::parse(selector).unwrap();
    parsed.select(&selector).map(|element| element.text().collect()).collect()
}

/// The markup of each element of `fragment`, parsed as an HTML fragment, that
/// `selector` matches, in the order of `selected_texts`.
pub uninterp spec fn selected_markup(fragment: Seq<char>, selector: Seq<char>) -> Seq<Seq<char>>;

/// As `fragment_texts`, but `ElementRef::html` gives the markup of each
/// element, itself included, as the crate writes it out again: the crate
/// keeps the attributes of an element sorted by name, and writes them so. The
/// result depends on the two arguments alone.
#[verifier::external_body]
pub(crate) fn fragment_markup(fragment: &str, selector: &str) -> (markup: Vec<String>)
    requires
        known_selector(selector@),
    ensures
        markup.deep_view() == selected_markup(fragment@, selector@),
{
    let parsed = Html::parse_fragment(fragment);
    let selector = Selector::parse(selector).unwrap();
    parsed.select(&selector).map(|element| element.html()).collect()
}

/// The markup of each element of `document`, parsed as a whole HTML document,
/// that `selector` matches, in the order of `selected_texts`.
pub uninterp spec fn selected_in_document(document: Seq<char>, selector: Seq<char>) -> Seq<
    Seq<char>,
>;

/// As `fragment_markup`, but `scraper::Html::parse_document` parses `document`
/// as a whole page. The result depends on the two arguments alone.
#[verifier::external_body]
pub(crate) fn document_markup(document: &str, selector: &str) -> (markup: Vec<String>)
    requires
        known_selector(selector@),
    ensures
        markup.deep_view() == selected_in_document(document@, selector@),
{
    let parsed = Html::parse_document(document);
    let selector = Selector::parse(selector).unwrap();
    parsed.select(&selector).map(|element| element.html()).collect()
}

/// Matches a citation marker, from its opening tag to the last closing tag on
/// the line.
pub const CITATION_PATTERN: &'static str = "<c>.*</c>";

/// Matches a headword, from its opening tag to the last closing tag on the
/// line.
pub const HEADWORD_PATTERN: &'static str = "<hw>.*</hw>";

/// Matches a language tag, from its opening tag to the last closing tag on
/// the line.
pub const LANG_PATTERN: &'static str = "<lang>.*</lang>";

/// `pattern` is one of the patterns above.
pub open spec fn known_pattern(pattern: Seq<char>) -> bool {
    ||| pattern == CITATION_PATTERN@
    ||| pattern == HEADWORD_PATTERN@
    ||| pattern == LANG_PATTERN@
}

/// `text` with every match of the regular expression `pattern`, found left to
/// right without overlap, replaced by `replacement`, in which `$` refers to
/// what a group of the pattern has matched.
pub uninterp spec fn regex_replaced(
    pattern: Seq<char>,
    text: Seq<char>,
    replacement: Seq<char>,
) -> Seq<char>;

/// `regex::Regex::new` compiles `pattern` and `Regex::replace_all` copies
/// `text` with each match replaced by what `replacement` expands to. The
/// result depends on the three arguments alone. The patterns admitted are
/// those that `Regex::new` is known to accept.
#[verifier::external_body]
pub(crate) fn regex_replace_all(pattern: &str, text: &str, replacement: &str) -> (out: String)
    requires
        known_pattern(pattern@),
    ensures
        out@ == regex_replaced(pattern@, text@, replacement@),
{
    Regex::new(pattern).unwrap().replace_all(text, replacement).into_owned()
}

/// The first of `items`, if there is one.
pub open spec fn first_of(items: Seq<Seq<char>>) -> Option<Seq<char>> {
    if items.len() > 0 {
        Some(items.first())
    } else {
        None
    }
}

/// The first of `items`, if there is one.
pub fn take_first(items: Vec<String>) -> (first: Option<String>)
    ensures
        first.deep_view() == first_of(items.deep_view()),
{
    let mut items = items;
    if items.len() > 0 {
        Some(items.swap_remove(0))
    } else {
        None
    }
}

/// The text of the first element of `fragment` that `selector` matches.
pub(crate) fn first_text(fragment: &str, selector: &str) -> (text: Option<String>)
    requires
        known_selector(selector@),
    ensures
        text.deep_view() == first_of(selected_texts(fragment@, selector@)),
{
    take_first(fragment_texts(fragment, selector))
}

/// The markup of the first element of `fragment` that `selector` matches.
pub(crate) fn first_markup(fragment: &str, selector: &str) -> (markup: Option<String>)
    requires
        known_selector(selector@),
    ensures
        markup.deep_view() == first_of(selected_markup(fragment@, selector@)),
{
    take_first(fragment_markup(fragment, selector))
}

/// The markup of each entry of the results page `document`, in the order of
/// the page.
pub fn select_results(document: &str) -> (entries: Vec<String>)
    ensures
        entries.deep_view() == selected_in_document(document@, RESULTS_SELECTOR@),
{
    document_markup(document, RESULTS_SELECTOR)
}

} // verus!
