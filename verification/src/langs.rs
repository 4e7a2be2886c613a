//! The closed set of language tags that an entry can carry.

use vstd::prelude::*;
use crate::error::{ExtractError, ExtractErrorModel};
use crate::markup::{first_of, first_text, selected_texts, LANG_SELECTOR};
use crate::text::{chars_of, copy_range, same_text, string_of, trim, trim_chars};

verus! {

/// The language, or fixed combination of languages, that an entry is marked
/// with.
#[derive(Debug, PartialEq, Eq, PartialOrd, Ord, Clone, Copy, Hash, Default, Structural)]
pub enum Lang {
    /// No tag: the entry is taken to be Persian.
    #[default]
    Unmarked,
    Arabic,
    English,
    Greek,
    Hebrew,
    Hindi,
    Latin,
    Mongolian,
    Persian,
    Portuguese,
    Russian,
    Sanskrit,
    Spanish,
    Syriac,
    Turkish,
    Urdu,
    ArabicGreek,
    ArabicTurkish,
    PersianArabic,
    PersianGreek,
    PersianHindi,
    PersianMongolian,
    PersianRussian,
    PersianTurkish,
    PersianArabicGreek,
    PersianArabicHindi,
    PersianArabicTurkish,
}

/// The error type of `Lang::from_str`, which has no failing input.
#[derive(Debug)]
pub struct LangParseError;

/// The display string of `lang`: the names of its languages in alphabetical
/// order, joined by " & "; `Unmarked` has a display string of its own.
pub open spec fn display(lang: Lang) -> Seq<char> {
    match lang {
        Lang::Unmarked => "Unmarked (i.e., Persian)"@,
        Lang::Arabic => "Arabic"@,
        Lang::English => "English"@,
        Lang::Greek => "Greek"@,
        Lang::Hebrew => "Hebrew"@,
        Lang::Hindi => "Hindi"@,
        Lang::Latin => "Latin"@,
        Lang::Mongolian => "Mongolian"@,
        Lang::Persian => "Persian"@,
        Lang::Portuguese => "Portuguese"@,
        Lang::Russian => "Russian"@,
        Lang::Sanskrit => "Sanskrit"@,
        Lang::Spanish => "Spanish"@,
        Lang::Syriac => "Syriac"@,
        Lang::Turkish => "Turkish"@,
        Lang::Urdu => "Urdu"@,
        Lang::ArabicGreek => "Arabic & Greek"@,
        Lang::ArabicTurkish => "Arabic & Turkish"@,
        Lang::PersianArabic => "Arabic & Persian"@,
        Lang::PersianGreek => "Greek & Persian"@,
        Lang::PersianHindi => "Hindi & Persian"@,
        Lang::PersianMongolian => "Mongolian & Persian"@,
        Lang::PersianRussian => "Persian & Russian"@,
        Lang::PersianTurkish => "Persian & Turkish"@,
        Lang::PersianArabicGreek => "Arabic & Greek & Persian"@,
        Lang::PersianArabicHindi => "Arabic & Hindi & Persian"@,
        Lang::PersianArabicTurkish => "Arabic & Persian & Turkish"@,
    }
}

/// The languages of `lang`, each as the variant of that language alone, in
/// the alphabetical order of their names; none for `Unmarked`.
pub open spec fn languages(lang: Lang) -> Seq<Lang> {
    match lang {
        Lang::Unmarked => seq![],
        Lang::ArabicGreek => seq![Lang::Arabic, Lang::Greek],
        Lang::ArabicTurkish => seq![Lang::Arabic, Lang::Turkish],
        Lang::PersianArabic => seq![Lang::Arabic, Lang::Persian],
        Lang::PersianGreek => seq![Lang::Greek, Lang::Persian],
        Lang::PersianHindi => seq![Lang::Hindi, Lang::Persian],
        Lang::PersianMongolian => seq![Lang::Mongolian, Lang::Persian],
        Lang::PersianRussian => seq![Lang::Persian, Lang::Russian],
        Lang::PersianTurkish => seq![Lang::Persian, Lang::Turkish],
        Lang::PersianArabicGreek => seq![Lang::Arabic, Lang::Greek, Lang::Persian],
        Lang::PersianArabicHindi => seq![Lang::Arabic, Lang::Hindi, Lang::Persian],
        Lang::PersianArabicTurkish => seq![Lang::Arabic, Lang::Persian, Lang::Turkish],
        single => seq![single],
    }
}

/// The display strings of `langs`, joined by " & ".
pub open spec fn joined(langs: Seq<Lang>) -> Seq<char>
    decreases langs.len(),
{
    if langs.len() == 0 {
        Seq::empty()
    } else if langs.len() == 1 {
        display(langs[0])
    } else {
        joined(langs.drop_last()) + " & "@ + display(langs.last())
    }
}

/// The display string of a tagged entry names the languages of its variant,
/// joined by " & ", in alphabetical order: the names within one variant
/// differ in their first letter, which settles their order.
pub proof fn lemma_display_names_languages(lang: Lang)
    requires
        lang != Lang::Unmarked,
    ensures
        display(lang) == joined(languages(lang)),
        forall|i: int, j: int|
            0 <= i < j < languages(lang).len() ==> display(#[trigger] languages(lang)[i])[0]
                < display(#[trigger] languages(lang)[j])[0],
{
    reveal_strlit(" & ");
    reveal_strlit("Arabic");
    reveal_strlit("Greek");
    reveal_strlit("Hindi");
    reveal_strlit("Mongolian");
    reveal_strlit("Persian");
    reveal_strlit("Russian");
    reveal_strlit("Turkish");
    reveal_strlit("Arabic & Greek");
    reveal_strlit("Arabic & Turkish");
    reveal_strlit("Arabic & Persian");
    reveal_strlit("Greek & Persian");
    reveal_strlit("Hindi & Persian");
    reveal_strlit("Mongolian & Persian");
    reveal_strlit("Persian & Russian");
    reveal_strlit("Persian & Turkish");
    reveal_strlit("Arabic & Greek & Persian");
    reveal_strlit("Arabic & Hindi & Persian");
    reveal_strlit("Arabic & Persian & Turkish");
    let all = languages(lang);
    if all.len() == 2 {
        assert(all.drop_last() =~= seq![all[0]]);
        assert(joined(all.drop_last()) == display(all[0]));
        assert(display(lang) =~= display(all[0]) + " & "@ + display(all[1]));
    } else if all.len() == 3 {
        let two = all.drop_last();
        assert(two.drop_last() =~= seq![all[0]]);
        assert(joined(two.drop_last()) == display(all[0]));
        assert(joined(two) == display(all[0]) + " & "@ + display(all[1]));
        assert(display(lang) =~= display(all[0]) + " & "@ + display(all[1]) + " & "@ + display(
            all[2],
        ));
    }
}

/// The variant that `s` is the display string of, `Unmarked` where it is
/// that of none.
pub open spec fn parse(s: Seq<char>) -> Lang {
    if exists|lang: Lang| display(lang) == s {
        choose|lang: Lang| display(lang) == s
    } else {
        Lang::Unmarked
    }
}

/// Two texts that differ in one place are not the same text.
proof fn lemma_differ_at(a: Seq<char>, b: Seq<char>, i: int)
    requires
        a[i] != b[i],
    ensures
        a != b,
{
}

/// The display strings read back one by one.
spec fn read_back(s: Seq<char>) -> Lang {
    if s == "Arabic"@ {
        Lang::Arabic
    } else     if s == "English"@ {
        Lang::English
    } else     if s == "Greek"@ {
        Lang::Greek
    } else     if s == "Hebrew"@ {
        Lang::Hebrew
    } else     if s == "Hindi"@ {
        Lang::Hindi
    } else     if s == "Latin"@ {
        Lang::Latin
    } else     if s == "Mongolian"@ {
        Lang::Mongolian
    } else     if s == "Persian"@ {
        Lang::Persian
    } else     if s == "Portuguese"@ {
        Lang::Portuguese
    } else     if s == "Russian"@ {
        Lang::Russian
    } else     if s == "Sanskrit"@ {
        Lang::Sanskrit
    } else     if s == "Spanish"@ {
        Lang::Spanish
    } else     if s == "Syriac"@ {
        Lang::Syriac
    } else     if s == "Turkish"@ {
        Lang::Turkish
    } else     if s == "Urdu"@ {
        Lang::Urdu
    } else     if s == "Arabic & Greek"@ {
        Lang::ArabicGreek
    } else     if s == "Arabic & Turkish"@ {
        Lang::ArabicTurkish
    } else     if s == "Arabic & Persian"@ {
        Lang::PersianArabic
    } else     if s == "Greek & Persian"@ {
        Lang::PersianGreek
    } else     if s == "Hindi & Persian"@ {
        Lang::PersianHindi
    } else     if s == "Mongolian & Persian"@ {
        Lang::PersianMongolian
    } else     if s == "Persian & Russian"@ {
        Lang::PersianRussian
    } else     if s == "Persian & Turkish"@ {
        Lang::PersianTurkish
    } else     if s == "Arabic & Greek & Persian"@ {
        Lang::PersianArabicGreek
    } else     if s == "Arabic & Hindi & Persian"@ {
        Lang::PersianArabicHindi
    } else     if s == "Arabic & Persian & Turkish"@ {
        Lang::PersianArabicTurkish
    } else {
        Lang::Unmarked
    }
}

/// Reading a display string back gives the variant it came from.
proof fn lemma_read_back(lang: Lang)
    ensures
        read_back(display(lang)) == lang,
{
    reveal_strlit("Unmarked (i.e., Persian)");
    reveal_strlit("Arabic");
    reveal_strlit("English");
    reveal_strlit("Greek");
    reveal_strlit("Hebrew");
    reveal_strlit("Hindi");
    reveal_strlit("Latin");
    reveal_strlit("Mongolian");
    reveal_strlit("Persian");
    reveal_strlit("Portuguese");
    reveal_strlit("Russian");
    reveal_strlit("Sanskrit");
    reveal_strlit("Spanish");
    reveal_strlit("Syriac");
    reveal_strlit("Turkish");
    reveal_strlit("Urdu");
    reveal_strlit("Arabic & Greek");
    reveal_strlit("Arabic & Turkish");
    reveal_strlit("Arabic & Persian");
    reveal_strlit("Greek & Persian");
    reveal_strlit("Hindi & Persian");
    reveal_strlit("Mongolian & Persian");
    reveal_strlit("Persian & Russian");
    reveal_strlit("Persian & Turkish");
    reveal_strlit("Arabic & Greek & Persian");
    reveal_strlit("Arabic & Hindi & Persian");
    reveal_strlit("Arabic & Persian & Turkish");
    // Most display strings differ in length.
    assert("Unmarked (i.e., Persian)"@.len() == 24);
    assert("Arabic"@.len() == 6);
    assert("English"@.len() == 7);
    assert("Greek"@.len() == 5);
    assert("Hebrew"@.len() == 6);
    assert("Hindi"@.len() == 5);
    assert("Latin"@.len() == 5);
    assert("Mongolian"@.len() == 9);
    assert("Persian"@.len() == 7);
    assert("Portuguese"@.len() == 10);
    assert("Russian"@.len() == 7);
    assert("Sanskrit"@.len() == 8);
    assert("Spanish"@.len() == 7);
    assert("Syriac"@.len() == 6);
    assert("Turkish"@.len() == 7);
    assert("Urdu"@.len() == 4);
    assert("Arabic & Greek"@.len() == 14);
    assert("Arabic & Turkish"@.len() == 16);
    assert("Arabic & Persian"@.len() == 16);
    assert("Greek & Persian"@.len() == 15);
    assert("Hindi & Persian"@.len() == 15);
    assert("Mongolian & Persian"@.len() == 19);
    assert("Persian & Russian"@.len() == 17);
    assert("Persian & Turkish"@.len() == 17);
    assert("Arabic & Greek & Persian"@.len() == 24);
    assert("Arabic & Hindi & Persian"@.len() == 24);
    assert("Arabic & Persian & Turkish"@.len() == 26);
    // Those of one length differ in one place at least.
    lemma_differ_at("Unmarked (i.e., Persian)"@, "Arabic & Greek & Persian"@, 0);
    lemma_differ_at("Unmarked (i.e., Persian)"@, "Arabic & Hindi & Persian"@, 0);
    lemma_differ_at("Arabic"@, "Hebrew"@, 0);
    lemma_differ_at("Arabic"@, "Syriac"@, 0);
    lemma_differ_at("English"@, "Persian"@, 0);
    lemma_differ_at("English"@, "Russian"@, 0);
    lemma_differ_at("English"@, "Spanish"@, 0);
    lemma_differ_at("English"@, "Turkish"@, 0);
    lemma_differ_at("Greek"@, "Hindi"@, 0);
    lemma_differ_at("Greek"@, "Latin"@, 0);
    lemma_differ_at("Hebrew"@, "Syriac"@, 0);
    lemma_differ_at("Hindi"@, "Latin"@, 0);
    lemma_differ_at("Persian"@, "Russian"@, 0);
    lemma_differ_at("Persian"@, "Spanish"@, 0);
    lemma_differ_at("Persian"@, "Turkish"@, 0);
    lemma_differ_at("Russian"@, "Spanish"@, 0);
    lemma_differ_at("Russian"@, "Turkish"@, 0);
    lemma_differ_at("Spanish"@, "Turkish"@, 0);
    lemma_differ_at("Arabic & Turkish"@, "Arabic & Persian"@, 9);
    lemma_differ_at("Greek & Persian"@, "Hindi & Persian"@, 0);
    lemma_differ_at("Persian & Russian"@, "Persian & Turkish"@, 10);
    lemma_differ_at("Arabic & Greek & Persian"@, "Arabic & Hindi & Persian"@, 9);
}

/// No two variants share a display string.
pub proof fn lemma_display_injective(a: Lang, b: Lang)
    requires
        display(a) == display(b),
    ensures
        a == b,
{
    lemma_read_back(a);
    lemma_read_back(b);
}

/// Parsing a display string gives back the variant that it displays.
pub proof fn lemma_parse_display(lang: Lang)
    ensures
        parse(display(lang)) == lang,
{
    let found = choose|other: Lang| display(other) == display(lang);
    lemma_display_injective(found, lang);
}

impl Lang {
    /// The display string of this variant.
    #[must_use]
    pub fn as_str(self) -> (s: &'static str)
        ensures
            s@ == display(self),
    {
        match self {
            Self::Unmarked => "Unmarked (i.e., Persian)",
            Self::Arabic => "Arabic",
            Self::English => "English",
            Self::Greek => "Greek",
            Self::Hebrew => "Hebrew",
            Self::Hindi => "Hindi",
            Self::Latin => "Latin",
            Self::Mongolian => "Mongolian",
            Self::Persian => "Persian",
            Self::Portuguese => "Portuguese",
            Self::Russian => "Russian",
            Self::Sanskrit => "Sanskrit",
            Self::Spanish => "Spanish",
            Self::Syriac => "Syriac",
            Self::Turkish => "Turkish",
            Self::Urdu => "Urdu",
            Self::ArabicGreek => "Arabic & Greek",
            Self::ArabicTurkish => "Arabic & Turkish",
            Self::PersianArabic => "Arabic & Persian",
            Self::PersianGreek => "Greek & Persian",
            Self::PersianHindi => "Hindi & Persian",
            Self::PersianMongolian => "Mongolian & Persian",
            Self::PersianRussian => "Persian & Russian",
            Self::PersianTurkish => "Persian & Turkish",
            Self::PersianArabicGreek => "Arabic & Greek & Persian",
            Self::PersianArabicHindi => "Arabic & Hindi & Persian",
            Self::PersianArabicTurkish => "Arabic & Persian & Turkish",
        }
    }

    /// Every variant, once each.
    pub fn variants() -> (all: Vec<Lang>)
        ensures
            all@.len() == 27,
            all@.no_duplicates(),
            forall|lang: Lang| all@.contains(lang),
    {
        let mut all: Vec<Lang> = Vec::new();
        all.push(Self::Unmarked);
        all.push(Self::Arabic);
        all.push(Self::English);
        all.push(Self::Greek);
        all.push(Self::Hebrew);
        all.push(Self::Hindi);
        all.push(Self::Latin);
        all.push(Self::Mongolian);
        all.push(Self::Persian);
        all.push(Self::Portuguese);
        all.push(Self::Russian);
        all.push(Self::Sanskrit);
        all.push(Self::Spanish);
        all.push(Self::Syriac);
        all.push(Self::Turkish);
        all.push(Self::Urdu);
        all.push(Self::ArabicGreek);
        all.push(Self::ArabicTurkish);
        all.push(Self::PersianArabic);
        all.push(Self::PersianGreek);
        all.push(Self::PersianHindi);
        all.push(Self::PersianMongolian);
        all.push(Self::PersianRussian);
        all.push(Self::PersianTurkish);
        all.push(Self::PersianArabicGreek);
        all.push(Self::PersianArabicHindi);
        all.push(Self::PersianArabicTurkish);
        proof {
            assert forall|lang: Lang| all@.contains(lang) by {
                let at: int = match lang {
                    Lang::Unmarked => 0,
                    Lang::Arabic => 1,
                    Lang::English => 2,
                    Lang::Greek => 3,
                    Lang::Hebrew => 4,
                    Lang::Hindi => 5,
                    Lang::Latin => 6,
                    Lang::Mongolian => 7,
                    Lang::Persian => 8,
                    Lang::Portuguese => 9,
                    Lang::Russian => 10,
                    Lang::Sanskrit => 11,
                    Lang::Spanish => 12,
                    Lang::Syriac => 13,
                    Lang::Turkish => 14,
                    Lang::Urdu => 15,
                    Lang::ArabicGreek => 16,
                    Lang::ArabicTurkish => 17,
                    Lang::PersianArabic => 18,
                    Lang::PersianGreek => 19,
                    Lang::PersianHindi => 20,
                    Lang::PersianMongolian => 21,
                    Lang::PersianRussian => 22,
                    Lang::PersianTurkish => 23,
                    Lang::PersianArabicGreek => 24,
                    Lang::PersianArabicHindi => 25,
                    Lang::PersianArabicTurkish => 26,
                };
                assert(all@[at] == lang);
            }
        }
        all
    }

    /// The variant that `s` is the display string of, `Unmarked` where it is
    /// that of none. It never fails.
    pub fn from_str(s: &str) -> (r: Result<Lang, LangParseError>)
        ensures
            r matches Ok(lang) && lang == parse(s@),
    {
        let all = Self::variants();
        let mut i: usize = 0;
        while i < all.len()
            invariant
                i <= all.len(),
                forall|lang: Lang| all@.contains(lang),
                forall|k: int| 0 <= k < i ==> display(#[trigger] all@[k]) != s@,
            decreases all.len() - i,
        {
            let lang = all[i];
            if same_text(s, lang.as_str()) {
                proof {
                    lemma_display_injective(parse(s@), lang);
                }
                return Ok(lang);
            }
            i += 1;
        }
        proof {
            assert forall|lang: Lang| display(lang) != s@ by {
                assert(all@.contains(lang));
                let k = choose|k: int| 0 <= k < all@.len() && all@[k] == lang;
                assert(display(all@[k]) != s@);
            }
        }
        Ok(Lang::Unmarked)
    }
}

impl std::str::FromStr for Lang {
    type Err = LangParseError;

    /// As `Lang::from_str`, for `str::parse`: the variant that `s` is the
    /// display string of, `Unmarked` where it is that of none. It never fails.
    fn from_str(s: &str) -> (r: Result<Self, Self::Err>)
        ensures
            r matches Ok(lang) && lang == parse(s@),
    {
        Lang::from_str(s)
    }
}

/// The raw tags of the dictionary, each with the variant it stands for. The
/// list is closed: a tag that is not in it belongs to no category.
pub open spec fn codes() -> Seq<(Seq<char>, Lang)> {
    seq![
        ("A"@, Lang::Arabic),
        ("B"@, Lang::Arabic),
        ("E"@, Lang::English),
        ("G"@, Lang::Greek),
        ("HE"@, Lang::Hebrew),
        ("H"@, Lang::Hindi),
        ("L"@, Lang::Latin),
        ("M"@, Lang::Mongolian),
        ("P"@, Lang::Persian),
        ("PORT"@, Lang::Portuguese),
        ("R"@, Lang::Russian),
        ("S"@, Lang::Sanskrit),
        ("SP"@, Lang::Spanish),
        ("SY"@, Lang::Syriac),
        ("T"@, Lang::Turkish),
        ("U"@, Lang::Urdu),
        ("A G"@, Lang::ArabicGreek),
        ("A T"@, Lang::ArabicTurkish),
        ("a"@, Lang::PersianArabic),
        ("\u{0101}"@, Lang::PersianArabic),
        ("o"@, Lang::PersianArabic),
        ("A a"@, Lang::PersianArabic),
        ("A P"@, Lang::PersianArabic),
        ("g"@, Lang::PersianGreek),
        ("h"@, Lang::PersianHindi),
        ("m"@, Lang::PersianMongolian),
        ("r"@, Lang::PersianRussian),
        ("t"@, Lang::PersianTurkish),
        ("g a"@, Lang::PersianArabicGreek),
        ("a h"@, Lang::PersianArabicHindi),
        ("a t"@, Lang::PersianArabicTurkish),
        ("t a"@, Lang::PersianArabicTurkish),
        ("a p t"@, Lang::PersianArabicTurkish),
    ]
}

/// The categories of the raw tags are the variants but `Unmarked`, which
/// stands for the lack of a tag: every other variant has a raw tag, and
/// `Unmarked` has none.
pub proof fn lemma_categories_are_the_tagged_variants(lang: Lang)
    ensures
        lang != Lang::Unmarked <==> exists|i: int|
            0 <= i < codes().len() && (#[trigger] codes()[i]).1 == lang,
{
    assert forall|i: int| 0 <= i < codes().len() implies (#[trigger] codes()[i]).1
        != Lang::Unmarked by {}
    let i: int = match lang {
        Lang::Unmarked => 0,
        Lang::Arabic => 0,
        Lang::English => 2,
        Lang::Greek => 3,
        Lang::Hebrew => 4,
        Lang::Hindi => 5,
        Lang::Latin => 6,
        Lang::Mongolian => 7,
        Lang::Persian => 8,
        Lang::Portuguese => 9,
        Lang::Russian => 10,
        Lang::Sanskrit => 11,
        Lang::Spanish => 12,
        Lang::Syriac => 13,
        Lang::Turkish => 14,
        Lang::Urdu => 15,
        Lang::ArabicGreek => 16,
        Lang::ArabicTurkish => 17,
        Lang::PersianArabic => 18,
        Lang::PersianGreek => 23,
        Lang::PersianHindi => 24,
        Lang::PersianMongolian => 25,
        Lang::PersianRussian => 26,
        Lang::PersianTurkish => 27,
        Lang::PersianArabicGreek => 28,
        Lang::PersianArabicHindi => 29,
        Lang::PersianArabicTurkish => 30,
    };
    if lang != Lang::Unmarked {
        assert(codes()[i].1 == lang);
    }
}

/// The variant of the first entry of `table` whose tag is `key`.
pub open spec fn find_code(table: Seq<(Seq<char>, Lang)>, key: Seq<char>) -> Option<Lang>
    decreases table.len(),
{
    if table.len() == 0 {
        None
    } else if table.first().0 == key {
        Some(table.first().1)
    } else {
        find_code(table.drop_first(), key)
    }
}

/// What is looked up for a tag text: the text trimmed, without one final
/// period.
pub open spec fn tag_key(tag: Seq<char>) -> Seq<char> {
    let trimmed = trim(tag);
    if trimmed.len() > 0 && trimmed.last() == '.' {
        trimmed.drop_last()
    } else {
        trimmed
    }
}

/// The variant that a tag text stands for, or the key that no category
/// holds. An empty key stands for `Unmarked`.
pub open spec fn classified(tag: Seq<char>) -> Result<Lang, Seq<char>> {
    let key = tag_key(tag);
    if key.len() == 0 {
        Ok(Lang::Unmarked)
    } else {
        match find_code(codes(), key) {
            Some(lang) => Ok(lang),
            None => Err(key),
        }
    }
}

/// The variant of an entry whose language tag, if it has one, holds `tag`.
pub open spec fn lang_of(tag: Option<Seq<char>>) -> Result<Lang, Seq<char>> {
    match tag {
        Some(text) => classified(text),
        None => Ok(Lang::Unmarked),
    }
}

/// What a classification returns for `outcome`.
pub open spec fn reports(r: Result<Lang, ExtractError>, outcome: Result<Lang, Seq<char>>) -> bool {
    match outcome {
        Ok(lang) => r == Ok::<Lang, ExtractError>(lang),
        Err(key) => r matches Err(e) && e@ == (ExtractErrorModel::UnrecognizedLanguageTag {
            tag: key,
        }),
    }
}

/// The models of a table of raw tags.
spec fn code_models(table: Seq<(&'static str, Lang)>) -> Seq<(Seq<char>, Lang)> {
    table.map_values(|entry: (&'static str, Lang)| (entry.0@, entry.1))
}

/// Appends the tag `raw` for `lang` to `table`.
fn push_code(table: &mut Vec<(&'static str, Lang)>, raw: &'static str, lang: Lang)
    ensures
        code_models(final(table)@) == code_models(old(table)@).push((raw@, lang)),
{
    table.push((raw, lang));
    assert(code_models(table@) =~= code_models(old(table)@).push((raw@, lang)));
}

/// The raw tags of the dictionary, each with the variant it stands for.
fn code_table() -> (table: Vec<(&'static str, Lang)>)
    ensures
        code_models(table@) == codes(),
{
    let mut table: Vec<(&'static str, Lang)> = Vec::new();
    assert(code_models(table@) =~= Seq::empty());
    push_code(&mut table, "A", Lang::Arabic);
    push_code(&mut table, "B", Lang::Arabic);  // a misprint, found once
    push_code(&mut table, "E", Lang::English);
    push_code(&mut table, "G", Lang::Greek);
    push_code(&mut table, "HE", Lang::Hebrew);
    push_code(&mut table, "H", Lang::Hindi);
    push_code(&mut table, "L", Lang::Latin);
    push_code(&mut table, "M", Lang::Mongolian);
    push_code(&mut table, "P", Lang::Persian);
    push_code(&mut table, "PORT", Lang::Portuguese);
    push_code(&mut table, "R", Lang::Russian);
    push_code(&mut table, "S", Lang::Sanskrit);
    push_code(&mut table, "SP", Lang::Spanish);
    push_code(&mut table, "SY", Lang::Syriac);
    push_code(&mut table, "T", Lang::Turkish);
    push_code(&mut table, "U", Lang::Urdu);
    push_code(&mut table, "A G", Lang::ArabicGreek);
    push_code(&mut table, "A T", Lang::ArabicTurkish);
    push_code(&mut table, "a", Lang::PersianArabic);
    push_code(&mut table, "\u{0101}", Lang::PersianArabic);  // a misprint of the tag a, found several times
    push_code(&mut table, "o", Lang::PersianArabic);  // a misprint, found once
    push_code(&mut table, "A a", Lang::PersianArabic);
    push_code(&mut table, "A P", Lang::PersianArabic);
    push_code(&mut table, "g", Lang::PersianGreek);
    push_code(&mut table, "h", Lang::PersianHindi);
    push_code(&mut table, "m", Lang::PersianMongolian);
    push_code(&mut table, "r", Lang::PersianRussian);
    push_code(&mut table, "t", Lang::PersianTurkish);
    push_code(&mut table, "g a", Lang::PersianArabicGreek);
    push_code(&mut table, "a h", Lang::PersianArabicHindi);
    push_code(&mut table, "a t", Lang::PersianArabicTurkish);
    push_code(&mut table, "t a", Lang::PersianArabicTurkish);
    push_code(&mut table, "a p t", Lang::PersianArabicTurkish);
    table
}

/// The variant that the tag text `tag` stands for.
pub fn classify(tag: &str) -> (r: Result<Lang, ExtractError>)
    ensures
        reports(r, classified(tag@)),
{
    let trimmed = trim_chars(&chars_of(tag));
    let n: usize = trimmed.len();
    let key_chars = if n > 0 && trimmed[n - 1] == '.' {
        copy_range(&trimmed, 0, n - 1)
    } else {
        trimmed
    };
    assert(key_chars@ == tag_key(tag@));
    if key_chars.len() == 0 {
        return Ok(Lang::Unmarked);
    }
    let key = string_of(&key_chars);
    let table = code_table();
    let ghost all = code_models(table@);
    let mut i: usize = 0;
    assert(all.skip(0) == all);
    while i < table.len()
        invariant
            i <= table.len(),
            all == code_models(table@),
            all == codes(),
            key@ == tag_key(tag@),
            key@.len() > 0,
            find_code(all, key@) == find_code(all.skip(i as int), key@),
        decreases table.len() - i,
    {
        assert(all.skip(i as int).first() == all[i as int]);
        assert(all.skip(i as int).drop_first() == all.skip(i + 1));
        if same_text(key.as_str(), table[i].0) {
            return Ok(table[i].1);
        }
        i += 1;
    }
    Err(ExtractError::UnrecognizedLanguageTag { tag: key })
}

/// The variant of the entry `fragment`: that of its language tag, `Unmarked`
/// where it has none.
pub fn get_lang(fragment: &str) -> (r: Result<Lang, ExtractError>)
    ensures
        reports(r, lang_of(first_of(selected_texts(fragment@, LANG_SELECTOR@)))),
{
    match first_text(fragment, LANG_SELECTOR) {
        Some(tag) => classify(tag.as_str()),
        None => Ok(Lang::Unmarked),
    }
}

} // verus!
