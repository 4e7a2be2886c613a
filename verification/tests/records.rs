use std::collections::HashSet;

use steingass_scraper::charsets::{Charsets, Field};
use steingass_scraper::defs::clean_defs;
use steingass_scraper::hw_full::clean_hw_full;
use steingass_scraper::hw_lat::clean_hw_lat;
use steingass_scraper::hw_per::get_hw_per;
use steingass_scraper::langs::{get_lang, Lang};
use steingass_scraper::pages::{page_is_usable, BAD_PAGES, MAX_PAGE, MIN_PAGE};

/// A record as it is kept once an entry has been assembled.
struct Record {
    id: u32,
    page: u16,
    raw_html: String,
    lang: String,
    headword_full: String,
    headword_persian: String,
    headword_latin: String,
    definitions: String,
}

const TAGS: [(&str, &str); 34] = [
    ("", "Unmarked (i.e., Persian)"),
    ("A", "Arabic"),
    ("B", "Arabic"),
    ("E", "English"),
    ("G", "Greek"),
    ("HE", "Hebrew"),
    ("H", "Hindi"),
    ("L", "Latin"),
    ("M", "Mongolian"),
    ("P", "Persian"),
    ("PORT", "Portuguese"),
    ("R", "Russian"),
    ("S", "Sanskrit"),
    ("SP", "Spanish"),
    ("SY", "Syriac"),
    ("T", "Turkish"),
    ("U", "Urdu"),
    ("A G", "Arabic & Greek"),
    ("A T", "Arabic & Turkish"),
    ("a", "Arabic & Persian"),
    ("\u{0101}", "Arabic & Persian"),
    ("o", "Arabic & Persian"),
    ("A a", "Arabic & Persian"),
    ("A P", "Arabic & Persian"),
    ("g", "Greek & Persian"),
    ("h", "Hindi & Persian"),
    ("m", "Mongolian & Persian"),
    ("r", "Persian & Russian"),
    ("t", "Persian & Turkish"),
    ("g a", "Arabic & Greek & Persian"),
    ("a h", "Arabic & Hindi & Persian"),
    ("a t", "Arabic & Persian & Turkish"),
    ("t a", "Arabic & Persian & Turkish"),
    ("a p t", "Arabic & Persian & Turkish"),
];

const WORDS: [(&str, &str, &str); 6] = [
    ("\u{0622}\u{0628}", "\u{0101}b", "Water; lustre, splendour."),
    ("\u{06A9}\u{062A}\u{0627}\u{0628}", "kit\u{0101}b", "A book, a writing (\u{03B2}\u{03B9}\u{03B2}\u{03BB}\u{03AF}\u{03BF}\u{03BD})."),
    ("\u{0639}", "\u{2018}ain", "The letter \u{0639}, worth 70 in the abjad."),
    ("\u{067E}\u{062F}\u{0631}", "pidar", "A father; \u{05D0}\u{05D1} in Hebrew."),
    ("\u{0698}\u{0627}\u{0644}\u{0647} \u{0628}\u{0627}\u{0631}", "zh\u{0101}la-b\u{0101}r", "Raining hail; worth \u{00A3} 1."),
    ("\u{0645}\u{0624}\u{0674}\u{0646}", "mu\u{2019}azzin", "The crier who calls to prayer."),
];

fn records() -> Vec<Record> {
    let mut records = Vec::new();
    let mut id: u32 = 0;
    for page in MIN_PAGE..=MAX_PAGE {
        if BAD_PAGES.contains(&page) {
            continue;
        }
        id += 1;
        let (tag, lang) = TAGS[id as usize % TAGS.len()];
        let (persian, latin, definitions) = WORDS[id as usize % WORDS.len()];
        let has_latin = id % 7 != 0;
        let mut raw_html = format!("<div><hw><pa>{}</pa>", persian);
        if has_latin {
            raw_html.push_str(&format!(" <i>{}</i>", latin));
        }
        raw_html.push_str("</hw>, ");
        if !tag.is_empty() {
            raw_html.push_str(&format!("<lang>{}.</lang> ", tag));
        }
        raw_html.push_str(definitions);
        raw_html.push_str(" <c>(p. ");
        raw_html.push_str(&page.to_string());
        raw_html.push_str(")</c></div>");
        records.push(Record {
            id,
            page,
            raw_html,
            lang: lang.to_owned(),
            headword_full: if has_latin {
                format!("{} {}", persian, latin)
            } else {
                persian.to_owned()
            },
            headword_persian: persian.to_owned(),
            headword_latin: if has_latin { latin.to_owned() } else { "N/A".to_owned() },
            definitions: definitions.to_owned(),
        });
    }
    records
}

fn charsets() -> Charsets {
    Charsets {
        arabic_allowed: (0x0621..=0x064A).chain(0x067E..=0x06CC).collect(),
        other_allowed: (0x0020..=0x007E).chain([0x0101, 0x2018, 0x2019]).collect(),
        defs_misc: vec![0x00A3],
        defs_greek: (0x0391..=0x03CE).collect(),
        defs_hebrew: (0x05D0..=0x05EA).collect(),
    }
}

#[test]
fn defs_chars() {
    let sets = charsets();
    for record in records() {
        for c in record.definitions.chars() {
            assert!(
                sets.arabic_allowed.contains(&(c as u32))
                    || sets.other_allowed.contains(&(c as u32))
                    || sets.defs_misc.contains(&(c as u32))
                    || sets.defs_greek.contains(&(c as u32))
                    || sets.defs_hebrew.contains(&(c as u32))
                    || c as u32 == 0x0674,
                "Non-standard char in definitions (ID {}): U+{:04X}",
                record.id,
                c as u32
            );
            assert!(sets.permits(Field::Definitions, c));
        }
        assert!(sets.check_text(record.id, Field::Definitions, &record.definitions).is_empty());
    }
}

#[test]
fn defs_values_fast() {
    for record in records() {
        let cleaned = clean_defs(&record.definitions);
        assert_eq!(cleaned, record.definitions, "Mismatch in ID {}", record.id);
    }
}

#[test]
fn hw_full_chars() {
    let sets = charsets();
    for record in records() {
        for c in record.headword_full.chars() {
            assert!(
                sets.arabic_allowed.contains(&(c as u32))
                    || sets.other_allowed.contains(&(c as u32))
                    || c as u32 == 0x0674,
                "Non-standard char in full headword (ID {}): U+{:04X}",
                record.id,
                c as u32
            );
            assert!(sets.permits(Field::HeadwordFull, c));
        }
        assert!(sets.check_text(record.id, Field::HeadwordFull, &record.headword_full).is_empty());
    }
}

#[test]
fn hw_full_values_fast() {
    for record in records() {
        let cleaned_further = clean_hw_full(&record.headword_full);
        assert_eq!(cleaned_further, record.headword_full, "Mismatch in ID {}", record.id);
    }
}

#[test]
fn hw_lat_chars() {
    let sets = charsets();
    for record in records() {
        for c in record.headword_latin.chars() {
            assert!(
                sets.other_allowed.contains(&(c as u32)),
                "Non-standard char in Latin headword (ID {}): U+{:04X}",
                record.id,
                c as u32
            );
            assert!(sets.permits(Field::HeadwordLatin, c));
        }
        assert!(sets
            .check_text(record.id, Field::HeadwordLatin, &record.headword_latin)
            .is_empty());
    }
}

#[test]
fn hw_lat_values_fast() {
    for record in records() {
        let cleaned = clean_hw_lat(&record.headword_latin);
        assert_eq!(cleaned, record.headword_latin, "Mismatch in ID {}", record.id);
    }
}

#[test]
fn hw_per_chars() {
    let sets = charsets();
    for record in records() {
        for c in record.headword_persian.chars() {
            assert!(
                sets.arabic_allowed.contains(&(c as u32))
                    || c as u32 == 0x0674
                    || c as u32 == 0x0020,
                "Non-standard char in Persian headword (ID {}): U+{:04X}",
                record.id,
                c as u32
            );
            assert!(sets.permits(Field::HeadwordPersian, c));
        }
        assert!(sets
            .check_text(record.id, Field::HeadwordPersian, &record.headword_persian)
            .is_empty());
    }
}

#[test]
fn values() {
    for record in records() {
        let persian_regen = get_hw_per(&record.raw_html).unwrap();

        if record.headword_persian == "\u{0639}" {
            continue;
        }

        assert_eq!(
            persian_regen, record.headword_persian,
            "Mismatch (ID {}): {} != {}",
            record.id, persian_regen, record.headword_persian
        );
    }
}

#[test]
fn lang_values() {
    for record in records() {
        let lang_from_str = Lang::from_str(&record.lang).unwrap();
        assert_eq!(
            lang_from_str.as_str(),
            record.lang,
            "Lang-to-str back-and-forth failure, p. {}",
            record.page
        );

        let lang_regen = get_lang(&record.raw_html).unwrap();
        assert_eq!(lang_regen, lang_from_str, "Lang re-parsing failure, p. {}", record.page);
    }
}

#[test]
fn variants() {
    let variants = Lang::variants().len();

    let distinct: HashSet<String> = records().into_iter().map(|record| record.lang).collect();
    let count = distinct.len();

    assert_eq!(count, variants);
}

#[test]
fn min_max_pages() {
    let min = records().iter().map(|record| record.page).min().unwrap();
    assert_eq!(min, MIN_PAGE);

    let max = records().iter().map(|record| record.page).max().unwrap();
    assert_eq!(max, MAX_PAGE);
}

#[test]
fn page_count() {
    let total_pages = MAX_PAGE - MIN_PAGE + 1;
    let good_pages = total_pages - u16::try_from(BAD_PAGES.len()).unwrap();

    let distinct: HashSet<u16> = records().iter().map(|record| record.page).collect();
    let count = u16::try_from(distinct.len()).unwrap();

    assert_eq!(count, good_pages);
    assert_eq!(good_pages, 1533);
    assert_eq!((0..=u16::MAX).filter(|page| page_is_usable(*page)).count(), 1533);
}
