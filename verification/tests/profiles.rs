use steingass_scraper::defs::clean_defs;
use steingass_scraper::hw_full::clean_hw_full;
use steingass_scraper::hw_lat::clean_hw_lat;
use steingass_scraper::hw_per::clean_hw_per;
use steingass_scraper::profiles::{
    baseline_rules, canonicalize, clean_simple, extension_rules, in_canonical_form,
    profile_rules, Profile,
};
use steingass_scraper::rewrite::rewrite;

const PROFILES: [Profile; 4] = [
    Profile::FullHeadword,
    Profile::PersianHeadword,
    Profile::LatinHeadword,
    Profile::Definitions,
];

fn expected_simple(input: &str) -> String {
    let mut text = input.trim().to_owned();
    let swaps: [(char, &str); 22] = [
        ('\u{02BB}', "\u{2018}"),
        ('\u{02BC}', "\u{2019}"),
        ('\u{0320}', "\u{0331}"),
        ('\u{0643}', "\u{06A9}"),
        ('\u{0649}', "\u{06CC}"),
        ('\u{064A}', "\u{06CC}"),
        ('\u{066E}', "\u{0628}"),
        ('\u{0680}', "\u{067E}"),
        ('\u{06B1}', "\u{06AF}"),
        ('\u{06BE}', "\u{0647}"),
        ('\u{200D}', ""),
        ('\u{200F}', ""),
        ('\u{FB58}', "\u{067E}"),
        ('\u{FB59}', "\u{067E}"),
        ('\u{FB7D}', "\u{0686}"),
        ('\u{FB8A}', "\u{0698}"),
        ('\u{FB8B}', "\u{0698}"),
        ('\u{FB94}', "\u{06AF}"),
        ('\u{FBA9}', "\u{0647}"),
        ('\u{FE81}', "\u{0622}"),
        ('\u{FE8A}', "\u{0626}"),
        ('\u{FEEB}', "\u{0647}"),
    ];
    for (from, to) in swaps {
        text = text.replace(from, to);
    }
    text = text.replace("\u{0020}\u{064B}", "\u{064B}");
    text = text.replace("\u{0065}\u{0306}", "\u{0115}");
    text
}

fn expected(input: &str, profile: Profile) -> String {
    let mut text = expected_simple(input);
    let rules: Vec<(&str, &str)> = match profile {
        Profile::FullHeadword => vec![
            ("\u{0020}\u{0650}", ""),
            ("\u{0650}", ""),
            ("\u{0022}", "\u{2018}\u{2018}"),
            ("\u{003B}", ""),
            ("\u{00E0}", "\u{0061}"),
            ("\u{00E2}", "\u{0101}"),
            ("\u{1E33}", "\u{006B}"),
            ("\u{1E61}", "\u{1E63}"),
            ("\u{2039}", "\u{012B}"),
            ("\u{FB7A}", "\u{0686}"),
            ("\u{0020}\u{064C}", "\u{064B}"),
            ("\u{0020}\u{064F}", "\u{064B}"),
            ("\u{0627}\u{064E}", "\u{0622}"),
            ("\u{06CC}\u{064E}", "\u{06CC}"),
        ],
        Profile::PersianHeadword => vec![
            ("\u{0020}\u{0650}", ""),
            ("\u{0650}", ""),
            ("\u{0020}\u{064C}", "\u{064B}"),
            ("\u{0020}\u{064D}", "\u{064D}"),
            ("\u{0020}\u{064F}", "\u{064B}"),
            ("\u{0627}\u{064E}", "\u{0622}"),
            ("\u{06CC}\u{064E}", "\u{06CC}"),
        ],
        Profile::LatinHeadword => vec![
            ("\u{0022}", "\u{2018}\u{2018}"),
            ("\u{00E0}", "\u{0061}"),
            ("\u{00E2}", "\u{0101}"),
            ("\u{1E33}", "\u{006B}"),
            ("\u{1E61}", "\u{1E63}"),
            ("\u{2039}", "\u{012B}"),
        ],
        Profile::Definitions => vec![
            ("\u{04D4}", "\u{00C6}"),
            ("\u{0680}", "\u{067E}"),
            ("\u{00FB}", "\u{016B}"),
            ("\u{FE81}", "\u{0622}"),
            ("\u{00B7}", "\u{02BB}"),
            ("\u{20A4}", "\u{00A3}"),
            ("\u{017C}", "\u{1E93}"),
            ("\u{00C1}", "\u{0041}"),
            ("\u{0065}\u{0306}", "\u{0115}"),
            ("\u{0306}", "\u{02D8}"),
            ("\u{002F}\u{061F}\u{002F}", "\u{0640}\u{0640}\u{0653}\u{0640}"),
        ],
    };
    for (from, to) in rules {
        text = text.replace(from, to);
    }
    text
}

fn samples() -> Vec<String> {
    let mut samples: Vec<String> = vec![
        "",
        "  ",
        " \u{0622}\u{0628} ",
        "\u{0622}\u{0628} \u{0101}b",
        "e\u{0306}",
        "be\u{0306}d a\u{0306}",
        "\u{0306}",
        " \u{064B}",
        "a  \u{064B}",
        "\u{200D} a",
        "a\u{200F}",
        "e\u{200D}\u{0306}",
        "\u{02BB}ayn \u{02BC}alif",
        "\u{00B7}",
        "\u{00B7}\u{02BB}",
        "\"abb\u{00E2}s\"",
        "a;b;",
        "k\u{1E33}\u{1E61}\u{2039}\u{00E0}",
        "\u{0627}\u{064E}\u{06CC}\u{064E}\u{064E}",
        "\u{0645} \u{0650}\u{0646}\u{0650}",
        "x \u{064C} y \u{064D} z \u{064F}",
        "/\u{061F}/ and /\u{061F} /",
        "\u{04D4}\u{00FB}\u{20A4}\u{017C}\u{00C1}",
        "\u{FB58}\u{FB59}\u{FB7D}\u{FB8A}\u{FB8B}\u{FB94}\u{FBA9}\u{FE81}\u{FE8A}\u{FEEB}\u{FB7A}",
        "\u{0643}\u{0649}\u{064A}\u{066E}\u{0680}\u{06B1}\u{06BE}\u{0320}",
        "Water; lustre, splendour; honour.",
        "\t N/A \n",
    ]
    .into_iter()
    .map(str::to_owned)
    .collect();
    // Every pair of scalar values that some rule speaks of, side by side.
    let marks = [
        ' ', '"', ';', '/', 'e', 'a', '\u{00B7}', '\u{02BB}', '\u{0306}', '\u{061F}', '\u{0627}',
        '\u{064B}', '\u{064C}', '\u{064D}', '\u{064E}', '\u{064F}', '\u{0650}', '\u{06CC}',
        '\u{200D}', '\u{200F}', '\u{FE81}',
    ];
    for a in marks {
        for b in marks {
            samples.push(format!("x{}{}y", a, b));
            samples.push(format!("{}{}", a, b));
        }
    }
    samples
}

/// Texts of up to twelve scalar values, drawn by a fixed sequence from the
/// values that the rules speak of and a few that they do not.
fn drawn_samples(count: usize) -> Vec<String> {
    let alphabet: Vec<char> = " \t\n\";/aeAbxN\u{00A0}\u{00B7}\u{00C1}\u{00E0}\u{00E2}\u{00FB}\u{0101}\u{0115}\u{017C}\u{02BB}\u{02BC}\u{02D8}\u{0306}\u{0320}\u{04D4}\u{061F}\u{0622}\u{0627}\u{0643}\u{0649}\u{064A}\u{064B}\u{064C}\u{064D}\u{064E}\u{064F}\u{0650}\u{066E}\u{0680}\u{06B1}\u{06BE}\u{06CC}\u{1E33}\u{1E61}\u{2018}\u{2039}\u{200D}\u{200F}\u{20A4}\u{FB58}\u{FB59}\u{FB7A}\u{FB7D}\u{FB8A}\u{FB8B}\u{FB94}\u{FBA9}\u{FE81}\u{FE8A}\u{FEEB}"
        .chars()
        .collect();
    let mut state: u64 = 0x2545_F491_4F6C_DD1D;
    let mut next = move || {
        state = state.wrapping_mul(6364136223846793005).wrapping_add(1442695040888963407);
        (state >> 33) as usize
    };
    let mut samples = Vec::new();
    for _ in 0..count {
        let len = next() % 13;
        let text: String = (0..len).map(|_| alphabet[next() % alphabet.len()]).collect();
        samples.push(text);
    }
    samples
}

#[test]
fn drawn_texts_agree_with_replacing_rule_by_rule() {
    for sample in drawn_samples(4000) {
        assert_eq!(clean_simple(&sample), expected_simple(&sample), "{:?}", sample);
        for profile in PROFILES {
            assert_eq!(
                canonicalize(&sample, profile),
                expected(&sample, profile),
                "{:?} under {:?}",
                sample,
                profile
            );
        }
    }
}

#[test]
fn drawn_texts_are_canonical_exactly_when_trimmed_and_free_of_patterns() {
    for sample in drawn_samples(4000) {
        for profile in PROFILES {
            let expected = sample.trim() == sample && !holds_a_pattern(&sample, profile);
            assert_eq!(in_canonical_form(&sample, profile), expected, "{:?}", sample);
        }
    }
}

#[test]
fn every_profile_agrees_with_replacing_rule_by_rule() {
    for sample in samples() {
        for profile in PROFILES {
            assert_eq!(
                canonicalize(&sample, profile),
                expected(&sample, profile),
                "{:?} under {:?}",
                sample,
                profile
            );
        }
    }
}

#[test]
fn baseline_agrees_with_replacing_rule_by_rule() {
    for sample in samples() {
        assert_eq!(clean_simple(&sample), expected_simple(&sample), "{:?}", sample);
    }
}

#[test]
fn field_functions_use_their_profile() {
    for sample in samples() {
        assert_eq!(clean_hw_full(&sample), canonicalize(&sample, Profile::FullHeadword));
        assert_eq!(clean_hw_per(&sample), canonicalize(&sample, Profile::PersianHeadword));
        assert_eq!(clean_hw_lat(&sample), canonicalize(&sample, Profile::LatinHeadword));
        assert_eq!(clean_defs(&sample), canonicalize(&sample, Profile::Definitions));
    }
}

#[test]
fn a_profile_rewrites_what_the_baseline_gives() {
    for sample in samples() {
        for profile in PROFILES {
            assert_eq!(
                canonicalize(&sample, profile),
                rewrite(&clean_simple(&sample), &extension_rules(profile))
            );
        }
    }
}

#[test]
fn rule_lists_have_their_lengths() {
    assert_eq!(baseline_rules().len(), 24);
    assert_eq!(extension_rules(Profile::FullHeadword).len(), 14);
    assert_eq!(extension_rules(Profile::PersianHeadword).len(), 7);
    assert_eq!(extension_rules(Profile::LatinHeadword).len(), 6);
    assert_eq!(extension_rules(Profile::Definitions).len(), 11);
    assert_eq!(profile_rules(Profile::Definitions).len(), 35);
}

#[test]
fn e_with_breve_becomes_one_scalar_value() {
    for profile in PROFILES {
        assert_eq!(canonicalize("\u{0065}\u{0306}", profile), "\u{0115}");
    }
    assert_eq!(clean_simple("\u{0065}\u{0306}"), "\u{0115}");
}

#[test]
fn a_breve_left_alone_is_rewritten_in_definitions_only() {
    assert_eq!(clean_defs("a\u{0306}e\u{0306}"), "a\u{02D8}\u{0115}");
    assert_eq!(clean_hw_full("a\u{0306}e\u{0306}"), "a\u{0306}\u{0115}");
}

#[test]
fn zero_width_marks_are_removed() {
    for profile in PROFILES {
        assert_eq!(canonicalize("a\u{200D}b\u{200F}c", profile), "abc");
    }
}

#[test]
fn presentation_forms_become_base_letters() {
    assert_eq!(clean_simple("\u{FB58}\u{FE81}\u{FEEB}"), "\u{067E}\u{0622}\u{0647}");
    assert_eq!(clean_simple("\u{0643}\u{064A}"), "\u{06A9}\u{06CC}");
}

#[test]
fn kasra_goes_with_the_space_before_it() {
    assert_eq!(clean_hw_per("\u{0645} \u{0650}\u{0646}\u{0650}"), "\u{0645}\u{0646}");
    assert_eq!(clean_hw_full("\u{0645} \u{0650}\u{0646}\u{0650}"), "\u{0645}\u{0646}");
    assert_eq!(clean_hw_lat("\u{0645} \u{0650}"), "\u{0645} \u{0650}");
}

#[test]
fn latin_headword_swaps_single_values_only() {
    assert_eq!(clean_hw_lat("\"abb\u{00E2}s\""), "\u{2018}\u{2018}abb\u{0101}s\u{2018}\u{2018}");
    assert_eq!(clean_hw_lat("a;b"), "a;b");
    assert_eq!(clean_hw_full("a;b"), "ab");
}

#[test]
fn lone_madda_is_fixed_in_definitions() {
    assert_eq!(clean_defs("/\u{061F}/"), "\u{0640}\u{0640}\u{0653}\u{0640}");
}

#[test]
fn canonical_text_stays_as_it_is() {
    let canonical = [
        "",
        "\u{0622}\u{0628}",
        "\u{0101}b",
        "N/A",
        "Water; lustre",
        "\u{0115}",
        "\u{2018}\u{2018}abb\u{0101}s",
    ];
    for text in canonical {
        assert_eq!(clean_hw_lat(text), text);
        assert_eq!(clean_simple(text), text);
    }
    assert_eq!(clean_defs("Water; lustre"), "Water; lustre");
    assert_eq!(clean_hw_per("\u{0622}\u{0628}"), "\u{0622}\u{0628}");
}

/// Whether some pattern of `profile` stands in `text`.
fn holds_a_pattern(text: &str, profile: Profile) -> bool {
    let patterns: Vec<&str> = match profile {
        Profile::FullHeadword => vec![
            " \u{0650}", "\u{0650}", "\"", ";", "\u{00E0}", "\u{00E2}", "\u{1E33}", "\u{1E61}",
            "\u{2039}", "\u{FB7A}", " \u{064C}", " \u{064F}", "\u{0627}\u{064E}",
            "\u{06CC}\u{064E}",
        ],
        Profile::PersianHeadword => vec![
            " \u{0650}", "\u{0650}", " \u{064C}", " \u{064D}", " \u{064F}", "\u{0627}\u{064E}",
            "\u{06CC}\u{064E}",
        ],
        Profile::LatinHeadword => {
            vec!["\"", "\u{00E0}", "\u{00E2}", "\u{1E33}", "\u{1E61}", "\u{2039}"]
        }
        Profile::Definitions => vec![
            "\u{04D4}", "\u{0680}", "\u{00FB}", "\u{FE81}", "\u{00B7}", "\u{20A4}", "\u{017C}",
            "\u{00C1}", "e\u{0306}", "\u{0306}", "/\u{061F}/",
        ],
    };
    let baseline = [
        "\u{02BB}", "\u{02BC}", "\u{0320}", "\u{0643}", "\u{0649}", "\u{064A}", "\u{066E}",
        "\u{0680}", "\u{06B1}", "\u{06BE}", "\u{200D}", "\u{200F}", "\u{FB58}", "\u{FB59}",
        "\u{FB7D}", "\u{FB8A}", "\u{FB8B}", "\u{FB94}", "\u{FBA9}", "\u{FE81}", "\u{FE8A}",
        "\u{FEEB}", " \u{064B}", "e\u{0306}",
    ];
    baseline.iter().chain(patterns.iter()).any(|pattern| text.contains(pattern))
}

#[test]
fn canonical_form_is_trimmed_and_free_of_patterns() {
    for sample in samples() {
        for profile in PROFILES {
            let expected = sample.trim() == sample && !holds_a_pattern(&sample, profile);
            assert_eq!(in_canonical_form(&sample, profile), expected, "{:?}", sample);
        }
    }
}

#[test]
fn canonical_form_is_what_canonicalizing_leaves_alone() {
    for sample in samples() {
        for profile in PROFILES {
            assert_eq!(
                in_canonical_form(&sample, profile),
                canonicalize(&sample, profile) == sample
            );
        }
    }
}

#[test]
fn a_second_pass_changes_nothing_exactly_where_the_first_ends_canonical() {
    let mut kept = 0;
    let mut changed = 0;
    for sample in samples() {
        for profile in PROFILES {
            let once = canonicalize(&sample, profile);
            let twice = canonicalize(&once, profile);
            assert_eq!(twice == once, in_canonical_form(&once, profile));
            if twice == once {
                kept += 1;
            } else {
                changed += 1;
            }
        }
    }
    assert!(kept > 0);
    assert!(changed > 0);
}

#[test]
fn a_second_pass_can_change_what_the_first_left() {
    // A removed joiner bares a space at the start.
    assert_eq!(clean_simple("\u{200D} a"), " a");
    assert_eq!(clean_simple(" a"), "a");
    // Of two spaces before fathatan one pass takes one.
    assert_eq!(clean_hw_per("a  \u{064B}"), "a \u{064B}");
    assert_eq!(clean_hw_per("a \u{064B}"), "a\u{064B}");
    // The turned comma that a middle dot becomes is a baseline pattern.
    assert_eq!(clean_defs("\u{00B7}"), "\u{02BB}");
    assert_eq!(clean_defs("\u{02BB}"), "\u{2018}");
}
