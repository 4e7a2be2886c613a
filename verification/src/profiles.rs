//! The four canonicalization profiles: the rule list of each, and the
//! canonical form that it gives a text.
//!
//! Every profile trims the text and applies the baseline rules, then rules of
//! its own. Within a list the order matters: a rule that folds a letter and a
//! combining mark into one scalar value stands before any rule that rewrites
//! the mark alone.
//!
//! A text is in canonical form when the profile would leave it as it is. What
//! a profile makes of a text need not be in canonical form: the laws below
//! say when it is.

use vstd::prelude::*;
use crate::rewrite::{
    all_shrink, apply_rule_list, apply_rules, free_of, lemma_apply_rules_absent,
    lemma_apply_rules_concat, lemma_apply_rules_mass, models, shrinks, Rule, RuleModel,
};
use crate::text::{
    chars_of, is_trimmed, lemma_mass_trim, lemma_trim_fixed_point, mass, positive, same_text,
    string_of, trim, trim_chars,
};

verus! {

/// The kind of field that a text is canonicalized for.
#[derive(Debug, Clone, Copy, PartialEq, Eq, Structural)]
pub enum Profile {
    /// The whole headword, both scripts.
    FullHeadword,
    /// The headword in Persian script.
    PersianHeadword,
    /// The headword in Latin transliteration.
    LatinHeadword,
    /// The body of the definitions.
    Definitions,
}

/// The rule that rewrites the one scalar value `from` to `to`.
pub open spec fn swap(from: char, to: char) -> RuleModel {
    RuleModel { pattern: seq![from], replacement: seq![to] }
}

/// The rule that removes the one scalar value `c`.
pub open spec fn strip(c: char) -> RuleModel {
    RuleModel { pattern: seq![c], replacement: Seq::empty() }
}

/// The rule that rewrites `pattern` to `replacement`.
pub open spec fn compound(pattern: Seq<char>, replacement: Seq<char>) -> RuleModel {
    RuleModel { pattern, replacement }
}

/// The rules that every profile applies first.
pub open spec fn baseline() -> Seq<RuleModel> {
    seq![
        swap('\u{02BB}', '\u{2018}'),
        swap('\u{02BC}', '\u{2019}'),
        swap('\u{0320}', '\u{0331}'),
        swap('\u{0643}', '\u{06A9}'),
        swap('\u{0649}', '\u{06CC}'),
        swap('\u{064A}', '\u{06CC}'),
        swap('\u{066E}', '\u{0628}'),
        swap('\u{0680}', '\u{067E}'),
        swap('\u{06B1}', '\u{06AF}'),
        swap('\u{06BE}', '\u{0647}'),
        strip('\u{200D}'),
        strip('\u{200F}'),
        swap('\u{FB58}', '\u{067E}'),
        swap('\u{FB59}', '\u{067E}'),
        swap('\u{FB7D}', '\u{0686}'),
        swap('\u{FB8A}', '\u{0698}'),
        swap('\u{FB8B}', '\u{0698}'),
        swap('\u{FB94}', '\u{06AF}'),
        swap('\u{FBA9}', '\u{0647}'),
        swap('\u{FE81}', '\u{0622}'),
        swap('\u{FE8A}', '\u{0626}'),
        swap('\u{FEEB}', '\u{0647}'),
        compound(seq!['\u{0020}', '\u{064B}'], seq!['\u{064B}']),
        compound(seq!['\u{0065}', '\u{0306}'], seq!['\u{0115}']),
    ]
}

/// The rules that `profile` applies after the baseline.
pub open spec fn extension(profile: Profile) -> Seq<RuleModel> {
    match profile {
        Profile::FullHeadword => seq![
            compound(seq!['\u{0020}', '\u{0650}'], Seq::empty()),
            strip('\u{0650}'),
            compound(seq!['\u{0022}'], seq!['\u{2018}', '\u{2018}']),
            strip('\u{003B}'),
            swap('\u{00E0}', '\u{0061}'),
            swap('\u{00E2}', '\u{0101}'),
            swap('\u{1E33}', '\u{006B}'),
            swap('\u{1E61}', '\u{1E63}'),
            swap('\u{2039}', '\u{012B}'),
            swap('\u{FB7A}', '\u{0686}'),
            compound(seq!['\u{0020}', '\u{064C}'], seq!['\u{064B}']),
            compound(seq!['\u{0020}', '\u{064F}'], seq!['\u{064B}']),
            compound(seq!['\u{0627}', '\u{064E}'], seq!['\u{0622}']),
            compound(seq!['\u{06CC}', '\u{064E}'], seq!['\u{06CC}']),
        ],
        Profile::PersianHeadword => seq![
            compound(seq!['\u{0020}', '\u{0650}'], Seq::empty()),
            strip('\u{0650}'),
            compound(seq!['\u{0020}', '\u{064C}'], seq!['\u{064B}']),
            compound(seq!['\u{0020}', '\u{064D}'], seq!['\u{064D}']),
            compound(seq!['\u{0020}', '\u{064F}'], seq!['\u{064B}']),
            compound(seq!['\u{0627}', '\u{064E}'], seq!['\u{0622}']),
            compound(seq!['\u{06CC}', '\u{064E}'], seq!['\u{06CC}']),
        ],
        Profile::LatinHeadword => seq![
            compound(seq!['\u{0022}'], seq!['\u{2018}', '\u{2018}']),
            swap('\u{00E0}', '\u{0061}'),
            swap('\u{00E2}', '\u{0101}'),
            swap('\u{1E33}', '\u{006B}'),
            swap('\u{1E61}', '\u{1E63}'),
            swap('\u{2039}', '\u{012B}'),
        ],
        Profile::Definitions => seq![
            swap('\u{04D4}', '\u{00C6}'),
            swap('\u{0680}', '\u{067E}'),
            swap('\u{00FB}', '\u{016B}'),
            swap('\u{FE81}', '\u{0622}'),
            swap('\u{00B7}', '\u{02BB}'),
            swap('\u{20A4}', '\u{00A3}'),
            swap('\u{017C}', '\u{1E93}'),
            swap('\u{00C1}', '\u{0041}'),
            compound(seq!['\u{0065}', '\u{0306}'], seq!['\u{0115}']),
            swap('\u{0306}', '\u{02D8}'),
            compound(
                seq!['\u{002F}', '\u{061F}', '\u{002F}'],
                seq!['\u{0640}', '\u{0640}', '\u{0653}', '\u{0640}'],
            ),
        ],
    }
}

/// The whole rule list of `profile`: the baseline, then its own rules.
pub open spec fn rules_of(profile: Profile) -> Seq<RuleModel> {
    baseline() + extension(profile)
}

/// `text` trimmed and rewritten by the baseline rules alone.
pub open spec fn simple_form(text: Seq<char>) -> Seq<char> {
    apply_rules(trim(text), baseline())
}

/// The canonical form of `text` under `profile`.
pub open spec fn canonical(text: Seq<char>, profile: Profile) -> Seq<char> {
    apply_rules(trim(text), rules_of(profile))
}

/// `text` is in canonical form under `profile`: neither end is white space
/// and no pattern of the profile stands in it.
pub open spec fn is_canonical(text: Seq<char>, profile: Profile) -> bool {
    is_trimmed(text) && free_of(text, rules_of(profile))
}

/// A profile rewrites what the baseline alone gives: its own rules pick up
/// where the baseline rules end.
pub proof fn lemma_canonical_extends_simple(text: Seq<char>, profile: Profile)
    ensures
        canonical(text, profile) == apply_rules(simple_form(text), extension(profile)),
{
    lemma_apply_rules_concat(trim(text), baseline(), extension(profile));
}

/// A weight for every scalar value, under which every rule of every profile
/// shrinks: a value that some rule rewrites weighs more than what it is
/// rewritten to.
spec fn weight(c: char) -> nat {
    if c == '\u{0022}' || c == '\u{00B7}' || c == '\u{061F}' {
        3
    } else if c == '\u{00C1}' || c == '\u{00E0}' || c == '\u{00E2}' || c == '\u{00FB}' || c
        == '\u{017C}' || c == '\u{02BB}' || c == '\u{02BC}' || c == '\u{0306}' || c == '\u{0320}'
        || c == '\u{04D4}' || c == '\u{0643}' || c == '\u{0649}' || c == '\u{064A}' || c
        == '\u{066E}' || c == '\u{0680}' || c == '\u{06B1}' || c == '\u{06BE}' || c == '\u{1E33}'
        || c == '\u{1E61}' || c == '\u{2039}' || c == '\u{20A4}' || c == '\u{FB58}' || c
        == '\u{FB59}' || c == '\u{FB7A}' || c == '\u{FB7D}' || c == '\u{FB8A}' || c == '\u{FB8B}'
        || c == '\u{FB94}' || c == '\u{FBA9}' || c == '\u{FE81}' || c == '\u{FE8A}' || c
        == '\u{FEEB}' {
        2
    } else {
        1
    }
}

/// The mass of a text under `weight`.
spec fn weigh(text: Seq<char>) -> nat {
    mass(text, |c: char| weight(c))
}

/// The weights of the first four scalar values of `text`, summed.
spec fn weigh_four(text: Seq<char>) -> nat {
    (if text.len() > 0 {
        weight(text[0])
    } else {
        0
    }) + (if text.len() > 1 {
        weight(text[1])
    } else {
        0
    }) + (if text.len() > 2 {
        weight(text[2])
    } else {
        0
    }) + (if text.len() > 3 {
        weight(text[3])
    } else {
        0
    })
}

/// The mass of a text of up to four scalar values is the sum of their weights.
proof fn lemma_weigh_short(text: Seq<char>)
    requires
        text.len() <= 4,
    ensures
        weigh(text) == weigh_four(text),
    decreases text.len(),
{
    if text.len() > 0 {
        lemma_weigh_short(text.drop_last());
    }
}

/// Every baseline rule shrinks.
proof fn lemma_baseline_shrinks()
    ensures
        all_shrink(baseline(), |c: char| weight(c)),
{
    let w = |c: char| weight(c);
    assert forall|k: int| 0 <= k < baseline().len() implies shrinks(
        #[trigger] baseline()[k],
        w,
    ) by {
        lemma_weigh_short(baseline()[k].pattern);
        lemma_weigh_short(baseline()[k].replacement);
    }
}

/// Every rule that a profile adds to the baseline shrinks.
proof fn lemma_extension_shrinks(profile: Profile)
    ensures
        all_shrink(extension(profile), |c: char| weight(c)),
{
    let w = |c: char| weight(c);
    let rules = extension(profile);
    assert forall|k: int| 0 <= k < rules.len() implies shrinks(#[trigger] rules[k], w) by {
        lemma_weigh_short(rules[k].pattern);
        lemma_weigh_short(rules[k].replacement);
    }
}

/// Every rule of a profile shrinks.
proof fn lemma_rules_shrink(profile: Profile)
    ensures
        all_shrink(rules_of(profile), |c: char| weight(c)),
{
    let w = |c: char| weight(c);
    lemma_baseline_shrinks();
    lemma_extension_shrinks(profile);
    let own = extension(profile);
    assert forall|k: int| 0 <= k < rules_of(profile).len() implies shrinks(
        #[trigger] rules_of(profile)[k],
        w,
    ) by {
        if k < baseline().len() {
            assert(rules_of(profile)[k] == baseline()[k]);
        } else {
            assert(rules_of(profile)[k] == own[k - baseline().len()]);
        }
    }
}

/// A text is its own canonical form exactly when it is in canonical form.
pub proof fn lemma_canonical_fixed_point(text: Seq<char>, profile: Profile)
    ensures
        canonical(text, profile) == text <==> is_canonical(text, profile),
{
    let w = |c: char| weight(c);
    lemma_trim_fixed_point(text);
    if is_canonical(text, profile) {
        lemma_apply_rules_absent(text, rules_of(profile));
    } else {
        // One step at least takes mass off the text, and none gives any back.
        assert(positive(w)) by {
            assert forall|c: char| #[trigger] w(c) > 0 by {}
        }
        lemma_mass_trim(text, w);
        lemma_rules_shrink(profile);
        lemma_apply_rules_mass(trim(text), rules_of(profile), w);
    }
}

/// Canonicalizing twice gives what canonicalizing once gives, wherever the
/// first pass ends in canonical form.
pub proof fn lemma_canonical_idempotent(text: Seq<char>, profile: Profile)
    requires
        is_canonical(canonical(text, profile), profile),
    ensures
        canonical(canonical(text, profile), profile) == canonical(text, profile),
{
    lemma_canonical_fixed_point(canonical(text, profile), profile);
}

/// Wherever the first pass does not end in canonical form, a second pass
/// changes the text again. This happens: a rule can leave behind what an
/// earlier rule, or the same one, rewrites, and the removal of a zero-width
/// mark can bare white space at an end.
pub proof fn lemma_second_pass_changes(text: Seq<char>, profile: Profile)
    requires
        !is_canonical(canonical(text, profile), profile),
    ensures
        canonical(canonical(text, profile), profile) != canonical(text, profile),
{
    lemma_canonical_fixed_point(canonical(text, profile), profile);
}

/// Appends to `rules` the rule that rewrites `pattern` to `replacement`.
fn push_compound(rules: &mut Vec<Rule>, pattern: Vec<char>, replacement: Vec<char>)
    requires
        pattern@.len() > 0,
    ensures
        models(final(rules)@) == models(old(rules)@).push(compound(pattern@, replacement@)),
{
    match Rule::of_chars(pattern, replacement) {
        Some(rule) => {
            rules.push(rule);
            assert(models(rules@) =~= models(old(rules)@).push(rule@));
        },
        None => {},
    }
}

/// Appends to `rules` the rule that rewrites `from` to `to`.
fn push_swap(rules: &mut Vec<Rule>, from: char, to: char)
    ensures
        models(final(rules)@) == models(old(rules)@).push(swap(from, to)),
{
    let mut pattern: Vec<char> = Vec::new();
    pattern.push(from);
    let mut replacement: Vec<char> = Vec::new();
    replacement.push(to);
    push_compound(rules, pattern, replacement);
}

/// Appends to `rules` the rule that removes `c`.
fn push_strip(rules: &mut Vec<Rule>, c: char)
    ensures
        models(final(rules)@) == models(old(rules)@).push(strip(c)),
{
    let mut pattern: Vec<char> = Vec::new();
    pattern.push(c);
    push_compound(rules, pattern, Vec::new());
}

/// A rule list with no rule in it.
fn no_rules() -> (rules: Vec<Rule>)
    ensures
        models(rules@) == Seq::<RuleModel>::empty(),
{
    let rules: Vec<Rule> = Vec::new();
    assert(models(rules@) =~= Seq::<RuleModel>::empty());
    rules
}

/// The text of two scalar values.
fn pair(a: char, b: char) -> (v: Vec<char>)
    ensures
        v@ == seq![a, b],
{
    let mut v: Vec<char> = Vec::new();
    v.push(a);
    v.push(b);
    v
}

/// The text of one scalar value.
fn single(a: char) -> (v: Vec<char>)
    ensures
        v@ == seq![a],
{
    let mut v: Vec<char> = Vec::new();
    v.push(a);
    v
}

/// The rules that every profile applies first.
pub fn baseline_rules() -> (rules: Vec<Rule>)
    ensures
        models(rules@) == baseline(),
{
    let mut rules = no_rules();
    push_swap(&mut rules, '\u{02BB}', '\u{2018}');  // turned comma to left quote
    push_swap(&mut rules, '\u{02BC}', '\u{2019}');  // modifier apostrophe to right quote
    push_swap(&mut rules, '\u{0320}', '\u{0331}');  // minus sign below to macron below
    push_swap(&mut rules, '\u{0643}', '\u{06A9}');  // Arabic kaf to Persian kaf
    push_swap(&mut rules, '\u{0649}', '\u{06CC}');  // alif maqsura to Persian ya
    push_swap(&mut rules, '\u{064A}', '\u{06CC}');  // Arabic ya to Persian ya
    push_swap(&mut rules, '\u{066E}', '\u{0628}');  // dotless ba
    push_swap(&mut rules, '\u{0680}', '\u{067E}');  // four-dotted pa
    push_swap(&mut rules, '\u{06B1}', '\u{06AF}');  // ngoeh to gaf
    push_swap(&mut rules, '\u{06BE}', '\u{0647}');  // ha do-chashmeh
    push_strip(&mut rules, '\u{200D}');  // zero-width joiner
    push_strip(&mut rules, '\u{200F}');  // right-to-left mark
    push_swap(&mut rules, '\u{FB58}', '\u{067E}');  // pa, initial form
    push_swap(&mut rules, '\u{FB59}', '\u{067E}');  // pa, medial form
    push_swap(&mut rules, '\u{FB7D}', '\u{0686}');  // cha, medial form
    push_swap(&mut rules, '\u{FB8A}', '\u{0698}');  // zha, isolated form
    push_swap(&mut rules, '\u{FB8B}', '\u{0698}');  // zha, final form
    push_swap(&mut rules, '\u{FB94}', '\u{06AF}');  // gaf, initial form
    push_swap(&mut rules, '\u{FBA9}', '\u{0647}');  // ha, medial form
    push_swap(&mut rules, '\u{FE81}', '\u{0622}');  // alif madda, isolated form
    push_swap(&mut rules, '\u{FE8A}', '\u{0626}');  // ya with hamza, final form
    push_swap(&mut rules, '\u{FEEB}', '\u{0647}');  // ha, initial form
    push_compound(&mut rules, pair('\u{0020}', '\u{064B}'), single('\u{064B}'));  // space before fathatan
    push_compound(&mut rules, pair('\u{0065}', '\u{0306}'), single('\u{0115}'));  // e with breve
    rules
}

/// The rules of the full headword after the baseline.
fn full_headword_rules() -> (rules: Vec<Rule>)
    ensures
        models(rules@) == extension(Profile::FullHeadword),
{
    let mut rules = no_rules();
    // Vowel marks that the headword leaves out.
    push_compound(&mut rules, pair('\u{0020}', '\u{0650}'), Vec::new());  // space and kasra
    push_strip(&mut rules, '\u{0650}');  // kasra
    // Single letters and diacritics.
    push_compound(&mut rules, single('\u{0022}'), pair('\u{2018}', '\u{2018}'));  // double ayn
    push_strip(&mut rules, '\u{003B}');  // semicolon
    push_swap(&mut rules, '\u{00E0}', '\u{0061}');  // a with grave
    push_swap(&mut rules, '\u{00E2}', '\u{0101}');  // a with circumflex
    push_swap(&mut rules, '\u{1E33}', '\u{006B}');  // k with dot below
    push_swap(&mut rules, '\u{1E61}', '\u{1E63}');  // s with dot above
    push_swap(&mut rules, '\u{2039}', '\u{012B}');  // single left angle quote
    push_swap(&mut rules, '\u{FB7A}', '\u{0686}');  // cha, isolated form
    // Compounds, and the words that need a fix of their own.
    push_compound(&mut rules, pair('\u{0020}', '\u{064C}'), single('\u{064B}'));  // muwajahatan
    push_compound(&mut rules, pair('\u{0020}', '\u{064F}'), single('\u{064B}'));  // yasiran
    push_compound(&mut rules, pair('\u{0627}', '\u{064E}'), single('\u{0622}'));  // alif and fatha
    push_compound(&mut rules, pair('\u{06CC}', '\u{064E}'), single('\u{06CC}'));  // maris
    rules
}

/// The rules of the Persian-script headword after the baseline.
fn persian_headword_rules() -> (rules: Vec<Rule>)
    ensures
        models(rules@) == extension(Profile::PersianHeadword),
{
    let mut rules = no_rules();
    // The first two stay in this order: the kasra with its space first, any
    // kasra that is left after it.
    push_compound(&mut rules, pair('\u{0020}', '\u{0650}'), Vec::new());  // space and kasra
    push_strip(&mut rules, '\u{0650}');  // kasra
    push_compound(&mut rules, pair('\u{0020}', '\u{064C}'), single('\u{064B}'));  // muwajahatan
    push_compound(&mut rules, pair('\u{0020}', '\u{064D}'), single('\u{064D}'));  // space before kasratan
    push_compound(&mut rules, pair('\u{0020}', '\u{064F}'), single('\u{064B}'));  // yasiran
    push_compound(&mut rules, pair('\u{0627}', '\u{064E}'), single('\u{0622}'));  // alif and fatha
    push_compound(&mut rules, pair('\u{06CC}', '\u{064E}'), single('\u{06CC}'));  // maris
    rules
}

/// The rules of the Latin headword after the baseline.
fn latin_headword_rules() -> (rules: Vec<Rule>)
    ensures
        models(rules@) == extension(Profile::LatinHeadword),
{
    let mut rules = no_rules();
    push_compound(&mut rules, single('\u{0022}'), pair('\u{2018}', '\u{2018}'));  // double ayn
    push_swap(&mut rules, '\u{00E0}', '\u{0061}');  // a with grave
    push_swap(&mut rules, '\u{00E2}', '\u{0101}');  // a with circumflex
    push_swap(&mut rules, '\u{1E33}', '\u{006B}');  // k with dot below
    push_swap(&mut rules, '\u{1E61}', '\u{1E63}');  // s with dot above
    push_swap(&mut rules, '\u{2039}', '\u{012B}');  // single left angle quote
    rules
}

/// The rules of the definitions after the baseline.
fn definition_rules() -> (rules: Vec<Rule>)
    ensures
        models(rules@) == extension(Profile::Definitions),
{
    let mut rules = no_rules();
    push_swap(&mut rules, '\u{04D4}', '\u{00C6}');  // Cyrillic ligature to Latin
    push_swap(&mut rules, '\u{0680}', '\u{067E}');  // four-dotted pa
    push_swap(&mut rules, '\u{00FB}', '\u{016B}');  // u with circumflex
    push_swap(&mut rules, '\u{FE81}', '\u{0622}');  // alif madda, isolated form
    push_swap(&mut rules, '\u{00B7}', '\u{02BB}');  // middle dot
    push_swap(&mut rules, '\u{20A4}', '\u{00A3}');  // lira sign to pound sign
    push_swap(&mut rules, '\u{017C}', '\u{1E93}');  // z with dot above
    push_swap(&mut rules, '\u{00C1}', '\u{0041}');  // A with acute
    // The breve rules stay in this order: the letter with its breve first,
    // any breve that is left after it.
    push_compound(&mut rules, pair('\u{0065}', '\u{0306}'), single('\u{0115}'));  // e with breve
    push_swap(&mut rules, '\u{0306}', '\u{02D8}');  // combining breve
    let mut pattern = pair('\u{002F}', '\u{061F}');
    pattern.push('\u{002F}');
    let mut replacement = pair('\u{0640}', '\u{0640}');
    replacement.push('\u{0653}');
    replacement.push('\u{0640}');
    assert(pattern@ =~= seq!['\u{002F}', '\u{061F}', '\u{002F}']);
    assert(replacement@ =~= seq!['\u{0640}', '\u{0640}', '\u{0653}', '\u{0640}']);
    push_compound(&mut rules, pattern, replacement);  // lone madda
    rules
}

/// The rules that `profile` applies after the baseline.
pub fn extension_rules(profile: Profile) -> (rules: Vec<Rule>)
    ensures
        models(rules@) == extension(profile),
{
    match profile {
        Profile::FullHeadword => full_headword_rules(),
        Profile::PersianHeadword => persian_headword_rules(),
        Profile::LatinHeadword => latin_headword_rules(),
        Profile::Definitions => definition_rules(),
    }
}

/// The whole rule list of `profile`: the baseline, then its own rules.
pub fn profile_rules(profile: Profile) -> (rules: Vec<Rule>)
    ensures
        models(rules@) == rules_of(profile),
{
    let mut rules = baseline_rules();
    let mut own = extension_rules(profile);
    let ghost first = rules@;
    let ghost then = own@;
    rules.append(&mut own);
    assert(models(first + then) =~= models(first) + models(then));
    rules
}

/// The canonical form of `text` under `profile`.
pub fn canonicalize(text: &str, profile: Profile) -> (out: String)
    ensures
        out@ == canonical(text@, profile),
{
    let rules = profile_rules(profile);
    let trimmed = trim_chars(&chars_of(text));
    string_of(&apply_rule_list(trimmed, &rules))
}

/// Decides whether `text` is in canonical form under `profile`: whether
/// canonicalizing it would leave it as it is.
pub fn in_canonical_form(text: &str, profile: Profile) -> (b: bool)
    ensures
        b == is_canonical(text@, profile),
{
    proof {
        lemma_canonical_fixed_point(text@, profile);
    }
    let form = canonicalize(text, profile);
    same_text(form.as_str(), text)
}

/// `input` trimmed and rewritten by the baseline rules alone.
pub fn clean_simple(input: &str) -> (out: String)
    ensures
        out@ == simple_form(input@),
{
    let rules = baseline_rules();
    let trimmed = trim_chars(&chars_of(input));
    string_of(&apply_rule_list(trimmed, &rules))
}

} // verus!
