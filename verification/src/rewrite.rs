//! Literal rewrite rules and ordered rule lists over text.
//!
//! A rule replaces every occurrence of its pattern, found left to right and
//! without overlap, by its replacement; text that a rule has produced is not
//! scanned again by that rule. A rule list applies its rules one after the
//! other, each to the whole output of the one before, so the order of the
//! list is part of its meaning.

use vstd::prelude::*;
use crate::text::{chars_of, lemma_mass_concat, mass, string_of};

verus! {

/// A rewrite rule as a pair of texts.
pub struct RuleModel {
    pub pattern: Seq<char>,
    pub replacement: Seq<char>,
}

/// `pattern` stands in `text` at index `i`.
pub open spec fn matches_at(text: Seq<char>, pattern: Seq<char>, i: int) -> bool {
    0 <= i && i + pattern.len() <= text.len() && text.subrange(i, i + pattern.len()) == pattern
}

/// `pattern` stands somewhere in `text`.
pub open spec fn occurs(text: Seq<char>, pattern: Seq<char>) -> bool {
    exists|i: int| matches_at(text, pattern, i)
}

/// `text` with every occurrence of `pattern`, taken left to right without
/// overlap, replaced by `replacement`. An empty pattern matches nowhere.
pub open spec fn replace_all(text: Seq<char>, pattern: Seq<char>, replacement: Seq<char>) -> Seq<
    char,
>
    decreases text.len(),
{
    if text.len() == 0 {
        text
    } else if pattern.len() > 0 && matches_at(text, pattern, 0) {
        replacement + replace_all(text.skip(pattern.len() as int), pattern, replacement)
    } else {
        seq![text.first()] + replace_all(text.drop_first(), pattern, replacement)
    }
}

/// `text` after each rule of `rules` in turn, first to last.
pub open spec fn apply_rules(text: Seq<char>, rules: Seq<RuleModel>) -> Seq<char>
    decreases rules.len(),
{
    if rules.len() == 0 {
        text
    } else {
        replace_all(
            apply_rules(text, rules.drop_last()),
            rules.last().pattern,
            rules.last().replacement,
        )
    }
}

/// No pattern of `rules` stands anywhere in `text`.
pub open spec fn free_of(text: Seq<char>, rules: Seq<RuleModel>) -> bool {
    forall|k: int| 0 <= k < rules.len() ==> !occurs(text, #[trigger] rules[k].pattern)
}

/// A rule whose pattern is absent leaves the text as it is.
pub proof fn lemma_replace_absent(text: Seq<char>, pattern: Seq<char>, replacement: Seq<char>)
    requires
        !occurs(text, pattern),
    ensures
        replace_all(text, pattern, replacement) == text,
    decreases text.len(),
{
    if text.len() > 0 {
        assert(!matches_at(text, pattern, 0));
        let rest = text.drop_first();
        assert forall|j: int| !matches_at(rest, pattern, j) by {
            if matches_at(rest, pattern, j) {
                assert(rest.subrange(j, j + pattern.len()) == text.subrange(
                    j + 1,
                    j + 1 + pattern.len(),
                ));
                assert(matches_at(text, pattern, j + 1));
            }
        }
        lemma_replace_absent(rest, pattern, replacement);
        assert(seq![text.first()] + rest == text);
    }
}

/// A rule list none of whose patterns is present leaves the text as it is.
pub proof fn lemma_apply_rules_absent(text: Seq<char>, rules: Seq<RuleModel>)
    requires
        free_of(text, rules),
    ensures
        apply_rules(text, rules) == text,
    decreases rules.len(),
{
    if rules.len() > 0 {
        let init = rules.drop_last();
        assert forall|k: int| 0 <= k < init.len() implies !occurs(
            text,
            #[trigger] init[k].pattern,
        ) by {
            assert(init[k] == rules[k]);
        }
        lemma_apply_rules_absent(text, init);
        assert(!occurs(text, rules[rules.len() - 1].pattern));
        lemma_replace_absent(text, rules.last().pattern, rules.last().replacement);
    }
}

/// Applying two lists in turn is applying their concatenation.
pub proof fn lemma_apply_rules_concat(text: Seq<char>, first: Seq<RuleModel>, then: Seq<RuleModel>)
    ensures
        apply_rules(text, first + then) == apply_rules(apply_rules(text, first), then),
    decreases then.len(),
{
    if then.len() == 0 {
        assert(first + then == first);
    } else {
        assert((first + then).drop_last() == first + then.drop_last());
        assert((first + then).last() == then.last());
        lemma_apply_rules_concat(text, first, then.drop_last());
    }
}

/// The replacement of `rule` weighs less than its pattern.
pub open spec fn shrinks(rule: RuleModel, weight: spec_fn(char) -> nat) -> bool {
    mass(rule.replacement, weight) < mass(rule.pattern, weight)
}

/// Every rule of `rules` shrinks.
pub open spec fn all_shrink(rules: Seq<RuleModel>, weight: spec_fn(char) -> nat) -> bool {
    forall|k: int| 0 <= k < rules.len() ==> shrinks(#[trigger] rules[k], weight)
}

/// A rule that shrinks takes mass off a text in which its pattern stands, and
/// adds none to any.
pub proof fn lemma_replace_mass(
    text: Seq<char>,
    pattern: Seq<char>,
    replacement: Seq<char>,
    weight: spec_fn(char) -> nat,
)
    requires
        mass(replacement, weight) < mass(pattern, weight),
    ensures
        mass(replace_all(text, pattern, replacement), weight) <= mass(text, weight),
        occurs(text, pattern) ==> mass(replace_all(text, pattern, replacement), weight) < mass(
            text,
            weight,
        ),
    decreases text.len(),
{
    assert(pattern.len() > 0);
    if text.len() == 0 {
        assert forall|j: int| !matches_at(text, pattern, j) by {}
    } else if matches_at(text, pattern, 0) {
        let rest = text.skip(pattern.len() as int);
        lemma_replace_mass(rest, pattern, replacement, weight);
        lemma_mass_concat(replacement, replace_all(rest, pattern, replacement), weight);
        assert(text == pattern + rest);
        lemma_mass_concat(pattern, rest, weight);
    } else {
        let rest = text.drop_first();
        let head = seq![text.first()];
        lemma_replace_mass(rest, pattern, replacement, weight);
        lemma_mass_concat(head, replace_all(rest, pattern, replacement), weight);
        assert(head + rest == text);
        lemma_mass_concat(head, rest, weight);
        if occurs(text, pattern) {
            let i = choose|i: int| matches_at(text, pattern, i);
            assert(rest.subrange(i - 1, i - 1 + pattern.len()) == text.subrange(
                i,
                i + pattern.len(),
            ));
            assert(matches_at(rest, pattern, i - 1));
        }
    }
}

/// A list of rules that shrink takes mass off a text in which one of its
/// patterns stands, and adds none to any.
pub proof fn lemma_apply_rules_mass(
    text: Seq<char>,
    rules: Seq<RuleModel>,
    weight: spec_fn(char) -> nat,
)
    requires
        all_shrink(rules, weight),
    ensures
        mass(apply_rules(text, rules), weight) <= mass(text, weight),
        !free_of(text, rules) ==> mass(apply_rules(text, rules), weight) < mass(text, weight),
    decreases rules.len(),
{
    if rules.len() > 0 {
        let init = rules.drop_last();
        let last = rules.last();
        assert forall|k: int| 0 <= k < init.len() implies shrinks(#[trigger] init[k], weight) by {
            assert(init[k] == rules[k]);
        }
        lemma_apply_rules_mass(text, init, weight);
        let mid = apply_rules(text, init);
        assert(shrinks(rules[rules.len() - 1], weight));
        lemma_replace_mass(mid, last.pattern, last.replacement, weight);
        if !free_of(text, rules) && free_of(text, init) {
            lemma_apply_rules_absent(text, init);
            let k = choose|k: int| 0 <= k < rules.len() && occurs(text, #[trigger] rules[k].pattern);
            if k < init.len() {
                assert(init[k] == rules[k]);
            }
        }
    }
}

/// A rewrite rule: a pattern of one or more scalar values and the text that
/// replaces it.
pub struct Rule {
    pattern: Vec<char>,
    replacement: Vec<char>,
}

impl View for Rule {
    type V = RuleModel;

    closed spec fn view(&self) -> RuleModel {
        RuleModel { pattern: self.pattern@, replacement: self.replacement@ }
    }
}

impl DeepView for Rule {
    type V = RuleModel;

    open spec fn deep_view(&self) -> RuleModel {
        self.view()
    }
}

impl Rule {
    #[verifier::type_invariant]
    spec fn well_formed(self) -> bool {
        self.pattern@.len() > 0
    }

    /// The rule that rewrites `pattern` to `replacement`; none for an empty
    /// pattern.
    pub fn new(pattern: &str, replacement: &str) -> (r: Option<Rule>)
        ensures
            r is Some <==> pattern@.len() > 0,
            r matches Some(rule) ==> rule@ == (RuleModel {
                pattern: pattern@,
                replacement: replacement@,
            }),
    {
        Rule::of_chars(chars_of(pattern), chars_of(replacement))
    }

    /// As `new`, from scalar values.
    pub fn of_chars(pattern: Vec<char>, replacement: Vec<char>) -> (r: Option<Rule>)
        ensures
            r is Some <==> pattern@.len() > 0,
            r matches Some(rule) ==> rule@ == (RuleModel {
                pattern: pattern@,
                replacement: replacement@,
            }),
    {
        if pattern.len() == 0 {
            None
        } else {
            Some(Rule { pattern, replacement })
        }
    }

    /// This rule applied to `text`.
    pub fn apply(&self, text: &Vec<char>) -> (out: Vec<char>)
        ensures
            out@ == replace_all(text@, self@.pattern, self@.replacement),
    {
        replace_chars(text, &self.pattern, &self.replacement)
    }
}

/// Decides whether `pattern` stands in `text` at index `i`.
fn matches_here(text: &Vec<char>, pattern: &Vec<char>, i: usize) -> (b: bool)
    requires
        i + pattern.len() <= text.len(),
    ensures
        b == matches_at(text@, pattern@, i as int),
{
    let m: usize = pattern.len();
    let mut j: usize = 0;
    while j < m
        invariant
            j <= m == pattern.len(),
            i + m <= text.len(),
            forall|k: int| 0 <= k < j ==> text@[i + k] == pattern@[k],
        decreases m - j,
    {
        if text[i + j] != pattern[j] {
            assert(text@.subrange(i as int, i + m)[j as int] != pattern@[j as int]);
            return false;
        }
        j += 1;
    }
    assert(text@.subrange(i as int, i + m) =~= pattern@);
    true
}

/// `text` with every occurrence of `pattern` replaced by `replacement`.
pub fn replace_chars(text: &Vec<char>, pattern: &Vec<char>, replacement: &Vec<char>) -> (out: Vec<
    char,
>)
    ensures
        out@ == replace_all(text@, pattern@, replacement@),
{
    let n: usize = text.len();
    let m: usize = pattern.len();
    let mut out: Vec<char> = Vec::new();
    let mut i: usize = 0;
    assert(text@.skip(0) == text@);
    while i < n
        invariant
            i <= n == text.len(),
            m == pattern.len(),
            out@ + replace_all(text@.skip(i as int), pattern@, replacement@) == replace_all(
                text@,
                pattern@,
                replacement@,
            ),
        decreases n - i,
    {
        let ghost rest = text@.skip(i as int);
        let ghost before = out@;
        if m > 0 && m <= n - i && matches_here(text, pattern, i) {
            proof {
                assert(rest.subrange(0, m as int) == text@.subrange(i as int, i + m));
                assert(matches_at(rest, pattern@, 0));
                assert(rest.skip(m as int) == text@.skip(i + m));
            }
            let mut k: usize = 0;
            while k < replacement.len()
                invariant
                    k <= replacement.len(),
                    out@ == before + replacement@.take(k as int),
                decreases replacement.len() - k,
            {
                out.push(replacement[k]);
                assert(replacement@.take(k + 1) == replacement@.take(k as int).push(
                    replacement@[k as int],
                ));
                k += 1;
            }
            proof {
                assert(replacement@.take(replacement@.len() as int) == replacement@);
                let tail = replace_all(text@.skip(i + m), pattern@, replacement@);
                assert((before + replacement@) + tail == before + (replacement@ + tail));
            }
            i += m;
        } else {
            proof {
                if m > 0 && m <= n - i {
                    assert(rest.subrange(0, m as int) == text@.subrange(i as int, i + m));
                }
                assert(!(pattern@.len() > 0 && matches_at(rest, pattern@, 0)));
                assert(rest.drop_first() == text@.skip(i + 1));
                let tail = replace_all(text@.skip(i + 1), pattern@, replacement@);
                assert(before.push(rest.first()) + tail == before + (seq![rest.first()] + tail));
            }
            out.push(text[i]);
            i += 1;
        }
    }
    assert(out@ + Seq::<char>::empty() == out@);
    out
}

/// The models of a list of rules, in order.
pub open spec fn models(rules: Seq<Rule>) -> Seq<RuleModel> {
    rules.map_values(|r: Rule| r@)
}

/// `text` after each rule of `rules` in turn, first to last.
pub fn apply_rule_list(text: Vec<char>, rules: &Vec<Rule>) -> (out: Vec<char>)
    ensures
        out@ == apply_rules(text@, models(rules@)),
{
    let ghost all = models(rules@);
    let ghost start = text@;
    let mut current = text;
    let mut k: usize = 0;
    while k < rules.len()
        invariant
            k <= rules.len(),
            all == models(rules@),
            current@ == apply_rules(start, all.take(k as int)),
        decreases rules.len() - k,
    {
        proof {
            assert(all.take(k + 1).drop_last() == all.take(k as int));
            assert(all.take(k + 1).last() == rules@[k as int]@);
        }
        current = rules[k].apply(&current);
        k += 1;
    }
    assert(all.take(all.len() as int) == all);
    current
}

/// `text` after each rule of `rules` in turn, first to last.
pub fn rewrite(text: &str, rules: &Vec<Rule>) -> (out: String)
    ensures
        out@ == apply_rules(text@, models(rules@)),
{
    let rewritten = apply_rule_list(chars_of(text), rules);
    string_of(&rewritten)
}

} // verus!
