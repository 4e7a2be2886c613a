//! Which scalar values each field of an entry may hold, and the report of
//! those that it may not.
//!
//! The five lists come from the caller. What is fixed here is which lists
//! each field draws on, and the few scalar values that a field takes although
//! no list holds them.

use vstd::prelude::*;
use crate::text::chars_of;

verus! {

/// Arabic letter high hamza: in no list, and taken wherever Arabic script is.
pub const HIGH_HAMZA: u32 = 0x0674;

/// The space: in no Arabic list, and taken in the Persian headword.
pub const SPACE: u32 = 0x0020;

/// A text field of an entry.
#[derive(Debug, Clone, Copy, PartialEq, Eq, Structural)]
pub enum Field {
    HeadwordFull,
    HeadwordPersian,
    HeadwordLatin,
    Definitions,
}

/// The lists of scalar values that the fields draw on.
#[derive(Debug, Clone, Default)]
pub struct Charsets {
    /// Arabic script.
    pub arabic_allowed: Vec<u32>,
    /// Latin script and what goes with it.
    pub other_allowed: Vec<u32>,
    /// Signs found in definitions alone.
    pub defs_misc: Vec<u32>,
    /// Greek letters, found in definitions alone.
    pub defs_greek: Vec<u32>,
    /// Hebrew letters, found in definitions alone.
    pub defs_hebrew: Vec<u32>,
}

/// A scalar value that stands in a field which does not allow it. It is a
/// finding, not a fault: the entry is assembled all the same.
#[derive(Debug, Clone, Copy, PartialEq, Eq, Structural)]
pub struct CharacterIntegrityViolation {
    /// The record that the field belongs to.
    pub id: u32,
    /// The field.
    pub field: Field,
    /// The scalar value.
    pub codepoint: u32,
}

impl Charsets {
    /// `field` may hold `c`.
    pub open spec fn allows(&self, field: Field, c: char) -> bool {
        let v = c as u32;
        match field {
            Field::HeadwordFull => {
                self.arabic_allowed@.contains(v) || self.other_allowed@.contains(v) || v
                    == HIGH_HAMZA
            },
            Field::HeadwordPersian => {
                self.arabic_allowed@.contains(v) || v == HIGH_HAMZA || v == SPACE
            },
            Field::HeadwordLatin => self.other_allowed@.contains(v),
            Field::Definitions => {
                self.arabic_allowed@.contains(v) || self.other_allowed@.contains(v)
                    || self.defs_misc@.contains(v) || self.defs_greek@.contains(v)
                    || self.defs_hebrew@.contains(v) || v == HIGH_HAMZA
            },
        }
    }

    /// `field` may hold every scalar value of `text`.
    pub open spec fn allows_all(&self, field: Field, text: Seq<char>) -> bool {
        forall|i: int| 0 <= i < text.len() ==> self.allows(field, #[trigger] text[i])
    }

    /// The scalar values of `text` that `field` may not hold, in the order of
    /// the text, each as a finding on record `id`.
    pub open spec fn violations(&self, id: u32, field: Field, text: Seq<char>) -> Seq<
        CharacterIntegrityViolation,
    >
        decreases text.len(),
    {
        if text.len() == 0 {
            Seq::empty()
        } else if self.allows(field, text.last()) {
            self.violations(id, field, text.drop_last())
        } else {
            self.violations(id, field, text.drop_last()).push(
                CharacterIntegrityViolation { id, field, codepoint: text.last() as u32 },
            )
        }
    }

    /// The findings on a text name its record and field, and are none exactly
    /// when the field may hold every scalar value of the text.
    pub proof fn lemma_violations(&self, id: u32, field: Field, text: Seq<char>)
        ensures
            self.violations(id, field, text).len() <= text.len(),
            self.violations(id, field, text).len() == 0 <==> self.allows_all(field, text),
            forall|k: int|
                0 <= k < self.violations(id, field, text).len() ==> {
                    let found = #[trigger] self.violations(id, field, text)[k];
                    &&& found.id == id
                    &&& found.field == field
                    &&& exists|i: int|
                        0 <= i < text.len() && !self.allows(field, text[i]) && found.codepoint
                            == text[i] as u32
                },
        decreases text.len(),
    {
        if text.len() > 0 {
            let init = text.drop_last();
            self.lemma_violations(id, field, init);
            let before = self.violations(id, field, init);
            let all = self.violations(id, field, text);
            if self.allows(field, text.last()) {
                assert forall|i: int| 0 <= i < text.len() && self.allows_all(
                    field,
                    init,
                ) implies self.allows(field, #[trigger] text[i]) by {
                    if i < init.len() {
                        assert(init[i] == text[i]);
                    }
                }
            } else {
                assert(!self.allows(field, text[text.len() - 1]));
            }
            if self.allows_all(field, text) {
                assert forall|i: int| 0 <= i < init.len() implies self.allows(
                    field,
                    #[trigger] init[i],
                ) by {
                    assert(init[i] == text[i]);
                }
            }
            assert forall|k: int| 0 <= k < all.len() implies {
                let found = #[trigger] all[k];
                &&& found.id == id
                &&& found.field == field
                &&& exists|i: int|
                    0 <= i < text.len() && !self.allows(field, text[i]) && found.codepoint
                        == text[i] as u32
            } by {
                if k < before.len() {
                    let found = before[k];
                    let i = choose|i: int|
                        0 <= i < init.len() && !self.allows(field, init[i]) && found.codepoint
                            == init[i] as u32;
                    assert(init[i] == text[i]);
                } else {
                    assert(all[k].codepoint == text[text.len() - 1] as u32);
                }
            }
        }
    }

    /// Decides whether `field` may hold `c`.
    pub fn permits(&self, field: Field, c: char) -> (b: bool)
        ensures
            b == self.allows(field, c),
    {
        let v: u32 = c as u32;
        match field {
            Field::HeadwordFull => {
                holds(&self.arabic_allowed, v) || holds(&self.other_allowed, v) || v == HIGH_HAMZA
            },
            Field::HeadwordPersian => {
                holds(&self.arabic_allowed, v) || v == HIGH_HAMZA || v == SPACE
            },
            Field::HeadwordLatin => holds(&self.other_allowed, v),
            Field::Definitions => {
                holds(&self.arabic_allowed, v) || holds(&self.other_allowed, v) || holds(
                    &self.defs_misc,
                    v,
                ) || holds(&self.defs_greek, v) || holds(&self.defs_hebrew, v) || v == HIGH_HAMZA
            },
        }
    }

    /// The scalar values of `text` that `field` may not hold, in the order of
    /// the text, each as a finding on record `id`.
    pub fn check_text(&self, id: u32, field: Field, text: &str) -> (found: Vec<
        CharacterIntegrityViolation,
    >)
        ensures
            found@ == self.violations(id, field, text@),
            found@.len() == 0 <==> self.allows_all(field, text@),
    {
        let chars = chars_of(text);
        let mut found: Vec<CharacterIntegrityViolation> = Vec::new();
        let mut i: usize = 0;
        assert(chars@.take(0) =~= Seq::<char>::empty());
        while i < chars.len()
            invariant
                i <= chars.len(),
                found@ == self.violations(id, field, chars@.take(i as int)),
            decreases chars.len() - i,
        {
            assert(chars@.take(i + 1).drop_last() == chars@.take(i as int));
            let c = chars[i];
            if !self.permits(field, c) {
                found.push(CharacterIntegrityViolation { id, field, codepoint: c as u32 });
            }
            i += 1;
        }
        proof {
            assert(chars@.take(chars@.len() as int) == chars@);
            self.lemma_violations(id, field, text@);
        }
        found
    }
}

/// Decides whether `list` holds `v`.
fn holds(list: &Vec<u32>, v: u32) -> (b: bool)
    ensures
        b == list@.contains(v),
{
    let mut i: usize = 0;
    while i < list.len()
        invariant
            i <= list.len(),
            forall|k: int| 0 <= k < i ==> list@[k] != v,
        decreases list.len() - i,
    {
        if list[i] == v {
            return true;
        }
        i += 1;
    }
    false
}

} // verus!
