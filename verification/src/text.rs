//! Plain text as sequences of Unicode scalar values: white space, trimming,
//! the mass of a text under a weight for each scalar value, and the passage
//! between `str`, `String` and `Vec<char>`.

use vstd::prelude::*;

verus! {

/// The scalar values that carry the Unicode `White_Space` property.
pub open spec fn is_white_space(c: char) -> bool {
    let v = c as u32;
    ||| 0x0009 <= v <= 0x000D
    ||| v == 0x0020
    ||| v == 0x0085
    ||| v == 0x00A0
    ||| v == 0x1680
    ||| 0x2000 <= v <= 0x200A
    ||| v == 0x2028
    ||| v == 0x2029
    ||| v == 0x202F
    ||| v == 0x205F
    ||| v == 0x3000
}

/// `s` without its leading white space.
pub open spec fn trim_start(s: Seq<char>) -> Seq<char>
    decreases s.len(),
{
    if s.len() > 0 && is_white_space(s.first()) {
        trim_start(s.drop_first())
    } else {
        s
    }
}

/// `s` without its trailing white space.
pub open spec fn trim_end(s: Seq<char>) -> Seq<char>
    decreases s.len(),
{
    if s.len() > 0 && is_white_space(s.last()) {
        trim_end(s.drop_last())
    } else {
        s
    }
}

/// `s` without its leading and trailing white space.
pub open spec fn trim(s: Seq<char>) -> Seq<char> {
    trim_end(trim_start(s))
}

/// Neither end of `s` is white space.
pub open spec fn is_trimmed(s: Seq<char>) -> bool {
    s.len() > 0 ==> !is_white_space(s.first()) && !is_white_space(s.last())
}

/// Trimming leaves a text unchanged exactly when neither end is white space.
pub proof fn lemma_trim_fixed_point(s: Seq<char>)
    ensures
        trim(s) == s <==> is_trimmed(s),
{
    lemma_trim_start_shape(s);
    lemma_trim_end_shape(trim_start(s));
}

/// `trim_start` returns a suffix that does not begin with white space.
proof fn lemma_trim_start_shape(s: Seq<char>)
    ensures
        trim_start(s).len() <= s.len(),
        trim_start(s) == s.skip(s.len() - trim_start(s).len()),
        trim_start(s).len() > 0 ==> !is_white_space(trim_start(s).first()),
        s.len() > 0 && is_white_space(s.first()) ==> trim_start(s).len() < s.len(),
    decreases s.len(),
{
    if s.len() > 0 && is_white_space(s.first()) {
        lemma_trim_start_shape(s.drop_first());
    }
}

/// `trim_end` returns a prefix that does not end with white space.
proof fn lemma_trim_end_shape(s: Seq<char>)
    ensures
        trim_end(s).len() <= s.len(),
        trim_end(s) == s.take(trim_end(s).len() as int),
        trim_end(s).len() > 0 ==> !is_white_space(trim_end(s).last()),
        s.len() > 0 && is_white_space(s.last()) ==> trim_end(s).len() < s.len(),
    decreases s.len(),
{
    if s.len() > 0 && is_white_space(s.last()) {
        lemma_trim_end_shape(s.drop_last());
    }
}

/// The sum of the weights of the scalar values of `text`.
pub open spec fn mass(text: Seq<char>, weight: spec_fn(char) -> nat) -> nat
    decreases text.len(),
{
    if text.len() == 0 {
        0
    } else {
        mass(text.drop_last(), weight) + weight(text.last())
    }
}

/// Every scalar value has weight.
pub open spec fn positive(weight: spec_fn(char) -> nat) -> bool {
    forall|c: char| #[trigger] weight(c) > 0
}

/// The mass of two texts joined is the sum of their masses.
pub proof fn lemma_mass_concat(a: Seq<char>, b: Seq<char>, weight: spec_fn(char) -> nat)
    ensures
        mass(a + b, weight) == mass(a, weight) + mass(b, weight),
    decreases b.len(),
{
    if b.len() > 0 {
        assert((a + b).drop_last() == a + b.drop_last());
        lemma_mass_concat(a, b.drop_last(), weight);
    }
}

/// A text with a scalar value in it has mass, where every scalar value has
/// weight.
proof fn lemma_mass_positive(text: Seq<char>, weight: spec_fn(char) -> nat)
    requires
        positive(weight),
        text.len() > 0,
    ensures
        mass(text, weight) > 0,
{
}

/// Trimming takes mass off a text that has white space at an end, and adds
/// none to any, where every scalar value has weight.
pub proof fn lemma_mass_trim(s: Seq<char>, weight: spec_fn(char) -> nat)
    requires
        positive(weight),
    ensures
        mass(trim(s), weight) <= mass(s, weight),
        !is_trimmed(s) ==> mass(trim(s), weight) < mass(s, weight),
{
    let t = trim_start(s);
    let u = trim_end(t);
    lemma_trim_start_shape(s);
    lemma_trim_end_shape(t);
    let cut = s.len() - t.len();
    assert(s == s.take(cut) + t);
    lemma_mass_concat(s.take(cut), t, weight);
    assert(t == u + t.skip(u.len() as int));
    lemma_mass_concat(u, t.skip(u.len() as int), weight);
    if !is_trimmed(s) {
        lemma_trim_fixed_point(s);
        if t.len() < s.len() {
            lemma_mass_positive(s.take(cut), weight);
        } else {
            lemma_mass_positive(t.skip(u.len() as int), weight);
        }
    }
}

/// Decides whether `c` is white space.
pub fn char_is_white_space(c: char) -> (b: bool)
    ensures
        b == is_white_space(c),
{
    let v: u32 = c as u32;
    (0x0009 <= v && v <= 0x000D) || v == 0x0020 || v == 0x0085 || v == 0x00A0 || v == 0x1680 || (
    0x2000 <= v && v <= 0x200A) || v == 0x2028 || v == 0x2029 || v == 0x202F || v == 0x205F || v
        == 0x3000
}

/// A copy of `text[from..to]`.
pub fn copy_range(text: &Vec<char>, from: usize, to: usize) -> (out: Vec<char>)
    requires
        from <= to <= text.len(),
    ensures
        out@ == text@.subrange(from as int, to as int),
{
    let mut out: Vec<char> = Vec::new();
    let mut i: usize = from;
    while i < to
        invariant
            from <= i <= to <= text.len(),
            out@ == text@.subrange(from as int, i as int),
        decreases to - i,
    {
        out.push(text[i]);
        assert(text@.subrange(from as int, i + 1) == text@.subrange(from as int, i as int).push(
            text@[i as int],
        ));
        i += 1;
    }
    out
}

/// The index at which `text[from..]` stops being white space.
pub fn skip_white_space(text: &Vec<char>, from: usize) -> (to: usize)
    requires
        from <= text.len(),
    ensures
        from <= to <= text.len(),
        text@.skip(to as int) == trim_start(text@.skip(from as int)),
{
    let n: usize = text.len();
    let mut to: usize = from;
    while to < n && char_is_white_space(text[to])
        invariant
            from <= to <= n == text.len(),
            trim_start(text@.skip(from as int)) == trim_start(text@.skip(to as int)),
        decreases n - to,
    {
        assert(text@.skip(to as int).drop_first() == text@.skip(to + 1));
        to += 1;
    }
    to
}

/// `text` without its leading and trailing white space.
pub fn trim_chars(text: &Vec<char>) -> (out: Vec<char>)
    ensures
        out@ == trim(text@),
{
    let n: usize = text.len();
    assert(text@.skip(0) == text@);
    let start = skip_white_space(text, 0);
    let mut end: usize = n;
    while end > start && char_is_white_space(text[end - 1])
        invariant
            start <= end <= n == text.len(),
            trim(text@) == trim_end(text@.subrange(start as int, end as int)),
        decreases end - start,
    {
        assert(text@.subrange(start as int, end as int).drop_last() == text@.subrange(
            start as int,
            end - 1,
        ));
        end -= 1;
    }
    copy_range(text, start, end)
}

/// The scalar values of `s`, in order.
pub fn chars_of(s: &str) -> (v: Vec<char>)
    ensures
        v@ == s@,
{
    broadcast use vstd::string::group_string_axioms;

    let mut v: Vec<char> = Vec::new();
    for c in it: s.chars()
        invariant
            it.seq() == s@,
            v@ == it.seq().take(it.index() as int),
    {
        v.push(c);
    }
    v
}

/// Decides whether `a` and `b` hold the same scalar values.
pub fn same_text(a: &str, b: &str) -> (same: bool)
    ensures
        same == (a@ == b@),
{
    let x = a.as_bytes();
    let y = b.as_bytes();
    if x.len() != y.len() {
        return false;
    }
    let mut i: usize = 0;
    while i < x.len()
        invariant
            i <= x.len() == y.len(),
            x@ == vstd::utf8::encode_utf8(a@),
            y@ == vstd::utf8::encode_utf8(b@),
            forall|k: int| 0 <= k < i ==> x@[k] == y@[k],
        decreases x.len() - i,
    {
        if x[i] != y[i] {
            return false;
        }
        i += 1;
    }
    proof {
        // Equal encodings decode to equal texts.
        assert(x@ =~= y@);
        vstd::utf8::encode_utf8_decode_utf8(a@);
        vstd::utf8::encode_utf8_decode_utf8(b@);
    }
    true
}

/// `String::push` appends one scalar value to the end of the string.
pub assume_specification[ String::push ](s: &mut String, c: char)
    ensures
        final(s)@ == old(s)@.push(c),
;

/// The string made of the scalar values of `v`, in order.
pub fn string_of(v: &Vec<char>) -> (s: String)
    ensures
        s@ == v@,
{
    let mut s = String::new();
    let mut i: usize = 0;
    while i < v.len()
        invariant
            i <= v.len(),
            s@ == v@.take(i as int),
        decreases v.len() - i,
    {
        s.push(v[i]);
        i += 1;
    }
    s
}

} // verus!
