//! What is kept of the markup renderer's output.
//!
//! The renderer turns a snippet of markup into plain text. It runs outside
//! this library; here its output is tidied before it is taken as a field's
//! raw text.

use vstd::prelude::*;
use crate::text::{chars_of, copy_range, skip_white_space, string_of, trim, trim_chars, trim_start};

verus! {

/// `s` without its leading commas.
pub open spec fn skip_commas(s: Seq<char>) -> Seq<char>
    decreases s.len(),
{
    if s.len() > 0 && s.first() == ',' {
        skip_commas(s.drop_first())
    } else {
        s
    }
}

/// The plain text in the renderer's output: the output trimmed, then without
/// the commas it begins with and the white space after them.
pub open spec fn rendered_text(output: Seq<char>) -> Seq<char> {
    trim_start(skip_commas(trim(output)))
}

/// The plain text in the renderer's output.
pub fn clean_rendered(output: &str) -> (out: String)
    ensures
        out@ == rendered_text(output@),
{
    let text = trim_chars(&chars_of(output));
    let n: usize = text.len();
    let mut i: usize = 0;
    assert(text@.skip(0) == text@);
    while i < n && text[i] == ','
        invariant
            i <= n == text.len(),
            skip_commas(text@) == skip_commas(text@.skip(i as int)),
        decreases n - i,
    {
        assert(text@.skip(i as int).drop_first() == text@.skip(i + 1));
        i += 1;
    }
    let start = skip_white_space(&text, i);
    assert(text@.skip(start as int) == text@.subrange(start as int, n as int));
    string_of(&copy_range(&text, start, n))
}

} // verus!
