//! The pages of the dictionary: which of them can be used, and where each is
//! found.

use vstd::prelude::*;
use vstd::string::StringExecFns;
use crate::text::string_of;

verus! {

/// The first page.
pub const MIN_PAGE: u16 = 1;

/// The last page.
pub const MAX_PAGE: u16 = 1539;

/// The pages that cannot be used.
pub const BAD_PAGES: [u16; 6] = [2, 41, 486, 520, 665, 666];

/// The address of a page, without the number of the page at its end.
pub const PREFIX: &'static str = "https://dsal.uchicago.edu/cgi-bin/app/steingass_query.py?page=";

/// `page` is one of the pages that cannot be used.
pub open spec fn is_bad(page: u16) -> bool {
    page == 2 || page == 41 || page == 486 || page == 520 || page == 665 || page == 666
}

/// `page` is in the dictionary and can be used.
pub open spec fn is_usable(page: u16) -> bool {
    MIN_PAGE <= page <= MAX_PAGE && !is_bad(page)
}

/// The decimal digit for `d`.
pub open spec fn digit(d: int) -> char {
    if d == 0 {
        '0'
    } else if d == 1 {
        '1'
    } else if d == 2 {
        '2'
    } else if d == 3 {
        '3'
    } else if d == 4 {
        '4'
    } else if d == 5 {
        '5'
    } else if d == 6 {
        '6'
    } else if d == 7 {
        '7'
    } else if d == 8 {
        '8'
    } else {
        '9'
    }
}

/// `n` in decimal digits, without leading zeros.
pub open spec fn decimal(n: nat) -> Seq<char>
    decreases n,
{
    if n < 10 {
        seq![digit(n as int)]
    } else {
        decimal(n / 10).push(digit((n % 10) as int))
    }
}

/// The address of `page`.
pub open spec fn url_of(page: u16) -> Seq<char> {
    PREFIX@ + decimal(page as nat)
}

/// Decides whether `page` is in the dictionary and can be used.
pub fn page_is_usable(page: u16) -> (b: bool)
    ensures
        b == is_usable(page),
{
    let mut bad: bool = false;
    let mut i: usize = 0;
    while i < 6
        invariant
            i <= 6,
            bad == exists|k: int| 0 <= k < i && BAD_PAGES[k] == page,
        decreases 6 - i,
    {
        if BAD_PAGES[i] == page {
            bad = true;
        }
        i += 1;
    }
    assert(bad == is_bad(page)) by {
        if is_bad(page) {
            let k: int = if page == 2 {
                0
            } else if page == 41 {
                1
            } else if page == 486 {
                2
            } else if page == 520 {
                3
            } else if page == 665 {
                4
            } else {
                5
            };
            assert(BAD_PAGES[k] == page);
        }
    }
    MIN_PAGE <= page && page <= MAX_PAGE && !bad
}

/// The decimal digit for `d`.
fn digit_char(d: u16) -> (c: char)
    requires
        d < 10,
    ensures
        c == digit(d as int),
{
    if d == 0 {
        '0'
    } else if d == 1 {
        '1'
    } else if d == 2 {
        '2'
    } else if d == 3 {
        '3'
    } else if d == 4 {
        '4'
    } else if d == 5 {
        '5'
    } else if d == 6 {
        '6'
    } else if d == 7 {
        '7'
    } else if d == 8 {
        '8'
    } else {
        '9'
    }
}

/// Appends `n` in decimal digits to `out`.
fn push_decimal(out: &mut Vec<char>, n: u16)
    ensures
        final(out)@ == old(out)@ + decimal(n as nat),
    decreases n,
{
    if n >= 10 {
        push_decimal(out, n / 10);
    }
    out.push(digit_char(n % 10));
    assert(out@ =~= old(out)@ + decimal(n as nat));
}

/// The address of `page`.
pub fn page_url(page: u16) -> (url: String)
    ensures
        url@ == url_of(page),
{
    let mut digits: Vec<char> = Vec::new();
    push_decimal(&mut digits, page);
    assert(digits@ =~= decimal(page as nat));
    let number = string_of(&digits);
    String::from_str(PREFIX).concat(number.as_str())
}

} // verus!
