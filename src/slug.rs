//! URL slugs: a lower-cased title with whitespace runs turned into hyphens,
//! then a hyphen and the year.
use crate::text::{decimal, is_space, is_space_char, push_char, push_decimal};
use vstd::prelude::*;
use vstd::string::*;

verus! {

/// What `str::to_lowercase` returns for a string.
pub uninterp spec fn lower_of(s: Seq<char>) -> Seq<char>;

/// Relies on `str::to_lowercase`: the result depends on the characters alone.
#[verifier::external_body]
fn lowercase(s: &str) -> (r: String)
    ensures
        r@ == lower_of(s@),
{
    s.to_lowercase()
}

/// `s` with each maximal run of whitespace replaced by one hyphen.
pub open spec fn hyphenate(s: Seq<char>) -> Seq<char>
    decreases s.len(),
{
    if s.len() == 0 {
        seq![]
    } else if is_space(s.last()) {
        if s.len() >= 2 && is_space(s[s.len() - 2]) {
            hyphenate(s.drop_last())
        } else {
            hyphenate(s.drop_last()).push('-')
        }
    } else {
        hyphenate(s.drop_last()).push(s.last())
    }
}

/// The year in decimal, or nothing.
pub open spec fn year_text(year: Option<u32>) -> Seq<char> {
    match year {
        Some(y) => decimal(y as nat),
        None => seq![],
    }
}

/// The slug of an already lower-cased title and a year.
pub open spec fn slug_of_lowered(lowered: Seq<char>, year: Option<u32>) -> Seq<char> {
    hyphenate(lowered).push('-') + year_text(year)
}

/// The slug of a title and a year.
pub open spec fn slug_text(title: Seq<char>, year: Option<u32>) -> Seq<char> {
    slug_of_lowered(lower_of(title), year)
}

/// Builds the slug from a title that is already lower case:
/// `("old yeller", Some(1957))` gives `"old-yeller-1957"`, and a missing year
/// leaves a trailing hyphen.
pub fn slug_from_lowercase(lowered: &str, year: Option<u32>) -> (r: String)
    ensures
        r@ == slug_of_lowered(lowered@, year),
{
    let n = lowered.unicode_len();
    let mut out = String::new();
    let mut i: usize = 0;
    let mut prev_space = false;
    while i < n
        invariant
            n == lowered@.len(),
            i <= n,
            out@ == hyphenate(lowered@.subrange(0, i as int)),
            prev_space == (i > 0 && is_space(lowered@[i - 1])),
        decreases n - i,
    {
        let c = lowered.get_char(i);
        let space = is_space_char(c);
        assert(lowered@.subrange(0, i + 1).drop_last() =~= lowered@.subrange(0, i as int));
        if space {
            if !prev_space {
                push_char(&mut out, '-');
            }
        } else {
            push_char(&mut out, c);
        }
        prev_space = space;
        i = i + 1;
    }
    assert(lowered@.subrange(0, n as int) =~= lowered@);
    push_char(&mut out, '-');
    match year {
        Some(y) => push_decimal(&mut out, y),
        None => {},
    }
    assert(out@ =~= slug_of_lowered(lowered@, year));
    out
}

/// The slug of a title and a year: `("Old Yeller", Some(1957))` gives
/// `"old-yeller-1957"`, `("Independence Day 3", None)` gives
/// `"independence-day-3-"`.
pub fn slug(title: &str, year: Option<u32>) -> (r: String)
    ensures
        r@ == slug_text(title@, year),
{
    let lowered = lowercase(title);
    slug_from_lowercase(lowered.as_str(), year)
}

} // verus!
