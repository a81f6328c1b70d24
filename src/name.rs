//! Title and year from a directory name of the form `Title (YYYY)`.
use crate::text::{digit_value, is_digit, is_space, is_space_char, to_owned_string, trim, trim_str};
use vstd::prelude::*;
use vstd::string::*;

verus! {

/// `s` is at least one character, then whitespace, then four ASCII digits in
/// parentheses that end the name.
pub open spec fn has_year_suffix(s: Seq<char>) -> bool {
    let n = s.len();
    &&& n >= 8
    &&& is_space(s[n - 7])
    &&& s[n - 6] == '('
    &&& is_digit(s[n - 5])
    &&& is_digit(s[n - 4])
    &&& is_digit(s[n - 3])
    &&& is_digit(s[n - 2])
    &&& s[n - 1] == ')'
}

/// The number that the four digits of the suffix spell.
pub open spec fn suffix_year(s: Seq<char>) -> nat {
    let n = s.len();
    digit_value(s[n - 5]) * 1000 + digit_value(s[n - 4]) * 100 + digit_value(s[n - 3]) * 10
        + digit_value(s[n - 2])
}

/// The title that a directory name gives: the part before the year, trimmed,
/// or the whole name where it carries no year.
pub open spec fn name_title(s: Seq<char>) -> Seq<char> {
    if has_year_suffix(s) {
        trim(s.subrange(0, s.len() - 6))
    } else {
        s
    }
}

/// The year that a directory name gives, if any.
pub open spec fn name_year(s: Seq<char>) -> Option<u32> {
    if has_year_suffix(s) {
        Some(suffix_year(s) as u32)
    } else {
        None
    }
}

fn is_digit_char(c: char) -> (r: bool)
    ensures
        r == is_digit(c),
{
    '0' <= c && c <= '9'
}

fn digit_of(c: char) -> (r: u32)
    requires
        is_digit(c),
    ensures
        r as nat == digit_value(c),
        r < 10,
{
    (c as u32) - ('0' as u32)
}

/// Splits a directory name into a title and an optional year.
///
/// `"Old Yeller (1957)"` gives `("Old Yeller", Some(1957))`; a name without a
/// trailing year in parentheses is returned whole, with no year.
pub fn parse_basename(basename: &str) -> (r: (String, Option<u32>))
    ensures
        has_year_suffix(basename@) ==> r.0@ == trim(basename@.subrange(0, basename@.len() - 6))
            && r.1 == Some(suffix_year(basename@) as u32),
        !has_year_suffix(basename@) ==> r.0@ == basename@ && r.1 is None,
        r.0@ == name_title(basename@),
        r.1 == name_year(basename@),
{
    let n = basename.unicode_len();
    if n >= 8 && is_space_char(basename.get_char(n - 7)) && basename.get_char(n - 6) == '('
        && is_digit_char(basename.get_char(n - 5)) && is_digit_char(basename.get_char(n - 4))
        && is_digit_char(basename.get_char(n - 3)) && is_digit_char(basename.get_char(n - 2))
        && basename.get_char(n - 1) == ')' {
        let year = digit_of(basename.get_char(n - 5)) * 1000 + digit_of(basename.get_char(n - 4))
            * 100 + digit_of(basename.get_char(n - 3)) * 10 + digit_of(basename.get_char(n - 2));
        let prefix = basename.substring_char(0, n - 6);
        let title = trim_str(prefix);
        (title, Some(year))
    } else {
        (to_owned_string(basename), None)
    }
}

} // verus!
