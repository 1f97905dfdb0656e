//! Character classes and string shapes shared by the account rules.

use vstd::prelude::*;
use vstd::string::*;

verus! {

/// Unicode `White_Space`: the characters that `char::is_whitespace`,
/// `str::trim` and the regex class `\s` treat as whitespace.
pub open spec fn is_white_space(c: char) -> bool {
    ('\t' <= c && c <= '\r') || c == ' ' || c == '\u{85}' || c == '\u{a0}' || c == '\u{1680}'
        || ('\u{2000}' <= c && c <= '\u{200a}') || c == '\u{2028}' || c == '\u{2029}'
        || c == '\u{202f}' || c == '\u{205f}' || c == '\u{3000}'
}

/// A string is blank when nothing is left of it once whitespace is trimmed.
pub open spec fn is_blank_text(s: Seq<char>) -> bool {
    forall|i: int| 0 <= i < s.len() ==> is_white_space(#[trigger] s[i])
}

/// `char::is_whitespace`, decided by the `White_Space` ranges.
pub fn is_white_space_char(c: char) -> (r: bool)
    ensures
        r == is_white_space(c),
{
    ('\t' <= c && c <= '\r') || c == ' ' || c == '\u{85}' || c == '\u{a0}' || c == '\u{1680}'
        || ('\u{2000}' <= c && c <= '\u{200a}') || c == '\u{2028}' || c == '\u{2029}'
        || c == '\u{202f}' || c == '\u{205f}' || c == '\u{3000}'
}

/// Whether `s.trim()` is empty.
pub fn is_blank(s: &str) -> (r: bool)
    ensures
        r == is_blank_text(s@),
{
    let n = s.unicode_len();
    let mut i: usize = 0;
    while i < n
        invariant
            n == s@.len(),
            i <= n,
            forall|k: int| 0 <= k < i ==> is_white_space(#[trigger] s@[k]),
        decreases n - i,
    {
        if !is_white_space_char(s.get_char(i)) {
            return false;
        }
        i = i + 1;
    }
    true
}

/// The pattern that an e-mail address must match as a whole.
pub const EMAIL_PATTERN: &'static str = "^[^@\\s]+@[^@\\s]+\\.[^@\\s]+$";

/// A character allowed in each of the three parts of an e-mail address.
pub open spec fn is_address_char(c: char) -> bool {
    c != '@' && !is_white_space(c)
}

/// The strings that `EMAIL_PATTERN` matches: a non-empty local part, one `@`,
/// and a domain that holds a `.` with at least one character on each side;
/// no whitespace and no second `@` anywhere.
pub open spec fn is_email_shape(s: Seq<char>) -> bool {
    exists|at: int, dot: int|
        0 < at && at + 1 < dot && dot + 1 < s.len() && s[at] == '@' && s[dot] == '.'
            && forall|k: int| 0 <= k < s.len() && k != at ==> is_address_char(#[trigger] s[k])
}

/// Relies on regex::Regex::new and Regex::is_match: the pattern compiles, and
/// with `\s` as Unicode `White_Space` and `$` at the end of the text only, it
/// matches exactly the strings described by `is_email_shape`.
#[verifier::external_body]
fn regex_matches_email(pattern: &str, text: &str) -> (r: bool)
    requires
        pattern@ == EMAIL_PATTERN@,
    ensures
        r == is_email_shape(text@),
{
    regex::Regex::new(pattern).unwrap().is_match(text)
}

/// Whether `email` has the shape of an e-mail address.
pub fn is_valid_email(email: &str) -> (r: bool)
    ensures
        r == is_email_shape(email@),
{
    regex_matches_email(EMAIL_PATTERN, email)
}

} // verus!
