//! The colour pattern, matched by the `regex` crate.

use vstd::prelude::*;
use crate::identifiers::is_hex_digit;

verus! {

/// The pattern that a colour must match from its first character to its last.
pub const COLOR_HEX_PATTERN: &'static str = "^#([A-Fa-f0-9]{6}|[A-Fa-f0-9]{3})$";

/// A `#` followed by exactly three or exactly six hexadecimal digits.
pub open spec fn is_color_hex(s: Seq<char>) -> bool {
    &&& s.len() == 4 || s.len() == 7
    &&& s[0] == '#'
    &&& forall|i: int| 1 <= i < s.len() ==> is_hex_digit(#[trigger] s[i])
}

/// Compiles the colour pattern with `regex::Regex::new` and looks for it in
/// `text` with `Regex::is_match`.
///
/// Believed of the crate: `^` and `$` stand for the two ends of the text, a
/// class in square brackets for one of the characters it lists, a number in
/// braces for so many repetitions, and `|` for a choice; so the pattern is
/// found in exactly the texts made of `#` and three or six hexadecimal digits.
#[verifier::external_body]
pub(crate) fn color_pattern_found(pattern: &str, text: &str) -> (found: bool)
    requires
        pattern@ == COLOR_HEX_PATTERN@,
    ensures
        found == is_color_hex(text@),
{
    regex::Regex::new(pattern).unwrap().is_match(text)
}

} // verus!
