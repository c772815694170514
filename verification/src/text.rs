//! Small helpers that build texts.

use vstd::prelude::*;
use vstd::string::StringExecFns;

verus! {

/// The characters of an optional text.
pub open spec fn optional_text(text: Option<String>) -> Option<Seq<char>> {
    match text {
        Some(t) => Some(t@),
        None => None,
    }
}

/// `middle` between `before` and `after`.
pub open spec fn framed(before: Seq<char>, middle: Seq<char>, after: Seq<char>) -> Seq<char> {
    before + middle + after
}

/// A text of its own with the characters of `text`.
pub fn owned(text: &str) -> (copy: String)
    ensures
        copy@ == text@,
{
    String::from_str(text)
}

/// `first` followed by `second`.
pub fn join(first: &str, second: &str) -> (joined: String)
    ensures
        joined@ == first@ + second@,
{
    String::from_str(first).concat(second)
}

/// `middle` between `before` and `after`.
pub fn frame(before: &str, middle: &str, after: &str) -> (framed_text: String)
    ensures
        framed_text@ == framed(before@, middle@, after@),
{
    String::from_str(before).concat(middle).concat(after)
}

/// A copy of an optional text.
pub fn copy_optional(text: &Option<String>) -> (copy: Option<String>)
    ensures
        optional_text(copy) == optional_text(*text),
{
    match text {
        Some(t) => Some(t.clone()),
        None => None,
    }
}

} // verus!
