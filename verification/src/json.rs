//! Lists of texts as JSON, read and written by `serde_json`.

use vstd::prelude::*;

verus! {

/// What `serde_json` makes of a text that should hold an array of strings:
/// the strings, or what it says of a text that holds none.
pub uninterp spec fn json_string_array(text: Seq<char>) -> Result<Seq<Seq<char>>, Seq<char>>;

/// The JSON text that `serde_json` writes for an array of strings.
pub uninterp spec fn json_text(strings: Seq<Seq<char>>) -> Seq<char>;

/// Whether the JSON text of `strings` is read back as `strings`. `serde_json`
/// is believed to do so for every array of strings, one array at a time: the
/// fact is known of an array once its text has been written.
pub open spec fn json_reads_back(strings: Seq<Seq<char>>) -> bool {
    json_string_array(json_text(strings)) == Ok::<Seq<Seq<char>>, Seq<char>>(strings)
}

/// Reads an array of strings with `serde_json::from_str`, or hands out the
/// text of the crate's error.
#[verifier::external_body]
pub(crate) fn read_string_array(text: &str) -> (reading: Result<Vec<String>, String>)
    ensures
        reading matches Ok(strings) ==> (json_string_array(text@) matches Ok(read) && read
            == strings.deep_view()),
        reading matches Err(message) ==> (json_string_array(text@) matches Err(said) && said
            == message@),
{
    match serde_json::from_str::<Vec<String>>(text) {
        Ok(strings) => Ok(strings),
        Err(err) => Err(err.to_string()),
    }
}

/// Writes an array of strings with `serde_json::to_string`.
///
/// Believed of the crate: it names two causes for which writing fails, a
/// value that refuses to be written and a map whose keys are no strings, and
/// an array of strings has neither; `from_str` reads the text back as the
/// same strings.
#[verifier::external_body]
pub(crate) fn write_string_array(strings: &Vec<String>) -> (text: Result<String, String>)
    ensures
        text is Ok,
        text matches Ok(t) ==> t@ == json_text(strings.deep_view()),
        text matches Ok(t) ==> (json_string_array(t@) matches Ok(read) && read
            == strings.deep_view()),
{
    match serde_json::to_string(strings) {
        Ok(text) => Ok(text),
        Err(err) => Err(err.to_string()),
    }
}

} // verus!
