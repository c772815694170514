//! Checks on the shape of inputs: a colour, an identifier, a list of
//! identifiers written as JSON.

use vstd::prelude::*;
use crate::errors::ValidationError;
use vstd::string::StrSliceExecFns;
use crate::identifiers::{
    all_hyphenated_uuid_texts,
    first_unhyphenated_from,
    is_hyphenated_uuid_text,
    parse_uuid_text,
};
use crate::json::{json_string_array, read_string_array};
use crate::pattern::{color_pattern_found, is_color_hex, COLOR_HEX_PATTERN};

verus! {

/// What is said of a text that stands for no identifier.
pub const INVALID_UUID_MESSAGE: &'static str = "Invalid UUID";

/// What is said of a text that is no colour.
pub const INVALID_COLOR_HEX_MESSAGE: &'static str = "Invalid color hex";

/// What is said of a list in which a text stands for no identifier.
pub const INVALID_UUID_IN_LIST_MESSAGE: &'static str = "Invalid UUID in list";

/// What `validate_uuid_strings` owes for a list of texts: nothing to object
/// to where each is an identifier in its hyphenated form, otherwise the first
/// that is none, handed back.
pub open spec fn uuid_strings_verdict(
    strings: Seq<Seq<char>>,
    verdict: Result<(), ValidationError>,
) -> bool {
    if all_hyphenated_uuid_texts(strings) {
        verdict is Ok
    } else {
        verdict matches Err(err) && err.message_text() == INVALID_UUID_IN_LIST_MESSAGE@
            && err.value_text() == strings[first_unhyphenated_from(strings, 0)]
    }
}

/// What `validate_json_uuid_array` owes for a text.
pub open spec fn json_uuid_array_verdict(text: Seq<char>, verdict: Result<(), ValidationError>) -> bool {
    match json_string_array(text) {
        Err(said) => verdict matches Err(err) && err.message_text() == said && err.value_text()
            == text,
        Ok(strings) => uuid_strings_verdict(strings, verdict),
    }
}

/// Accepts an identifier in its text form: thirty-two hexadecimal digits of
/// either case in groups of 8, 4, 4, 4 and 12, with a hyphen between
/// neighbouring groups. Any other text is refused and handed back in the
/// error; so are the digits without hyphens and the form behind `urn:uuid:`.
pub fn validate_uuid(uuid: &String) -> (verdict: Result<(), ValidationError>)
    ensures
        verdict is Ok <==> is_hyphenated_uuid_text(uuid@),
        verdict matches Err(err) ==> err.message_text() == INVALID_UUID_MESSAGE@
            && err.value_text() == uuid@,
{
    match parse_uuid_text(uuid.as_str()) {
        Ok(_) => {
            if uuid.as_str().unicode_len() == 36 {
                Ok(())
            } else {
                Err(ValidationError::for_value(INVALID_UUID_MESSAGE, uuid.as_str()))
            }
        },
        Err(_) => Err(ValidationError::for_value(INVALID_UUID_MESSAGE, uuid.as_str())),
    }
}

/// Accepts `#` followed by exactly three or exactly six hexadecimal digits in
/// either case. Any other text is refused and handed back in the error.
pub fn validate_color_hex(color_hex: &String) -> (verdict: Result<(), ValidationError>)
    ensures
        verdict is Ok <==> is_color_hex(color_hex@),
        verdict matches Err(err) ==> err.message_text() == INVALID_COLOR_HEX_MESSAGE@
            && err.value_text() == color_hex@,
{
    if !color_pattern_found(COLOR_HEX_PATTERN, color_hex.as_str()) {
        return Err(ValidationError::for_value(INVALID_COLOR_HEX_MESSAGE, color_hex.as_str()));
    }
    Ok(())
}

/// Accepts a list of texts each of which is an identifier in its hyphenated
/// form. The first that is none is refused and handed back.
pub fn validate_uuid_strings(uuids: &Vec<String>) -> (verdict: Result<(), ValidationError>)
    ensures
        uuid_strings_verdict(uuids.deep_view(), verdict),
{
    let ghost strings = uuids.deep_view();
    let mut i: usize = 0;
    while i < uuids.len()
        invariant
            i <= uuids.len(),
            strings == uuids.deep_view(),
            first_unhyphenated_from(strings, 0) == first_unhyphenated_from(strings, i as int),
        decreases uuids.len() - i,
    {
        assert(strings[i as int] == uuids[i as int]@);
        match validate_uuid(&uuids[i]) {
            Ok(_) => {},
            Err(_) => {
                assert(first_unhyphenated_from(strings, i as int) == i);
                return Err(
                    ValidationError::for_value(INVALID_UUID_IN_LIST_MESSAGE, uuids[i].as_str()),
                );
            },
        }
        i += 1;
    }
    Ok(())
}

/// Accepts a JSON array of strings each of which is an identifier in its
/// hyphenated form. A text that is no such array is refused with the words of
/// the JSON reader and handed back; otherwise the first string that is no
/// identifier is refused and handed back.
pub fn validate_json_uuid_array(json_uuids: &String) -> (verdict: Result<(), ValidationError>)
    ensures
        json_uuid_array_verdict(json_uuids@, verdict),
{
    match read_string_array(json_uuids.as_str()) {
        Ok(uuids) => validate_uuid_strings(&uuids),
        Err(err) => Err(ValidationError::for_value(err.as_str(), json_uuids.as_str())),
    }
}

} // verus!
