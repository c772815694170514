//! Readers for the texts that rows and inputs hold: a colour, an identifier,
//! a list of identifiers written as JSON.

use vstd::prelude::*;
use crate::identifiers::{
    all_uuid_texts,
    canonical_uuid_text,
    canonical_uuid_texts,
    first_unreadable_from,
    format_uuid,
    parse_uuid_text,
    uuid_parse_failure,
    uuid_text_value,
    uuid_values,
};
use crate::json::{json_reads_back, json_string_array, json_text, read_string_array, write_string_array};
use crate::pattern::{color_pattern_found, is_color_hex, COLOR_HEX_PATTERN};
use crate::text::{frame, framed};

verus! {

/// What is said of `color_hex` where it is no colour.
pub open spec fn invalid_color_hex_message(color_hex: Seq<char>) -> Seq<char> {
    framed("Invalid color hex '"@, color_hex, "'"@)
}

/// What is said of `uuid` where, within a list, it stands for no identifier.
pub open spec fn invalid_uuid_message(uuid: Seq<char>) -> Seq<char> {
    framed("Invalid uuid '"@, uuid, "'"@)
}

/// A colour is read as itself; any other text is refused.
pub open spec fn color_hex_reading(color_hex: Seq<char>) -> Result<Seq<char>, Seq<char>> {
    if is_color_hex(color_hex) {
        Ok(color_hex)
    } else {
        Err(invalid_color_hex_message(color_hex))
    }
}

/// An absent colour is read as absent, a present one as `color_hex_reading` says.
pub open spec fn optional_color_hex_reading(color_hex: Option<Seq<char>>) -> Result<
    Option<Seq<char>>,
    Seq<char>,
> {
    match color_hex {
        None => Ok(None),
        Some(text) => match color_hex_reading(text) {
            Ok(color) => Ok(Some(color)),
            Err(message) => Err(message),
        },
    }
}

/// The identifier that a text stands for, or what the reader says of a text
/// that stands for none.
pub open spec fn uuid_reading(uuid: Seq<char>) -> Result<u128, Seq<char>> {
    match uuid_text_value(uuid) {
        Some(value) => Ok(value),
        None => Err(uuid_parse_failure(uuid)),
    }
}

/// An absent identifier is read as absent, a present one as `uuid_reading` says.
pub open spec fn optional_uuid_reading(uuid: Option<Seq<char>>) -> Result<Option<u128>, Seq<char>> {
    match uuid {
        None => Ok(None),
        Some(text) => match uuid_reading(text) {
            Ok(value) => Ok(Some(value)),
            Err(message) => Err(message),
        },
    }
}

/// The identifiers that a JSON array of strings stands for. A text that is no
/// such array is refused with the words of the JSON reader; otherwise the
/// first string that stands for no identifier is refused by name.
pub open spec fn uuid_array_reading(json_uuids: Seq<char>) -> Result<Seq<u128>, Seq<char>> {
    match json_string_array(json_uuids) {
        Err(said) => Err(said),
        Ok(strings) => uuid_strings_reading(strings),
    }
}

/// The identifiers that a list of texts stands for: the value of each where
/// each stands for an identifier, otherwise the refusal by name of the first
/// that stands for none.
pub open spec fn uuid_strings_reading(strings: Seq<Seq<char>>) -> Result<Seq<u128>, Seq<char>> {
    if all_uuid_texts(strings) {
        Ok(uuid_values(strings))
    } else {
        Err(invalid_uuid_message(strings[first_unreadable_from(strings, 0)]))
    }
}

/// An absent list is read as absent, a present one as `uuid_array_reading` says.
pub open spec fn optional_uuid_array_reading(json_uuids: Option<Seq<char>>) -> Result<
    Option<Seq<u128>>,
    Seq<char>,
> {
    match json_uuids {
        None => Ok(None),
        Some(text) => match uuid_array_reading(text) {
            Ok(values) => Ok(Some(values)),
            Err(message) => Err(message),
        },
    }
}

/// The JSON text under which a list of identifiers is stored.
pub open spec fn uuid_array_text(values: Seq<u128>) -> Seq<char> {
    json_text(canonical_uuid_texts(values))
}

/// The JSON text under which an optional list of identifiers is stored.
pub open spec fn optional_uuid_array_text(values: Option<Seq<u128>>) -> Option<Seq<char>> {
    match values {
        None => None,
        Some(list) => Some(uuid_array_text(list)),
    }
}

/// The text under which an optional identifier is stored.
pub open spec fn optional_uuid_text(value: Option<u128>) -> Option<Seq<char>> {
    match value {
        None => None,
        Some(id) => Some(canonical_uuid_text(id)),
    }
}

/// The elements of an optional list.
pub open spec fn optional_elements<T>(list: Option<Vec<T>>) -> Option<Seq<T>> {
    match list {
        None => None,
        Some(elements) => Some(elements@),
    }
}

/// Whether the stored text of an optional list of identifiers is read back as
/// the list.
pub open spec fn optional_uuid_array_reads_back(values: Option<Seq<u128>>) -> bool {
    values matches Some(list) ==> json_reads_back(canonical_uuid_texts(list))
}

/// Where the JSON text of an identifier list is read back as written, the
/// list's stored text is read as the list.
pub proof fn lemma_uuid_array_reads_back(values: Seq<u128>)
    requires
        json_reads_back(canonical_uuid_texts(values)),
    ensures
        uuid_array_reading(uuid_array_text(values)) == Ok::<Seq<u128>, Seq<char>>(values),
{
    crate::identifiers::lemma_canonical_uuid_texts(values);
}

/// Reads a colour: `#` and three or six hexadecimal digits. The colour is
/// handed back unchanged; any other text is refused by name.
pub fn parse_color_hex(color_hex: &String) -> (reading: Result<String, String>)
    ensures
        reading is Ok <==> is_color_hex(color_hex@),
        reading matches Ok(color) ==> color@ == color_hex@,
        reading matches Err(message) ==> message@ == invalid_color_hex_message(color_hex@),
        reading matches Ok(color) ==> color_hex_reading(color_hex@) == Ok::<Seq<char>, Seq<char>>(
            color@,
        ),
        reading matches Err(message) ==> color_hex_reading(color_hex@) == Err::<
            Seq<char>,
            Seq<char>,
        >(message@),
{
    if !color_pattern_found(COLOR_HEX_PATTERN, color_hex.as_str()) {
        return Err(frame("Invalid color hex '", color_hex.as_str(), "'"));
    }
    Ok(color_hex.clone())
}

/// Reads an optional colour.
pub fn parse_optional_color_hex(color_hex: &Option<String>) -> (reading: Result<
    Option<String>,
    String,
>)
    ensures
        match reading {
            Ok(color) => optional_color_hex_reading(crate::text::optional_text(*color_hex)) == Ok::<
                Option<Seq<char>>,
                Seq<char>,
            >(crate::text::optional_text(color)),
            Err(message) => optional_color_hex_reading(crate::text::optional_text(*color_hex))
                == Err::<Option<Seq<char>>, Seq<char>>(message@),
        },
{
    match color_hex {
        None => Ok(None),
        Some(text) => match parse_color_hex(text) {
            Ok(color) => Ok(Some(color)),
            Err(message) => Err(message),
        },
    }
}

/// Reads an identifier.
pub fn parse_uuid(uuid: &String) -> (reading: Result<u128, String>)
    ensures
        match reading {
            Ok(value) => uuid_reading(uuid@) == Ok::<u128, Seq<char>>(value),
            Err(message) => uuid_reading(uuid@) == Err::<u128, Seq<char>>(message@),
        },
{
    parse_uuid_text(uuid.as_str())
}

/// Reads an optional identifier.
pub fn parse_optional_uuid(uuid: &Option<String>) -> (reading: Result<Option<u128>, String>)
    ensures
        match reading {
            Ok(value) => optional_uuid_reading(crate::text::optional_text(*uuid)) == Ok::<
                Option<u128>,
                Seq<char>,
            >(value),
            Err(message) => optional_uuid_reading(crate::text::optional_text(*uuid)) == Err::<
                Option<u128>,
                Seq<char>,
            >(message@),
        },
{
    match uuid {
        None => Ok(None),
        Some(text) => match parse_uuid(text) {
            Ok(value) => Ok(Some(value)),
            Err(message) => Err(message),
        },
    }
}

/// Reads a list of texts as identifiers, in their order. The first text
/// that stands for no identifier is refused by name.
pub fn parse_uuid_strings(uuid_strings: &Vec<String>) -> (reading: Result<Vec<u128>, String>)
    ensures
        match reading {
            Ok(values) => uuid_strings_reading(uuid_strings.deep_view()) == Ok::<
                Seq<u128>,
                Seq<char>,
            >(values@),
            Err(message) => uuid_strings_reading(uuid_strings.deep_view()) == Err::<
                Seq<u128>,
                Seq<char>,
            >(message@),
        },
{
    let ghost strings = uuid_strings.deep_view();
    let mut uuids: Vec<u128> = Vec::new();
    let mut i: usize = 0;
    while i < uuid_strings.len()
        invariant
            i <= uuid_strings.len(),
            strings == uuid_strings.deep_view(),
            first_unreadable_from(strings, 0) == first_unreadable_from(strings, i as int),
            uuids.len() == i,
            forall|j: int| 0 <= j < i ==> uuid_text_value(strings[j]) == Some(#[trigger] uuids[j]),
        decreases uuid_strings.len() - i,
    {
        assert(strings[i as int] == uuid_strings[i as int]@);
        match parse_uuid_text(uuid_strings[i].as_str()) {
            Ok(res) => {
                uuids.push(res);
            },
            Err(_) => {
                assert(first_unreadable_from(strings, i as int) == i);
                return Err(frame("Invalid uuid '", uuid_strings[i].as_str(), "'"));
            },
        }
        i += 1;
    }
    assert(uuids@ =~= uuid_values(strings));
    Ok(uuids)
}

/// Reads a JSON array of identifiers. A text that is no array of strings is
/// refused with the words of the JSON reader; the strings are then read as
/// `parse_uuid_strings` reads them.
pub fn parse_json_uuid_array(json_uuids: &String) -> (reading: Result<Vec<u128>, String>)
    ensures
        match reading {
            Ok(values) => uuid_array_reading(json_uuids@) == Ok::<Seq<u128>, Seq<char>>(values@),
            Err(message) => uuid_array_reading(json_uuids@) == Err::<Seq<u128>, Seq<char>>(
                message@,
            ),
        },
{
    match read_string_array(json_uuids.as_str()) {
        Ok(uuid_strings) => parse_uuid_strings(&uuid_strings),
        Err(err) => Err(err),
    }
}

/// Reads an optional JSON array of identifiers.
pub fn parse_optional_json_uuid_array(json_uuids: &Option<String>) -> (reading: Result<
    Option<Vec<u128>>,
    String,
>)
    ensures
        match reading {
            Ok(values) => optional_uuid_array_reading(crate::text::optional_text(*json_uuids))
                == Ok::<Option<Seq<u128>>, Seq<char>>(optional_elements(values)),
            Err(message) => optional_uuid_array_reading(crate::text::optional_text(*json_uuids))
                == Err::<Option<Seq<u128>>, Seq<char>>(message@),
        },
{
    match json_uuids {
        None => Ok(None),
        Some(text) => match parse_json_uuid_array(text) {
            Ok(values) => Ok(Some(values)),
            Err(message) => Err(message),
        },
    }
}

/// Writes a list of identifiers as a JSON array of their texts.
pub fn write_json_uuid_array(uuids: &Vec<u128>) -> (written: Result<String, String>)
    ensures
        written matches Ok(text) && text@ == uuid_array_text(uuids@),
        json_reads_back(canonical_uuid_texts(uuids@)),
{
    let mut uuid_strings: Vec<String> = Vec::new();
    let mut i: usize = 0;
    while i < uuids.len()
        invariant
            i <= uuids.len(),
            uuid_strings.len() == i,
            forall|j: int| 0 <= j < i ==> (#[trigger] uuid_strings[j])@ == canonical_uuid_text(uuids[j]),
        decreases uuids.len() - i,
    {
        uuid_strings.push(format_uuid(uuids[i]));
        i += 1;
    }
    assert(uuid_strings.deep_view() =~= canonical_uuid_texts(uuids@));
    write_string_array(&uuid_strings)
}

/// Writes an optional list of identifiers.
pub fn write_optional_json_uuid_array(uuids: &Option<Vec<u128>>) -> (written: Result<
    Option<String>,
    String,
>)
    ensures
        written matches Ok(text) && crate::text::optional_text(text) == optional_uuid_array_text(
            optional_elements(*uuids),
        ),
        optional_uuid_array_reads_back(optional_elements(*uuids)),
{
    match uuids {
        None => Ok(None),
        Some(list) => match write_json_uuid_array(list) {
            Ok(text) => Ok(Some(text)),
            Err(message) => Err(message),
        },
    }
}

/// Writes an optional identifier.
pub fn write_optional_uuid(uuid: &Option<u128>) -> (written: Option<String>)
    ensures
        crate::text::optional_text(written) == optional_uuid_text(*uuid),
{
    match uuid {
        None => None,
        Some(value) => Some(format_uuid(*value)),
    }
}

} // verus!
