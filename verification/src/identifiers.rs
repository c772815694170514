//! Identifiers of entities: 128-bit values and their text.
//!
//! An identifier is held as a `u128`. Its text is written by the `uuid` crate;
//! this module says which texts that crate accepts, which value each stands
//! for, and which text it writes for a value.

use vstd::prelude::*;

verus! {

/// Whether `c` is one of `0-9`, `a-f`, `A-F`.
pub open spec fn is_hex_digit(c: char) -> bool {
    hex_digit_value(c) < 16
}

/// The number that a hexadecimal digit stands for; 16 for any other character.
pub open spec fn hex_digit_value(c: char) -> nat {
    if c == '0' {
        0
    } else if c == '1' {
        1
    } else if c == '2' {
        2
    } else if c == '3' {
        3
    } else if c == '4' {
        4
    } else if c == '5' {
        5
    } else if c == '6' {
        6
    } else if c == '7' {
        7
    } else if c == '8' {
        8
    } else if c == '9' {
        9
    } else if c == 'a' || c == 'A' {
        10
    } else if c == 'b' || c == 'B' {
        11
    } else if c == 'c' || c == 'C' {
        12
    } else if c == 'd' || c == 'D' {
        13
    } else if c == 'e' || c == 'E' {
        14
    } else if c == 'f' || c == 'F' {
        15
    } else {
        16
    }
}

/// The lower-case hexadecimal digit for `n`, where `n < 16`.
pub open spec fn lower_hex_digit(n: nat) -> char {
    if n == 0 {
        '0'
    } else if n == 1 {
        '1'
    } else if n == 2 {
        '2'
    } else if n == 3 {
        '3'
    } else if n == 4 {
        '4'
    } else if n == 5 {
        '5'
    } else if n == 6 {
        '6'
    } else if n == 7 {
        '7'
    } else if n == 8 {
        '8'
    } else if n == 9 {
        '9'
    } else if n == 10 {
        'a'
    } else if n == 11 {
        'b'
    } else if n == 12 {
        'c'
    } else if n == 13 {
        'd'
    } else if n == 14 {
        'e'
    } else {
        'f'
    }
}

/// Whether `c` is a digit or one of `a-f`.
pub open spec fn is_lower_hex_digit(c: char) -> bool {
    is_hex_digit(c) && c == lower_hex_digit(hex_digit_value(c))
}

/// Whether every character of `s` is a hexadecimal digit.
pub open spec fn all_hex_digits(s: Seq<char>) -> bool {
    forall|i: int| 0 <= i < s.len() ==> is_hex_digit(#[trigger] s[i])
}

/// The number that the digits `s` stand for, most significant digit first.
pub open spec fn hex_value(s: Seq<char>) -> nat
    decreases s.len(),
{
    if s.len() == 0 {
        0
    } else {
        16 * hex_value(s.drop_last()) + hex_digit_value(s.last())
    }
}

/// The last `width` lower-case hexadecimal digits of `value`.
pub open spec fn lower_hex(value: nat, width: nat) -> Seq<char>
    decreases width,
{
    if width == 0 {
        Seq::empty()
    } else {
        lower_hex(value / 16, (width - 1) as nat).push(lower_hex_digit(value % 16))
    }
}

/// Sixteen to the power `width`.
pub open spec fn sixteen_to(width: nat) -> nat
    decreases width,
{
    if width == 0 {
        1
    } else {
        16 * sixteen_to((width - 1) as nat)
    }
}

/// The text `urn:uuid:`.
pub open spec fn urn_prefix() -> Seq<char> {
    seq!['u', 'r', 'n', ':', 'u', 'u', 'i', 'd', ':']
}

/// Thirty-two hexadecimal digits.
pub open spec fn is_simple_uuid_text(s: Seq<char>) -> bool {
    s.len() == 32 && all_hex_digits(s)
}

/// Hexadecimal digits in groups of 8, 4, 4, 4 and 12 with a hyphen between
/// neighbouring groups.
pub open spec fn is_hyphenated_uuid_text(s: Seq<char>) -> bool {
    &&& s.len() == 36
    &&& forall|i: int|
        0 <= i < 36 ==> if i == 8 || i == 13 || i == 18 || i == 23 {
            #[trigger] s[i] == '-'
        } else {
            is_hex_digit(s[i])
        }
}

/// The text `urn:uuid:` followed by a hyphenated identifier.
pub open spec fn is_urn_uuid_text(s: Seq<char>) -> bool {
    &&& s.len() == 45
    &&& s.subrange(0, 9) == urn_prefix()
    &&& is_hyphenated_uuid_text(s.subrange(9, 45))
}

/// The texts that are read as an identifier.
pub open spec fn is_uuid_text(s: Seq<char>) -> bool {
    is_simple_uuid_text(s) || is_hyphenated_uuid_text(s) || is_urn_uuid_text(s)
}

/// The digits of a hyphenated identifier, without the hyphens.
pub open spec fn hyphenated_digits(s: Seq<char>) -> Seq<char> {
    s.subrange(0, 8) + s.subrange(9, 13) + s.subrange(14, 18) + s.subrange(19, 23) + s.subrange(
        24,
        36,
    )
}

/// The thirty-two digits of an identifier's text.
pub open spec fn uuid_digits(s: Seq<char>) -> Seq<char> {
    if is_hyphenated_uuid_text(s) {
        hyphenated_digits(s)
    } else if is_urn_uuid_text(s) {
        hyphenated_digits(s.subrange(9, 45))
    } else {
        s
    }
}

/// The identifier that `s` stands for, if it stands for one.
pub open spec fn uuid_text_value(s: Seq<char>) -> Option<u128> {
    if is_uuid_text(s) {
        Some(hex_value(uuid_digits(s)) as u128)
    } else {
        None
    }
}

/// The place of the first text at or after `from` that stands for no
/// identifier; the number of texts where each of them stands for one.
pub open spec fn first_unreadable_from(strings: Seq<Seq<char>>, from: int) -> int
    decreases strings.len() - from,
{
    if from < 0 || from >= strings.len() {
        strings.len() as int
    } else if uuid_text_value(strings[from]) is None {
        from
    } else {
        first_unreadable_from(strings, from + 1)
    }
}

/// The place of the first text at or after `from` that is not an identifier
/// in its hyphenated form; the number of texts where each of them is one.
pub open spec fn first_unhyphenated_from(strings: Seq<Seq<char>>, from: int) -> int
    decreases strings.len() - from,
{
    if from < 0 || from >= strings.len() {
        strings.len() as int
    } else if !is_hyphenated_uuid_text(strings[from]) {
        from
    } else {
        first_unhyphenated_from(strings, from + 1)
    }
}

/// Whether each of the texts is an identifier in its hyphenated form.
pub open spec fn all_hyphenated_uuid_texts(strings: Seq<Seq<char>>) -> bool {
    first_unhyphenated_from(strings, 0) == strings.len()
}

/// Whether each of the texts stands for an identifier.
pub open spec fn all_uuid_texts(strings: Seq<Seq<char>>) -> bool {
    first_unreadable_from(strings, 0) == strings.len()
}

/// The identifiers that the texts stand for, where each stands for one.
pub open spec fn uuid_values(strings: Seq<Seq<char>>) -> Seq<u128> {
    Seq::new(strings.len(), |i: int| uuid_text_value(strings[i]).unwrap())
}

/// The texts that are written for the identifiers.
pub open spec fn canonical_uuid_texts(values: Seq<u128>) -> Seq<Seq<char>> {
    Seq::new(values.len(), |i: int| canonical_uuid_text(values[i]))
}

/// The text that is written for an identifier: lower-case digits, hyphenated.
pub open spec fn canonical_uuid_text(value: u128) -> Seq<char> {
    let digits = lower_hex(value as nat, 32);
    digits.subrange(0, 8) + seq!['-'] + digits.subrange(8, 12) + seq!['-'] + digits.subrange(12, 16)
        + seq!['-'] + digits.subrange(16, 20) + seq!['-'] + digits.subrange(20, 32)
}

/// Whether `value` carries the marks of a randomly drawn identifier: version
/// four, in the variant that RFC 4122 lays down.
pub open spec fn is_random_uuid(value: u128) -> bool {
    (value / 0x1000_0000_0000_0000_0000) % 0x10 == 4 && (value / 0x4000_0000_0000_0000) % 4 == 2
}

/// What the `uuid` crate says of a text that it does not read as an identifier.
pub uninterp spec fn uuid_parse_failure(text: Seq<char>) -> Seq<char>;

/// Reads an identifier with `uuid::Uuid::parse_str` and hands out its value
/// (`Uuid::as_u128`), or the text of the crate's error.
///
/// Believed of the crate: it reads the thirty-two digit form, the hyphenated
/// form and the hyphenated form behind `urn:uuid:`, in either case of the
/// letters, and nothing else; the value is that of the digits, the first digit
/// being the most significant.
#[verifier::external_body]
pub(crate) fn parse_uuid_text(text: &str) -> (parsed: Result<u128, String>)
    ensures
        parsed matches Ok(value) ==> uuid_text_value(text@) == Some(value),
        parsed matches Err(message) ==> uuid_text_value(text@) is None && message@
            == uuid_parse_failure(text@),
{
    match uuid::Uuid::parse_str(text) {
        Ok(id) => Ok(id.as_u128()),
        Err(err) => Err(err.to_string()),
    }
}

/// Writes an identifier with `uuid::Uuid::from_u128` and the crate's `Display`.
///
/// Believed of the crate: the text is the value's thirty-two lower-case
/// digits, hyphenated.
#[verifier::external_body]
pub(crate) fn format_uuid(value: u128) -> (text: String)
    ensures
        text@ == canonical_uuid_text(value),
{
    uuid::Uuid::from_u128(value).to_string()
}

/// Draws an identifier with `uuid::Uuid::new_v4`.
///
/// Believed of the crate: whatever the random bits, the version is four and
/// the variant is that of RFC 4122. The crate panics where the operating
/// system has no random bytes to give.
#[verifier::external_body]
pub(crate) fn random_uuid() -> (value: u128)
    ensures
        is_random_uuid(value),
{
    uuid::Uuid::new_v4().as_u128()
}

/// The digits of `value` are `width` many, all lower-case hexadecimal, and
/// stand for `value` modulo sixteen to the `width`.
pub proof fn lemma_lower_hex(value: nat, width: nat)
    ensures
        lower_hex(value, width).len() == width,
        forall|i: int| 0 <= i < width ==> is_lower_hex_digit(#[trigger] lower_hex(value, width)[i]),
        hex_value(lower_hex(value, width)) == value % sixteen_to(width),
    decreases width,
{
    if width == 0 {
    } else {
        let rest = lower_hex(value / 16, (width - 1) as nat);
        let digits = lower_hex(value, width);
        lemma_lower_hex(value / 16, (width - 1) as nat);
        assert(digits.drop_last() =~= rest);
        assert(digits.last() == lower_hex_digit(value % 16));
        assert(hex_digit_value(lower_hex_digit(value % 16)) == value % 16);
        assert forall|i: int| 0 <= i < width implies is_lower_hex_digit(#[trigger] digits[i]) by {
            if i < width - 1 {
                assert(digits[i] == rest[i]);
            }
        }
        let p = sixteen_to((width - 1) as nat);
        lemma_sixteen_to_positive((width - 1) as nat);
        vstd::arithmetic::div_mod::lemma_mod_breakdown(value as int, 16, p as int);
    }
}

/// Sixteen to any power is positive.
pub proof fn lemma_sixteen_to_positive(width: nat)
    ensures
        sixteen_to(width) > 0,
    decreases width,
{
    if width > 0 {
        lemma_sixteen_to_positive((width - 1) as nat);
    }
}

/// The text written for an identifier is read back as that identifier, and it
/// is the hyphenated form in lower case.
pub proof fn lemma_canonical_uuid_text(value: u128)
    ensures
        is_hyphenated_uuid_text(canonical_uuid_text(value)),
        uuid_text_value(canonical_uuid_text(value)) == Some(value),
        forall|i: int|
            0 <= i < 36 && i != 8 && i != 13 && i != 18 && i != 23 ==> is_lower_hex_digit(
                #[trigger] canonical_uuid_text(value)[i],
            ),
{
    let digits = lower_hex(value as nat, 32);
    let text = canonical_uuid_text(value);
    lemma_lower_hex(value as nat, 32);
    assert(text.len() == 36);
    assert forall|i: int| 0 <= i < 36 implies if i == 8 || i == 13 || i == 18 || i == 23 {
        #[trigger] text[i] == '-'
    } else {
        is_lower_hex_digit(text[i])
    } by {
        if i < 8 {
            assert(text[i] == digits[i]);
        } else if i == 8 {
        } else if i < 13 {
            assert(text[i] == digits[i - 1]);
        } else if i == 13 {
        } else if i < 18 {
            assert(text[i] == digits[i - 2]);
        } else if i == 18 {
        } else if i < 23 {
            assert(text[i] == digits[i - 3]);
        } else if i == 23 {
        } else {
            assert(text[i] == digits[i - 4]);
        }
    }
    assert(is_hyphenated_uuid_text(text));
    assert(hyphenated_digits(text) =~= digits);
    assert(sixteen_to(32) == 0x1_0000_0000_0000_0000_0000_0000_0000_0000) by {
        reveal_with_fuel(sixteen_to, 9);
        assert(sixteen_to(8) == 0x1_0000_0000);
        assert(sixteen_to(16) == 0x1_0000_0000 * sixteen_to(8));
        assert(sixteen_to(24) == 0x1_0000_0000 * sixteen_to(16));
        assert(sixteen_to(32) == 0x1_0000_0000 * sixteen_to(24));
    }
    assert((value as nat) % sixteen_to(32) == value as nat);
}

/// Where no text from `from` on is unreadable, each of them stands for an
/// identifier; otherwise the first unreadable one lies at or after `from`
/// and every text between the two stands for an identifier.
pub proof fn lemma_first_unreadable(strings: Seq<Seq<char>>, from: int)
    requires
        0 <= from <= strings.len(),
    ensures
        from <= first_unreadable_from(strings, from) <= strings.len(),
        forall|i: int|
            from <= i < first_unreadable_from(strings, from) ==> (#[trigger] uuid_text_value(
                strings[i],
            )) is Some,
        first_unreadable_from(strings, from) < strings.len() ==> uuid_text_value(
            strings[first_unreadable_from(strings, from)],
        ) is None,
    decreases strings.len() - from,
{
    if from < strings.len() && uuid_text_value(strings[from]) is Some {
        lemma_first_unreadable(strings, from + 1);
    }
}

/// The texts written for identifiers are read back as those identifiers.
pub proof fn lemma_canonical_uuid_texts(values: Seq<u128>)
    ensures
        all_uuid_texts(canonical_uuid_texts(values)),
        uuid_values(canonical_uuid_texts(values)) == values,
{
    let strings = canonical_uuid_texts(values);
    assert forall|i: int| 0 <= i < strings.len() implies uuid_text_value(#[trigger] strings[i])
        == Some(values[i]) by {
        lemma_canonical_uuid_text(values[i]);
    }
    lemma_first_unreadable(strings, 0);
    assert(uuid_values(strings) =~= values);
}

} // verus!
