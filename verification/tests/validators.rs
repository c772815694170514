use tasklist::validators::{
    validate_color_hex, validate_json_uuid_array, validate_uuid, validate_uuid_strings,
};

#[test]
fn color_hex_with_six_digits_is_accepted() {
    assert!(validate_color_hex(&String::from("#1a2B3c")).is_ok());
}

#[test]
fn color_hex_with_three_digits_is_accepted() {
    assert!(validate_color_hex(&String::from("#FfF")).is_ok());
}

#[test]
fn color_hex_examples_that_are_refused() {
    for text in ["red", "#12345", "123456", "", "#", "#12", "#1234567", "#12345g", "#123\n", " #123"] {
        let verdict = validate_color_hex(&String::from(text));
        assert!(verdict.is_err(), "{:?} was accepted", text);
        let err = verdict.err().unwrap();
        assert_eq!(err.message(), "Invalid color hex");
        assert_eq!(err.value(), text);
    }
}

#[test]
fn uuid_forms_that_are_accepted() {
    for text in [
        "936DA01F-9ABD-4D9D-80C7-02AF85C822A8",
        "936da01f-9abd-4d9d-80c7-02af85c822a8",
        "936dA01f-9aBd-4D9d-80c7-02Af85C822a8",
        "00000000-0000-0000-0000-000000000000",
    ] {
        assert!(validate_uuid(&String::from(text)).is_ok(), "{:?} was refused", text);
    }
}

#[test]
fn uuid_forms_that_are_refused() {
    for text in [
        "",
        "550e8400e29b41d4a716446655440000",
        "936da01f9abd4d9d80c702af85c822a8",
        "urn:uuid:936da01f-9abd-4d9d-80c7-02af85c822a8",
        "936da01f-9abd-4d9d-80c7-02af85c822a",
        "936da01f-9abd-4d9d-80c7-02af85c822a8a",
        "936da01f-9abd-4d9d-80c7-02af85c822ag",
        "936da01f9abd-4d9d-80c7-02af85c822a8ab",
        "936da01f-9abd-4d9d-80c702af-85c822a8",
        "urn:uuid:936da01f9abd4d9d80c702af85c822a8abcd",
        "{936da01f-9abd-4d9d-80c7-02af85c822a8}",
    ] {
        let verdict = validate_uuid(&String::from(text));
        assert!(verdict.is_err(), "{:?} was accepted", text);
        let err = verdict.err().unwrap();
        assert_eq!(err.message(), "Invalid UUID");
        assert_eq!(err.value(), text);
    }
}

#[test]
fn json_uuid_array_is_accepted() {
    let text = String::from(
        "[\"936da01f-9abd-4d9d-80c7-02af85c822a8\", \"00000000-0000-0000-0000-000000000001\"]",
    );
    assert!(validate_json_uuid_array(&text).is_ok());
    assert!(validate_json_uuid_array(&String::from("[]")).is_ok());
    let bare = String::from(
        "[\"936da01f-9abd-4d9d-80c7-02af85c822a8\", \"00000000000000000000000000000001\"]",
    );
    let err = validate_json_uuid_array(&bare).err().unwrap();
    assert_eq!(err.message(), "Invalid UUID in list");
    assert_eq!(err.value(), "00000000000000000000000000000001");
}

#[test]
fn json_uuid_array_names_the_first_bad_element() {
    let text = String::from("[\"936da01f-9abd-4d9d-80c7-02af85c822a8\", \"nope\", \"neither\"]");
    let err = validate_json_uuid_array(&text).err().unwrap();
    assert_eq!(err.message(), "Invalid UUID in list");
    assert_eq!(err.value(), "nope");
}

#[test]
fn malformed_json_is_refused_with_the_reader_s_words() {
    let text = String::from("[\"936da01f-9abd-4d9d-80c7-02af85c822a8\"");
    let err = validate_json_uuid_array(&text).err().unwrap();
    assert!(err.message().contains("EOF"), "{}", err.message());
    assert_eq!(err.value(), text);
    let not_strings = String::from("[1, 2]");
    assert!(validate_json_uuid_array(&not_strings).is_err());
}

#[test]
fn uuid_strings_are_checked_in_their_order() {
    let good = vec![
        String::from("936da01f-9abd-4d9d-80c7-02af85c822a8"),
        String::from("936DA01F-9ABD-4D9D-80C7-02AF85C822A8"),
    ];
    assert!(validate_uuid_strings(&good).is_ok());
    assert!(validate_uuid_strings(&Vec::new()).is_ok());
    let bad = vec![
        String::from("936da01f-9abd-4d9d-80c7-02af85c822a8"),
        String::from("urn:uuid:936da01f-9abd-4d9d-80c7-02af85c822a8"),
        String::from("nope"),
    ];
    let err = validate_uuid_strings(&bad).err().unwrap();
    assert_eq!(err.message(), "Invalid UUID in list");
    assert_eq!(err.value(), "urn:uuid:936da01f-9abd-4d9d-80c7-02af85c822a8");
}
