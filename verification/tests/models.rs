use tasklist::errors::ValidationError;
use tasklist::models::database::{
    CreationInformationRow, ListRow, NewListRow, TaskRow, UserRow,
};
use tasklist::models::graphql::{
    CreateCreationInformationInput, CreateListInput, CreateTaskInput, CreateUserInput,
    UpdateCreationInformationInput, UpdateListInput,
};
use tasklist::models::utilities::{
    parse_color_hex, parse_json_uuid_array, parse_uuid, parse_uuid_strings, write_json_uuid_array,
};
use tasklist::models::{CreationInformation, List, Task, TaskPriority, User};
use tasklist::timestamps::Timestamp;

const ALICE: u128 = 0x936DA01F_9ABD_4D9D_80C7_02AF85C822A8;
const ALICE_TEXT: &str = "936da01f-9abd-4d9d-80c7-02af85c822a8";

fn at(seconds: i64, nanoseconds: u32) -> Timestamp {
    Timestamp::new(seconds, nanoseconds).unwrap()
}

fn empty_list_input() -> CreateListInput {
    CreateListInput {
        title: String::from("Groceries"),
        description: None,
        color_hex: None,
        task_uuids: None,
        parent_list_uuid: None,
        sub_list_uuids: None,
        shared_with_user_uuids: None,
    }
}

#[test]
fn validation_error_keeps_its_message() {
    let err = ValidationError::new("Invalid UUID");
    assert_eq!(err.message(), "Invalid UUID");
    assert_eq!(err.value(), "");
    assert_eq!(err.to_text(), "Invalid UUID");
    assert_eq!(err.to_debug_text(), "ValidationError { message: Invalid UUID }");
    let with_value = ValidationError::for_value("Invalid color hex", "red");
    assert_eq!(with_value.value(), "red");
}

#[test]
fn uuid_text_is_read_as_its_value() {
    assert_eq!(parse_uuid(&String::from(ALICE_TEXT)), Ok(ALICE));
    assert_eq!(parse_uuid(&String::from("936DA01F9ABD4D9D80C702AF85C822A8")), Ok(ALICE));
    assert_eq!(
        parse_uuid(&String::from("urn:uuid:936da01f-9abd-4d9d-80c7-02af85c822a8")),
        Ok(ALICE)
    );
    assert_eq!(parse_uuid(&String::from("00000000-0000-0000-0000-000000000001")), Ok(1));
    assert_eq!(
        parse_uuid(&String::from("ffffffff-ffff-ffff-ffff-ffffffffffff")),
        Ok(u128::MAX)
    );
}

#[test]
fn uuid_text_that_is_malformed_is_refused_with_the_reader_s_words() {
    let refused = parse_uuid(&String::from("not-a-uuid")).err().unwrap();
    assert!(refused.starts_with("invalid length"), "{}", refused);
    let bad_character = parse_uuid(&String::from("936da01f-9abd-4d9d-80c7-02af85c822ag"))
        .err()
        .unwrap();
    assert!(bad_character.starts_with("invalid character"), "{}", bad_character);
}

#[test]
fn color_hex_round_trips_unchanged() {
    assert_eq!(parse_color_hex(&String::from("#AbC")), Ok(String::from("#AbC")));
    assert_eq!(parse_color_hex(&String::from("#00ff7F")), Ok(String::from("#00ff7F")));
    assert_eq!(
        parse_color_hex(&String::from("red")),
        Err(String::from("Invalid color hex 'red'"))
    );
    assert_eq!(
        parse_color_hex(&String::from("#12345")),
        Err(String::from("Invalid color hex '#12345'"))
    );
    assert_eq!(
        parse_color_hex(&String::from("123456")),
        Err(String::from("Invalid color hex '123456'"))
    );
}

#[test]
fn json_uuid_array_is_read_in_order() {
    let text = String::from(
        "[\"00000000-0000-0000-0000-000000000002\", \"936da01f-9abd-4d9d-80c7-02af85c822a8\"]",
    );
    assert_eq!(parse_json_uuid_array(&text), Ok(vec![2, ALICE]));
    assert_eq!(parse_json_uuid_array(&String::from("[]")), Ok(vec![]));
    assert_eq!(
        parse_json_uuid_array(&String::from("[\"00000000-0000-0000-0000-000000000002\", \"x\", \"y\"]")),
        Err(String::from("Invalid uuid 'x'"))
    );
    assert!(parse_json_uuid_array(&String::from("{}")).is_err());
}

#[test]
fn json_uuid_array_is_written_and_read_back() {
    let written = write_json_uuid_array(&vec![1, ALICE]).unwrap();
    assert_eq!(
        written,
        "[\"00000000-0000-0000-0000-000000000001\",\"936da01f-9abd-4d9d-80c7-02af85c822a8\"]"
    );
    assert_eq!(parse_json_uuid_array(&written), Ok(vec![1, ALICE]));
    assert_eq!(write_json_uuid_array(&vec![]).unwrap(), "[]");
}

#[test]
fn timestamp_text_is_rfc3339() {
    assert_eq!(at(1431648000, 0).to_rfc3339(), "2015-05-15T00:00:00+00:00");
    assert_eq!(at(1431648000, 500_000_000).to_rfc3339(), "2015-05-15T00:00:00.500+00:00");
    assert_eq!(at(0, 1).to_rfc3339(), "1970-01-01T00:00:00.000000001+00:00");
    assert_eq!(at(-62_167_219_200, 0).to_rfc3339(), "0000-01-01T00:00:00+00:00");
    assert_eq!(
        at(253_402_300_799, 999_999_999).to_rfc3339(),
        "9999-12-31T23:59:59.999999999+00:00"
    );
}

#[test]
fn timestamp_text_is_read_back() {
    for point in [
        at(1431648000, 0),
        at(1431648000, 123_456_789),
        at(0, 0),
        at(-1, 999_000_000),
        at(-62_167_219_200, 0),
        at(253_402_300_799, 999_999_999),
    ] {
        assert_eq!(Timestamp::parse_from_rfc3339(&point.to_rfc3339()), Ok(point));
    }
    let moved = Timestamp::parse_from_rfc3339("1996-12-19T16:39:57-08:00").unwrap();
    assert_eq!(moved.seconds_since_epoch(), 851_042_397);
    assert_eq!(moved.subsecond_nanoseconds(), 0);
}

#[test]
fn timestamp_outside_the_years_is_refused() {
    assert_eq!(Timestamp::new(253_402_300_800, 0), None);
    assert_eq!(Timestamp::new(-62_167_219_201, 0), None);
    assert_eq!(Timestamp::new(0, 1_000_000_000), None);
    assert_eq!(
        Timestamp::parse_from_rfc3339("9999-12-31T23:59:59-01:00"),
        Err(String::from("timestamp outside the range that is recorded"))
    );
    assert_eq!(
        Timestamp::parse_from_rfc3339("2016-12-31T23:59:60Z"),
        Err(String::from("timestamp outside the range that is recorded"))
    );
    assert_eq!(
        Timestamp::parse_from_rfc3339("yesterday"),
        Err(String::from("premature end of input"))
    );
    assert_eq!(
        Timestamp::parse_from_rfc3339("2015-05-15 00:00:00 tomorrow"),
        Err(String::from("input contains invalid characters"))
    );
}

#[test]
fn the_clock_is_read() {
    let now = Timestamp::now().unwrap();
    assert!(at(1_600_000_000, 0).at_or_before(&now));
    let later = Timestamp::now().unwrap();
    assert!(now.at_or_before(&later));
}

#[test]
fn timestamps_are_ordered_by_seconds_then_nanoseconds() {
    assert!(at(1, 5).at_or_before(&at(1, 5)));
    assert!(at(1, 5).at_or_before(&at(1, 6)));
    assert!(at(1, 999_999_999).at_or_before(&at(2, 0)));
    assert!(!at(2, 0).at_or_before(&at(1, 999_999_999)));
    assert!(!at(1, 6).at_or_before(&at(1, 5)));
}

#[test]
fn user_keeps_the_digest_of_password_and_salt() {
    let input = CreateUserInput {
        username: String::from("alice"),
        password: String::from("ab"),
        nickname: String::from("Al"),
    };
    let user = User::from_create_user_input(input, ALICE, "c");
    assert_eq!(user.uuid, ALICE);
    assert_eq!(user.username, "alice");
    assert_eq!(user.nickname, "Al");
    assert_eq!(
        user.password_hash,
        "3a985da74fe225b2045c172d6bd390bd855f086e3e9d525b46bfe24511431532"
    );
    assert_eq!(user.password_hash.len(), 64);
    assert!(user.password_hash.chars().all(|c| matches!(c, '0'..='9' | 'a'..='f')));
    let other_names = User::from_create_user_input(
        CreateUserInput {
            username: String::from("bob"),
            password: String::from("ab"),
            nickname: String::from("B"),
        },
        2,
        "c",
    );
    assert_eq!(other_names.password_hash, user.password_hash);
    let unsalted = User::from_create_user_input(
        CreateUserInput {
            username: String::from("bob"),
            password: String::new(),
            nickname: String::new(),
        },
        1,
        "",
    );
    assert_eq!(
        unsalted.password_hash,
        "a7ffc6f8bf1ed76651c14756a061d662f580ff4de43b49fa82d80a4b80f8434a"
    );
}

#[test]
fn user_row_holds_the_identifier_as_text() {
    let user = User {
        uuid: ALICE,
        username: String::from("alice"),
        password_hash: String::from("digest"),
        nickname: String::from("Al"),
    };
    let row = UserRow::from_user(user);
    assert_eq!(
        row,
        UserRow {
            uuid: String::from(ALICE_TEXT),
            username: String::from("alice"),
            password_hash: String::from("digest"),
            nickname: String::from("Al"),
        }
    );
    assert_eq!(row.duplicate(), row);
}

#[test]
fn creation_information_starts_with_creator_as_editor() {
    let now = at(1431648000, 0);
    let input = CreateCreationInformationInput { creator_user_uuid: String::from(ALICE_TEXT) };
    let made = CreationInformation::from_create_creation_information_input(input.clone(), 7, now);
    let expected = CreationInformation {
        uuid: 7,
        creator_user_uuid: ALICE,
        creation_time: now,
        last_updated_by_user_uuid: ALICE,
        last_updated_time: now,
    };
    assert_eq!(made, Ok(expected));
    assert_eq!(input.create_creation_information(7, now), Ok(expected));
    let refused = CreateCreationInformationInput { creator_user_uuid: String::from("alice") };
    assert!(CreationInformation::from_create_creation_information_input(refused, 7, now).is_err());
}

#[test]
fn set_last_updated_leaves_the_creation_alone() {
    let created = at(1431648000, 0);
    let edited = at(1431648060, 0);
    let mut information = CreationInformation {
        uuid: 7,
        creator_user_uuid: ALICE,
        creation_time: created,
        last_updated_by_user_uuid: ALICE,
        last_updated_time: created,
    };
    information.set_last_updated(9, edited);
    assert_eq!(
        information,
        CreationInformation {
            uuid: 7,
            creator_user_uuid: ALICE,
            creation_time: created,
            last_updated_by_user_uuid: 9,
            last_updated_time: edited,
        }
    );
    assert!(information.creation_time.at_or_before(&information.last_updated_time));
    let input = UpdateCreationInformationInput {
        last_updated_by_user_uuid: String::from("00000000-0000-0000-0000-00000000000a"),
    };
    let again = input.create_updated_creation_information(information, at(1431648120, 0)).unwrap();
    assert_eq!(again.last_updated_by_user_uuid, 10);
    assert_eq!(again.creation_time, created);
    assert_eq!(again.creator_user_uuid, ALICE);
    let refused = UpdateCreationInformationInput { last_updated_by_user_uuid: String::from("?") };
    assert!(refused.create_updated_creation_information(information, edited).is_err());
}

#[test]
fn creation_information_row_is_read_back() {
    let information = CreationInformation {
        uuid: 7,
        creator_user_uuid: ALICE,
        creation_time: at(1431648000, 0),
        last_updated_by_user_uuid: 9,
        last_updated_time: at(1431648060, 250_000_000),
    };
    let row = CreationInformationRow::from_creation_information(information);
    assert_eq!(
        row,
        CreationInformationRow {
            uuid: String::from("00000000-0000-0000-0000-000000000007"),
            creator_user_uuid: String::from(ALICE_TEXT),
            creation_time: String::from("2015-05-15T00:00:00+00:00"),
            last_updated_by_user_uuid: String::from("00000000-0000-0000-0000-000000000009"),
            last_updated_time: String::from("2015-05-15T00:01:00.250+00:00"),
        }
    );
    assert_eq!(CreationInformation::from_creation_information_row(row), Ok(information));
}

#[test]
fn creation_information_row_is_refused_at_its_first_bad_column() {
    let good = CreationInformationRow {
        uuid: String::from("00000000-0000-0000-0000-000000000007"),
        creator_user_uuid: String::from(ALICE_TEXT),
        creation_time: String::from("2015-05-15T00:00:00+00:00"),
        last_updated_by_user_uuid: String::from(ALICE_TEXT),
        last_updated_time: String::from("2015-05-15T00:00:00+00:00"),
    };
    let mut bad_time = good.clone();
    bad_time.creation_time = String::from("2015-05-15");
    bad_time.last_updated_by_user_uuid = String::from("nobody");
    assert_eq!(
        CreationInformation::from_creation_information_row(bad_time),
        Err(String::from("premature end of input"))
    );
    let mut bad_editor = good.clone();
    bad_editor.last_updated_by_user_uuid = String::from("nobody");
    bad_editor.last_updated_time = String::from("never");
    let message = CreationInformation::from_creation_information_row(bad_editor).err().unwrap();
    assert!(message.starts_with("invalid length"), "{}", message);
}

#[test]
fn task_priority_numbers() {
    assert_eq!(TaskPriority::from_i32(0), Some(TaskPriority::LOW));
    assert_eq!(TaskPriority::from_i32(1), Some(TaskPriority::NORMAL));
    assert_eq!(TaskPriority::from_i32(2), Some(TaskPriority::HIGH));
    assert_eq!(TaskPriority::from_i32(3), None);
    assert_eq!(TaskPriority::from_i32(-1), None);
    assert_eq!(TaskPriority::LOW.to_i32(), 0);
    assert_eq!(TaskPriority::NORMAL.to_i32(), 1);
    assert_eq!(TaskPriority::HIGH.to_i32(), 2);
    assert_eq!(TaskPriority::default_priority(), TaskPriority::NORMAL);
}

#[test]
fn task_is_made_from_its_input() {
    let input = CreateTaskInput {
        content: String::from("Buy milk"),
        priority: None,
        tags: Some(String::from("[\"dairy\", \"a \\\"quoted\\\" tag\"]")),
        parent_list_uuid: String::from("00000000-0000-0000-0000-000000000005"),
        is_complete: None,
    };
    let task = input.create_task(&7, 8).unwrap();
    assert_eq!(
        task,
        Task {
            uuid: 8,
            content: String::from("Buy milk"),
            priority: TaskPriority::NORMAL,
            tags: Some(vec![String::from("dairy"), String::from("a \"quoted\" tag")]),
            is_complete: false,
            parent_list_uuid: 5,
            creation_information_uuid: 7,
        }
    );
    let unknown_priority = CreateTaskInput { priority: Some(17), ..input.clone() };
    assert_eq!(unknown_priority.create_task(&7, 8).unwrap().priority, TaskPriority::NORMAL);
    let high = CreateTaskInput { priority: Some(2), is_complete: Some(true), ..input.clone() };
    let made = high.create_task(&7, 8).unwrap();
    assert_eq!(made.priority, TaskPriority::HIGH);
    assert!(made.is_complete);
    let bad_tags = CreateTaskInput { tags: Some(String::from("dairy")), ..input.clone() };
    assert!(bad_tags.create_task(&7, 8).is_err());
    let bad_list = CreateTaskInput { parent_list_uuid: String::from("5"), ..input };
    assert!(bad_list.create_task(&7, 8).is_err());
}

#[test]
fn task_row_is_read_back() {
    let task = Task {
        uuid: 8,
        content: String::from("Buy milk"),
        priority: TaskPriority::HIGH,
        tags: Some(vec![String::from("dairy"), String::from("a \"quoted\" tag")]),
        is_complete: true,
        parent_list_uuid: 5,
        creation_information_uuid: 7,
    };
    let row = TaskRow::from_task(task.clone()).unwrap();
    assert_eq!(
        row,
        TaskRow {
            uuid: String::from("00000000-0000-0000-0000-000000000008"),
            content: String::from("Buy milk"),
            priority: 2,
            tags: Some(String::from("[\"dairy\",\"a \\\"quoted\\\" tag\"]")),
            is_complete: true,
            parent_list_uuid: String::from("00000000-0000-0000-0000-000000000005"),
            creation_information_uuid: String::from("00000000-0000-0000-0000-000000000007"),
        }
    );
    assert_eq!(Task::from_task_row(row.clone()), Ok(task));
    let odd_priority = TaskRow { priority: 40, tags: None, ..row };
    let read = Task::from_task_row(odd_priority).unwrap();
    assert_eq!(read.priority, TaskPriority::NORMAL);
    assert_eq!(read.tags, None);
}

#[test]
fn list_is_made_from_its_input() {
    let input = CreateListInput {
        description: Some(String::from("weekly")),
        color_hex: Some(String::from("#0f0")),
        task_uuids: Some(String::from("[\"00000000-0000-0000-0000-000000000003\"]")),
        parent_list_uuid: Some(String::from("00000000-0000-0000-0000-000000000004")),
        sub_list_uuids: Some(String::from("[]")),
        shared_with_user_uuids: Some(String::from("[\"936da01f-9abd-4d9d-80c7-02af85c822a8\"]")),
        ..empty_list_input()
    };
    let list = List::from_create_list_input(input.clone(), 7, 6).unwrap();
    assert_eq!(
        list,
        List {
            uuid: 6,
            title: String::from("Groceries"),
            description: Some(String::from("weekly")),
            color_hex: Some(String::from("#0f0")),
            task_uuids: Some(vec![3]),
            parent_list_uuid: Some(4),
            sub_list_uuids: Some(vec![]),
            shared_with_user_uuids: Some(vec![ALICE]),
            creation_information_uuid: 7,
        }
    );
    let bad_color = CreateListInput { color_hex: Some(String::from("green")), ..input.clone() };
    assert_eq!(
        List::from_create_list_input(bad_color, 7, 6),
        Err(String::from("Invalid color hex 'green'"))
    );
    let bad_users =
        CreateListInput { shared_with_user_uuids: Some(String::from("[\"bob\"]")), ..input };
    assert_eq!(
        List::from_create_list_input(bad_users, 7, 6),
        Err(String::from("Invalid uuid 'bob'"))
    );
}

#[test]
fn list_row_is_read_back() {
    let list = List {
        uuid: 6,
        title: String::from("Groceries"),
        description: None,
        color_hex: Some(String::from("#00FF00")),
        task_uuids: Some(vec![3, 2]),
        parent_list_uuid: Some(4),
        sub_list_uuids: None,
        shared_with_user_uuids: Some(vec![ALICE]),
        creation_information_uuid: 7,
    };
    let row = ListRow::from_list(list.clone()).unwrap();
    assert_eq!(
        row,
        ListRow {
            uuid: String::from("00000000-0000-0000-0000-000000000006"),
            title: String::from("Groceries"),
            description: None,
            color_hex: Some(String::from("#00FF00")),
            task_uuids: Some(String::from(
                "[\"00000000-0000-0000-0000-000000000003\",\"00000000-0000-0000-0000-000000000002\"]"
            )),
            parent_list_uuid: Some(String::from("00000000-0000-0000-0000-000000000004")),
            sub_list_uuids: None,
            shared_with_user_uuids: Some(String::from("[\"936da01f-9abd-4d9d-80c7-02af85c822a8\"]")),
            creation_information_uuid: String::from("00000000-0000-0000-0000-000000000007"),
        }
    );
    assert_eq!(List::from_list_row(row.clone()), Ok(list.clone()));
    assert_eq!(
        NewListRow::from_list(list),
        NewListRow {
            uuid: String::from("00000000-0000-0000-0000-000000000006"),
            title: String::from("Groceries"),
            description: None,
            color_hex: Some(String::from("#00FF00")),
            creation_information_uuid: String::from("00000000-0000-0000-0000-000000000007"),
        }
    );
    let bad_parent = ListRow { parent_list_uuid: Some(String::from("root")), ..row.clone() };
    assert!(List::from_list_row(bad_parent).is_err());
    let bad_color = ListRow { color_hex: Some(String::from("#00FF0")), ..row };
    assert_eq!(List::from_list_row(bad_color), Err(String::from("Invalid color hex '#00FF0'")));
}

#[test]
fn set_color_hex_refuses_what_is_no_colour() {
    let mut list = List::from_create_list_input(empty_list_input(), 7, 6).unwrap();
    assert_eq!(list.set_color_hex(String::from("#ABCDEF")), Ok(()));
    assert_eq!(list.color_hex, Some(String::from("#ABCDEF")));
    assert_eq!(
        list.set_color_hex(String::from("ABCDEF")),
        Err(String::from("Invalid color hex 'ABCDEF'"))
    );
    assert_eq!(list.color_hex, Some(String::from("#ABCDEF")));
}

#[test]
fn revise_keeps_what_the_input_lacks() {
    let list = List {
        uuid: 6,
        title: String::from("Groceries"),
        description: Some(String::from("weekly")),
        color_hex: Some(String::from("#fff")),
        task_uuids: Some(vec![3]),
        parent_list_uuid: None,
        sub_list_uuids: None,
        shared_with_user_uuids: None,
        creation_information_uuid: 7,
    };
    let nothing = UpdateListInput {
        uuid: String::from("00000000-0000-0000-0000-000000000006"),
        title: None,
        description: None,
        color_hex: None,
    };
    assert_eq!(list.clone().revise(nothing.clone()), Ok(list.clone()));
    let all = UpdateListInput {
        title: Some(String::from("Food")),
        description: Some(String::new()),
        color_hex: Some(String::from("#000")),
        ..nothing.clone()
    };
    let revised = list.clone().revise(all).unwrap();
    assert_eq!(revised.title, "Food");
    assert_eq!(revised.description, Some(String::new()));
    assert_eq!(revised.color_hex, Some(String::from("#000")));
    assert_eq!(revised.task_uuids, Some(vec![3]));
    let bad = UpdateListInput { color_hex: Some(String::from("black")), ..nothing };
    assert_eq!(list.revise(bad), Err(String::from("Invalid color hex 'black'")));
}

#[test]
fn push_task_puts_the_task_last() {
    let mut list = List::from_create_list_input(empty_list_input(), 7, 6).unwrap();
    assert_eq!(list.task_uuids, None);
    list.push_task(3);
    assert_eq!(list.task_uuids, Some(vec![3]));
    list.push_task(2);
    assert_eq!(list.task_uuids, Some(vec![3, 2]));
}

#[test]
fn uuid_strings_are_read_in_their_order() {
    let strings = vec![
        String::from("00000000-0000-0000-0000-000000000002"),
        String::from("936DA01F9ABD4D9D80C702AF85C822A8"),
    ];
    assert_eq!(parse_uuid_strings(&strings), Ok(vec![2, ALICE]));
    assert_eq!(parse_uuid_strings(&Vec::new()), Ok(vec![]));
    let bad = vec![
        String::from("00000000-0000-0000-0000-000000000002"),
        String::from("x"),
        String::from("y"),
    ];
    assert_eq!(parse_uuid_strings(&bad), Err(String::from("Invalid uuid 'x'")));
}

#[test]
fn an_edit_behind_the_creation_keeps_the_record_consistent() {
    let created = at(1431648000, 5);
    let mut information = CreationInformation {
        uuid: 7,
        creator_user_uuid: ALICE,
        creation_time: created,
        last_updated_by_user_uuid: ALICE,
        last_updated_time: created,
    };
    information.set_last_updated(9, at(1431647999, 999_999_999));
    assert_eq!(information.last_updated_by_user_uuid, 9);
    assert_eq!(information.last_updated_time, created);
    assert_eq!(information.creation_time, created);
    information.set_last_updated(10, at(1431648000, 4));
    assert_eq!(information.last_updated_time, created);
    information.set_last_updated(11, at(1431648000, 6));
    assert_eq!(information.last_updated_time, at(1431648000, 6));
    assert_eq!(at(1, 0).later_of(&at(0, 5)), at(1, 0));
    assert_eq!(at(1, 0).later_of(&at(1, 0)), at(1, 0));
    assert_eq!(at(1, 0).later_of(&at(1, 1)), at(1, 1));
}
