use tasklist::errors::{Cause, EntityKind, ServiceError};
use tasklist::models::database::{CreationInformationRow, ListRow, TaskRow, UserRow};
use tasklist::models::graphql::{
    AddTaskInput, CreateCreationInformationInput, CreateListInput, CreateTaskInput,
    CreateUserInput, UpdateCreationInformationInput, UpdateListInput,
};
use tasklist::models::utilities::parse_json_uuid_array;
use tasklist::models::utilities::parse_uuid;
use tasklist::models::CreationInformation;
use tasklist::services::creation_information_service::{
    CreateCreationInformation, UpdateCreationInformation,
};
use tasklist::services::list_service::{AddNewTask, AddTask, CreateList, UpdateList};
use tasklist::services::operation::{run_in_memory, Operation, Outcome};
use tasklist::services::protocol::Turn;
use tasklist::services::task_service::CreateTask;
use tasklist::services::user_service::CreateUser;
use tasklist::services::utilities::{graphql_error_translate, graphql_translate};
use tasklist::services::{CreationInformationService, ListService, TaskService, UserService};
use tasklist::store::{MemoryStore, Row, StoreReply, StoreRequest};
use tasklist::timestamps::Timestamp;

const ALICE: u128 = 0x936DA01F_9ABD_4D9D_80C7_02AF85C822A8;
const ALICE_TEXT: &str = "936da01f-9abd-4d9d-80c7-02af85c822a8";
const NOBODY_TEXT: &str = "00000000-0000-0000-0000-0000000000ff";

fn at(seconds: i64) -> Timestamp {
    Timestamp::new(seconds, 0).unwrap()
}

fn text_of(value: u128) -> String {
    format!(
        "{:08x}-{:04x}-{:04x}-{:04x}-{:012x}",
        value >> 96,
        (value >> 80) & 0xffff,
        (value >> 64) & 0xffff,
        (value >> 48) & 0xffff,
        value & 0xffff_ffff_ffff
    )
}

fn alice_input() -> CreateUserInput {
    CreateUserInput {
        username: String::from("alice"),
        password: String::from("secret"),
        nickname: String::from("Al"),
    }
}

fn by(creator: &str) -> CreateCreationInformationInput {
    CreateCreationInformationInput { creator_user_uuid: String::from(creator) }
}

fn groceries() -> CreateListInput {
    CreateListInput {
        title: String::from("Groceries"),
        description: None,
        color_hex: None,
        task_uuids: None,
        parent_list_uuid: None,
        sub_list_uuids: None,
        shared_with_user_uuids: None,
    }
}

fn buy_milk(list: &str) -> CreateTaskInput {
    CreateTaskInput {
        content: String::from("Buy milk"),
        priority: None,
        tags: None,
        parent_list_uuid: String::from(list),
        is_complete: None,
    }
}

fn store_with_alice() -> MemoryStore {
    let mut store = MemoryStore::new();
    let turn = Operation::create_user(CreateUser::begin(alice_input(), ALICE, "salt"));
    run_in_memory(turn, &mut store).unwrap();
    store
}

fn user(outcome: Outcome) -> UserRow {
    match outcome {
        Outcome::User(row) => row,
        other => panic!("no user: {:?}", other),
    }
}

fn list(outcome: Outcome) -> ListRow {
    match outcome {
        Outcome::List(row) => row,
        other => panic!("no list: {:?}", other),
    }
}

fn task(outcome: Outcome) -> TaskRow {
    match outcome {
        Outcome::Task(row) => row,
        other => panic!("no task: {:?}", other),
    }
}

fn audit(outcome: Outcome) -> CreationInformationRow {
    match outcome {
        Outcome::CreationInformation(row) => row,
        other => panic!("no audit record: {:?}", other),
    }
}

fn found_list(store: &mut MemoryStore, uuid: &String) -> Option<ListRow> {
    match run_in_memory(ListService::get_list_by_uuid(uuid), store).unwrap() {
        Outcome::Found(Some(Row::List(row))) => Some(row),
        Outcome::Found(None) => None,
        other => panic!("no answer: {:?}", other),
    }
}

fn found_audit(store: &mut MemoryStore, uuid: &String) -> CreationInformationRow {
    let service = CreationInformationService::new();
    match run_in_memory(service.get_creation_information_by_uuid(uuid), store).unwrap() {
        Outcome::Found(Some(Row::CreationInformation(row))) => row,
        other => panic!("no audit record: {:?}", other),
    }
}

#[test]
fn created_user_is_read_after_write() {
    let mut store = MemoryStore::new();
    let service = UserService::new(String::from("salt"));
    let created = user(run_in_memory(service.create_user(alice_input()), &mut store).unwrap());
    assert_eq!(created.username, "alice");
    assert_eq!(created.nickname, "Al");
    assert_ne!(created.password_hash, "secret");
    assert_eq!(created.password_hash.len(), 64);
    let found = run_in_memory(service.get_user_by_uuid(&created.uuid), &mut store).unwrap();
    assert_eq!(found, Outcome::Found(Some(Row::User(created.clone()))));
    let exists = run_in_memory(service.user_exists(&created.uuid), &mut store).unwrap();
    assert_eq!(exists, Outcome::Exists(true));
    let all = run_in_memory(service.all_users(), &mut store).unwrap();
    assert_eq!(all, Outcome::Rows(vec![Row::User(created)]));
}

#[test]
fn fresh_identifiers_are_random_and_of_version_four() {
    let mut store = MemoryStore::new();
    let service = UserService::new(String::new());
    let first = user(run_in_memory(service.create_user(alice_input()), &mut store).unwrap());
    let second = user(run_in_memory(service.create_user(alice_input()), &mut store).unwrap());
    assert_ne!(first.uuid, second.uuid);
    for row in [first, second] {
        assert_eq!(row.uuid.len(), 36);
        let value = parse_uuid(&row.uuid).unwrap();
        assert_eq!((value >> 76) & 0xf, 4);
        assert_eq!((value >> 62) & 0x3, 2);
        assert_eq!(text_of(value), row.uuid);
    }
}

#[test]
fn a_user_that_is_not_there_is_no_failure() {
    let mut store = store_with_alice();
    let service = UserService::new(String::new());
    let nobody = String::from(NOBODY_TEXT);
    assert_eq!(
        run_in_memory(service.get_user_by_uuid(&nobody), &mut store),
        Ok(Outcome::Found(None))
    );
    assert_eq!(run_in_memory(service.user_exists(&nobody), &mut store), Ok(Outcome::Exists(false)));
    assert_eq!(
        run_in_memory(TaskService::task_exists(&String::from(ALICE_TEXT)), &mut store),
        Ok(Outcome::Exists(false))
    );
    assert_eq!(run_in_memory(TaskService::all_tasks(), &mut store), Ok(Outcome::Rows(vec![])));
}

#[test]
fn creating_the_same_user_twice_is_refused_by_the_store() {
    let mut store = store_with_alice();
    let again = Operation::create_user(CreateUser::begin(alice_input(), ALICE, "salt"));
    assert_eq!(
        run_in_memory(again, &mut store),
        Err(ServiceError {
            message: String::from("User not created"),
            cause: Cause::Persistence {
                details: String::from("UNIQUE constraint failed: users.uuid")
            },
        })
    );
    assert_eq!(store.len(), 1);
}

#[test]
fn creation_information_needs_its_creator() {
    let mut store = store_with_alice();
    let unknown = Operation::create_creation_information(CreateCreationInformation::begin(
        by(NOBODY_TEXT),
        7,
        at(1_700_000_000),
    ));
    let err = run_in_memory(unknown, &mut store).err().unwrap();
    assert_eq!(err.message, "Creation information not created");
    assert_eq!(
        err.cause,
        Cause::ReferenceNotFound { entity: EntityKind::User, uuid: String::from(NOBODY_TEXT) }
    );
    assert_eq!(
        err.details(),
        "The user '00000000-0000-0000-0000-0000000000ff' does not exist"
    );
    assert_eq!(store.len(), 1);

    let malformed = Operation::create_creation_information(CreateCreationInformation::begin(
        by("alice"),
        7,
        at(1_700_000_000),
    ));
    let err = run_in_memory(malformed, &mut store).err().unwrap();
    assert_eq!(err.message, "Creation information not created");
    assert!(matches!(err.cause, Cause::Validation { .. }));
    assert_eq!(store.len(), 1);

    let known = Operation::create_creation_information(CreateCreationInformation::begin(
        by("936DA01F9ABD4D9D80C702AF85C822A8"),
        7,
        at(1_700_000_000),
    ));
    let row = audit(run_in_memory(known, &mut store).unwrap());
    assert_eq!(
        row,
        CreationInformationRow {
            uuid: String::from("00000000-0000-0000-0000-000000000007"),
            creator_user_uuid: String::from(ALICE_TEXT),
            creation_time: String::from("2023-11-14T22:13:20+00:00"),
            last_updated_by_user_uuid: String::from(ALICE_TEXT),
            last_updated_time: String::from("2023-11-14T22:13:20+00:00"),
        }
    );
    assert_eq!(found_audit(&mut store, &row.uuid), row);
}

#[test]
fn update_of_unknown_creation_information_is_not_found() {
    let mut store = store_with_alice();
    let service = CreationInformationService::new();
    let uuid = String::from(NOBODY_TEXT);
    let input = UpdateCreationInformationInput { last_updated_by_user_uuid: String::from(ALICE_TEXT) };
    let err = run_in_memory(service.update_creation_information(&uuid, input), &mut store)
        .err()
        .unwrap();
    assert_eq!(
        err,
        ServiceError {
            message: String::from("Creation information not updated"),
            cause: Cause::NotFound {
                entity: EntityKind::CreationInformation,
                uuid: String::from(NOBODY_TEXT)
            },
        }
    );
    assert_eq!(
        err.details(),
        "Creation information '00000000-0000-0000-0000-0000000000ff' not found"
    );
    assert_eq!(store.len(), 1);
    assert_eq!(
        run_in_memory(service.creation_information_exists(&uuid), &mut store),
        Ok(Outcome::Exists(false))
    );
    assert_eq!(
        run_in_memory(service.all_creation_information(), &mut store),
        Ok(Outcome::Rows(vec![]))
    );
}

#[test]
fn update_of_creation_information_writes_editor_and_time_only() {
    let mut store = store_with_alice();
    let bob = Operation::create_user(CreateUser::begin(alice_input(), 0xb0b, ""));
    run_in_memory(bob, &mut store).unwrap();
    let created = Operation::create_creation_information(CreateCreationInformation::begin(
        by(ALICE_TEXT),
        7,
        at(1_700_000_000),
    ));
    let before = audit(run_in_memory(created, &mut store).unwrap());

    let edit = Operation::update_creation_information(UpdateCreationInformation::begin(
        &before.uuid,
        UpdateCreationInformationInput { last_updated_by_user_uuid: text_of(0xb0b) },
        at(1_700_000_060),
    ));
    let after = audit(run_in_memory(edit, &mut store).unwrap());
    assert_eq!(
        after,
        CreationInformationRow {
            last_updated_by_user_uuid: text_of(0xb0b),
            last_updated_time: String::from("2023-11-14T22:14:20+00:00"),
            ..before.clone()
        }
    );
    assert_eq!(found_audit(&mut store, &before.uuid), after);

    let by_nobody = Operation::update_creation_information(UpdateCreationInformation::begin(
        &before.uuid,
        UpdateCreationInformationInput { last_updated_by_user_uuid: String::from(NOBODY_TEXT) },
        at(1_700_000_120),
    ));
    let err = run_in_memory(by_nobody, &mut store).err().unwrap();
    assert_eq!(err.message, "Creation information not updated");
    assert_eq!(
        err.cause,
        Cause::ReferenceNotFound { entity: EntityKind::User, uuid: String::from(NOBODY_TEXT) }
    );
    let malformed = Operation::update_creation_information(UpdateCreationInformation::begin(
        &before.uuid,
        UpdateCreationInformationInput { last_updated_by_user_uuid: String::from("bob") },
        at(1_700_000_120),
    ));
    let err = run_in_memory(malformed, &mut store).err().unwrap();
    assert!(matches!(err.cause, Cause::Validation { .. }));
    assert_eq!(found_audit(&mut store, &before.uuid), after);
}

#[test]
fn list_shared_with_an_unknown_user_is_refused() {
    let mut store = store_with_alice();
    let input = CreateListInput {
        shared_with_user_uuids: Some(format!("[\"{}\", \"{}\"]", ALICE_TEXT, NOBODY_TEXT)),
        ..groceries()
    };
    let turn =
        Operation::create_list(CreateList::begin(&String::from(ALICE_TEXT), input, 7, 6, at(5)));
    let err = run_in_memory(turn, &mut store).err().unwrap();
    assert_eq!(
        err,
        ServiceError {
            message: String::from("List not created"),
            cause: Cause::ReferenceNotFound {
                entity: EntityKind::User,
                uuid: String::from(NOBODY_TEXT)
            },
        }
    );
    assert_eq!(store.len(), 1);
}

#[test]
fn list_references_are_checked_in_their_order() {
    let mut store = store_with_alice();
    let input = CreateListInput {
        task_uuids: Some(String::from("[\"00000000-0000-0000-0000-000000000003\"]")),
        parent_list_uuid: Some(String::from("00000000-0000-0000-0000-000000000004")),
        sub_list_uuids: Some(String::from("[\"00000000-0000-0000-0000-000000000005\"]")),
        ..groceries()
    };
    let creator = String::from(ALICE_TEXT);
    let turn = Operation::create_list(CreateList::begin(&creator, input.clone(), 7, 6, at(5)));
    let err = run_in_memory(turn, &mut store).err().unwrap();
    assert_eq!(
        err.cause,
        Cause::ReferenceNotFound { entity: EntityKind::List, uuid: text_of(4) }
    );

    let parent = Operation::create_list(CreateList::begin(&creator, groceries(), 14, 4, at(5)));
    run_in_memory(parent, &mut store).unwrap();
    let turn = Operation::create_list(CreateList::begin(&creator, input.clone(), 7, 6, at(5)));
    let err = run_in_memory(turn, &mut store).err().unwrap();
    assert_eq!(
        err.cause,
        Cause::ReferenceNotFound { entity: EntityKind::Task, uuid: text_of(3) }
    );

    let by_nobody =
        Operation::create_list(CreateList::begin(&String::from(NOBODY_TEXT), input, 7, 6, at(5)));
    let err = run_in_memory(by_nobody, &mut store).err().unwrap();
    assert_eq!(
        err.cause,
        Cause::ReferenceNotFound { entity: EntityKind::User, uuid: String::from(NOBODY_TEXT) }
    );
    assert_eq!(store.len(), 3);
}

#[test]
fn list_with_malformed_input_is_refused_before_the_store_is_asked() {
    let creator = String::from(ALICE_TEXT);
    let bad_color = CreateListInput { color_hex: Some(String::from("red")), ..groceries() };
    match CreateList::begin(&creator, bad_color, 7, 6, at(5)) {
        Turn::Done { result: Err(err) } => {
            assert_eq!(err.message, "List not created");
            assert_eq!(
                err.cause,
                Cause::Validation { details: String::from("Invalid color hex 'red'") }
            );
        }
        other => panic!("asked the store: {:?}", other),
    }
    let bad_json = CreateListInput { task_uuids: Some(String::from("[")), ..groceries() };
    assert!(matches!(
        CreateList::begin(&creator, bad_json, 7, 6, at(5)),
        Turn::Done { result: Err(ServiceError { cause: Cause::Validation { .. }, .. }) }
    ));
    assert!(matches!(
        CreateList::begin(&String::from("alice"), groceries(), 7, 6, at(5)),
        Turn::Done { result: Err(ServiceError { cause: Cause::Validation { .. }, .. }) }
    ));
}

#[test]
fn list_whose_references_resolve_is_created_with_a_fresh_audit_record() {
    let mut store = store_with_alice();
    let input = CreateListInput {
        description: Some(String::from("weekly")),
        color_hex: Some(String::from("#0F0")),
        shared_with_user_uuids: Some(format!("[\"{}\"]", ALICE_TEXT)),
        ..groceries()
    };
    let created = list(
        run_in_memory(ListService::create_list(by(ALICE_TEXT), input), &mut store).unwrap(),
    );
    assert_eq!(created.title, "Groceries");
    assert_eq!(created.description, Some(String::from("weekly")));
    assert_eq!(created.color_hex, Some(String::from("#0F0")));
    assert_eq!(created.task_uuids, None);
    assert_eq!(created.shared_with_user_uuids, Some(format!("[\"{}\"]", ALICE_TEXT)));
    assert_eq!(store.len(), 3);

    let record = found_audit(&mut store, &created.creation_information_uuid);
    assert_eq!(record.creator_user_uuid, ALICE_TEXT);
    assert_eq!(record.last_updated_by_user_uuid, ALICE_TEXT);
    assert_eq!(record.creation_time, record.last_updated_time);
    assert_eq!(found_list(&mut store, &created.uuid), Some(created.clone()));
    assert_eq!(
        run_in_memory(ListService::list_exists(&created.uuid), &mut store),
        Ok(Outcome::Exists(true))
    );
    assert_eq!(
        run_in_memory(ListService::all_lists(), &mut store),
        Ok(Outcome::Rows(vec![Row::List(created)]))
    );
}

#[test]
fn get_list_by_uuid_twice_gives_the_same_row() {
    let mut store = store_with_alice();
    let creator = String::from(ALICE_TEXT);
    let turn = Operation::create_list(CreateList::begin(&creator, groceries(), 7, 6, at(5)));
    let created = list(run_in_memory(turn, &mut store).unwrap());
    let first = run_in_memory(ListService::get_list_by_uuid(&created.uuid), &mut store);
    let second = run_in_memory(ListService::get_list_by_uuid(&created.uuid), &mut store);
    assert_eq!(first, second);
    assert_eq!(first, Ok(Outcome::Found(Some(Row::List(created)))));
    assert_eq!(format!("{:?}", first), format!("{:?}", second));
}

#[test]
fn task_needs_its_list_and_its_creator() {
    let mut store = store_with_alice();
    let creator = String::from(ALICE_TEXT);
    let orphan = Operation::create_task(CreateTask::begin(
        &creator,
        &buy_milk("00000000-0000-0000-0000-000000000006"),
        17,
        8,
        at(5),
    ));
    let err = run_in_memory(orphan, &mut store).err().unwrap();
    assert_eq!(err.message, "Task not created");
    assert_eq!(
        err.cause,
        Cause::ReferenceNotFound { entity: EntityKind::List, uuid: text_of(6) }
    );
    assert_eq!(store.len(), 1);

    let list_turn = Operation::create_list(CreateList::begin(&creator, groceries(), 7, 6, at(5)));
    run_in_memory(list_turn, &mut store).unwrap();
    let input = CreateTaskInput {
        priority: Some(2),
        tags: Some(String::from("[\"dairy\"]")),
        is_complete: Some(true),
        ..buy_milk("00000000-0000-0000-0000-000000000006")
    };
    let turn = Operation::create_task(CreateTask::begin(&creator, &input, 17, 8, at(6)));
    let created = task(run_in_memory(turn, &mut store).unwrap());
    assert_eq!(
        created,
        TaskRow {
            uuid: text_of(8),
            content: String::from("Buy milk"),
            priority: 2,
            tags: Some(String::from("[\"dairy\"]")),
            is_complete: true,
            parent_list_uuid: text_of(6),
            creation_information_uuid: text_of(17),
        }
    );
    assert_eq!(
        run_in_memory(TaskService::get_task_by_uuid(&created.uuid), &mut store),
        Ok(Outcome::Found(Some(Row::Task(created))))
    );
    assert_eq!(found_audit(&mut store, &text_of(17)).creator_user_uuid, ALICE_TEXT);

    let live = task(
        run_in_memory(
            TaskService::create_task(by(ALICE_TEXT), buy_milk("00000000-0000-0000-0000-000000000006")),
            &mut store,
        )
        .unwrap(),
    );
    assert_eq!(live.priority, 1);
    assert!(!live.is_complete);
    let bad = TaskService::create_task(by(ALICE_TEXT), buy_milk("the groceries"));
    assert!(matches!(
        bad,
        Turn::Done { result: Err(ServiceError { cause: Cause::Validation { .. }, .. }) }
    ));
}

#[test]
fn update_list_replaces_what_is_given_and_records_the_edit() {
    let mut store = store_with_alice();
    let creator = String::from(ALICE_TEXT);
    let input = CreateListInput { description: Some(String::from("weekly")), ..groceries() };
    let turn = Operation::create_list(CreateList::begin(&creator, input, 7, 6, at(100)));
    let created = list(run_in_memory(turn, &mut store).unwrap());

    let revision = UpdateListInput {
        uuid: created.uuid.clone(),
        title: Some(String::from("Food")),
        description: None,
        color_hex: Some(String::from("#abcdef")),
    };
    let edit = Operation::update_list(UpdateList::begin(
        UpdateCreationInformationInput { last_updated_by_user_uuid: creator.clone() },
        revision.clone(),
        at(200),
    ));
    let updated = list(run_in_memory(edit, &mut store).unwrap());
    assert_eq!(
        updated,
        ListRow {
            title: String::from("Food"),
            description: Some(String::from("weekly")),
            color_hex: Some(String::from("#abcdef")),
            ..created.clone()
        }
    );
    assert_eq!(found_list(&mut store, &created.uuid), Some(updated.clone()));
    let record = found_audit(&mut store, &created.creation_information_uuid);
    assert_eq!(record.creation_time, "1970-01-01T00:01:40+00:00");
    assert_eq!(record.last_updated_time, "1970-01-01T00:03:20+00:00");
    assert_eq!(record.last_updated_by_user_uuid, ALICE_TEXT);

    let bad_color = UpdateListInput { color_hex: Some(String::from("blue")), ..revision.clone() };
    let err = run_in_memory(
        Operation::update_list(UpdateList::begin(
            UpdateCreationInformationInput { last_updated_by_user_uuid: creator.clone() },
            bad_color,
            at(300),
        )),
        &mut store,
    )
    .err()
    .unwrap();
    assert_eq!(err.message, "List not updated");
    assert_eq!(err.cause, Cause::Validation { details: String::from("Invalid color hex 'blue'") });
    assert_eq!(found_list(&mut store, &created.uuid), Some(updated));

    let unknown = UpdateListInput { uuid: String::from(NOBODY_TEXT), ..revision };
    let err = run_in_memory(
        ListService::update_list(
            UpdateCreationInformationInput { last_updated_by_user_uuid: creator },
            unknown,
        ),
        &mut store,
    )
    .err()
    .unwrap();
    assert_eq!(
        err,
        ServiceError {
            message: String::from("List not updated"),
            cause: Cause::NotFound { entity: EntityKind::List, uuid: String::from(NOBODY_TEXT) },
        }
    );
}

#[test]
fn end_to_end_a_new_task_is_put_on_the_list() {
    let mut store = MemoryStore::new();
    let users = UserService::new(String::from("pepper"));
    let alice = user(run_in_memory(users.create_user(alice_input()), &mut store).unwrap());
    assert_eq!(alice.username, "alice");

    let created = Operation::create_list(CreateList::begin(
        &alice.uuid,
        groceries(),
        0x11,
        0x22,
        at(1_700_000_000),
    ));
    let groceries_row = list(run_in_memory(created, &mut store).unwrap());
    assert_eq!(groceries_row.title, "Groceries");

    let added = Operation::add_new_task(AddNewTask::begin(
        alice.uuid.clone(),
        buy_milk(&groceries_row.uuid),
        0x33,
        0x44,
        at(1_700_000_030),
    ));
    let milk = task(run_in_memory(added, &mut store).unwrap());
    assert_eq!(milk.content, "Buy milk");
    assert!(!milk.is_complete);
    assert_eq!(milk.priority, 1);
    assert_eq!(milk.parent_list_uuid, groceries_row.uuid);
    assert_eq!(milk.uuid, text_of(0x44));

    let refetched = found_list(&mut store, &groceries_row.uuid).unwrap();
    let tasks = parse_json_uuid_array(&refetched.task_uuids.clone().unwrap()).unwrap();
    assert_eq!(tasks, vec![0x44]);
    assert_eq!(refetched, ListRow { task_uuids: refetched.task_uuids.clone(), ..groceries_row });

    let record = CreationInformation::from_creation_information_row(found_audit(
        &mut store,
        &refetched.creation_information_uuid,
    ))
    .unwrap();
    assert_eq!(record.last_updated_by_user_uuid, parse_uuid(&alice.uuid).unwrap());
    assert_eq!(record.creator_user_uuid, parse_uuid(&alice.uuid).unwrap());
    assert_eq!(record.creation_time, at(1_700_000_000));
    assert_eq!(record.last_updated_time, at(1_700_000_030));
    assert!(record.creation_time.at_or_before(&record.last_updated_time));
    assert!(!record.last_updated_time.at_or_before(&record.creation_time));

    let second = Operation::add_new_task(AddNewTask::begin(
        alice.uuid.clone(),
        buy_milk(&refetched.uuid),
        0x55,
        0x66,
        at(1_700_000_060),
    ));
    run_in_memory(second, &mut store).unwrap();
    let twice = found_list(&mut store, &refetched.uuid).unwrap();
    assert_eq!(parse_json_uuid_array(&twice.task_uuids.unwrap()), Ok(vec![0x44, 0x66]));
}

#[test]
fn end_to_end_with_the_clock_and_fresh_identifiers() {
    let mut store = MemoryStore::new();
    let users = UserService::new(String::from("pepper"));
    let alice = user(run_in_memory(users.create_user(alice_input()), &mut store).unwrap());
    let groceries_row = list(
        run_in_memory(ListService::create_list(by(&alice.uuid), groceries()), &mut store).unwrap(),
    );
    let milk = task(
        run_in_memory(
            ListService::add_new_task(by(&alice.uuid), buy_milk(&groceries_row.uuid)),
            &mut store,
        )
        .unwrap(),
    );
    assert_eq!(milk.content, "Buy milk");
    assert!(!milk.is_complete);
    assert_eq!(milk.priority, 1);
    let refetched = found_list(&mut store, &groceries_row.uuid).unwrap();
    let tasks = parse_json_uuid_array(&refetched.task_uuids.unwrap()).unwrap();
    assert_eq!(tasks, vec![parse_uuid(&milk.uuid).unwrap()]);
    let record = CreationInformation::from_creation_information_row(found_audit(
        &mut store,
        &refetched.creation_information_uuid,
    ))
    .unwrap();
    assert_eq!(record.last_updated_by_user_uuid, parse_uuid(&alice.uuid).unwrap());
    assert!(record.creation_time.at_or_before(&record.last_updated_time));
    assert_eq!(store.len(), 5);
}

#[test]
fn a_new_task_for_an_unknown_list_writes_nothing() {
    let mut store = store_with_alice();
    let turn = ListService::add_new_task(by(ALICE_TEXT), buy_milk(NOBODY_TEXT));
    let err = run_in_memory(turn, &mut store).err().unwrap();
    assert_eq!(
        err,
        ServiceError {
            message: String::from("Task not added"),
            cause: Cause::NotFound { entity: EntityKind::List, uuid: String::from(NOBODY_TEXT) },
        }
    );
    assert_eq!(store.len(), 1);
}

#[test]
fn a_new_task_by_an_unknown_user_is_not_created() {
    let mut store = store_with_alice();
    let creator = String::from(ALICE_TEXT);
    let turn = Operation::create_list(CreateList::begin(&creator, groceries(), 7, 6, at(5)));
    let created = list(run_in_memory(turn, &mut store).unwrap());
    let added = Operation::add_new_task(AddNewTask::begin(
        String::from(NOBODY_TEXT),
        buy_milk(&created.uuid),
        0x33,
        0x44,
        at(6),
    ));
    let err = run_in_memory(added, &mut store).err().unwrap();
    assert_eq!(err.message, "Task not created");
    assert_eq!(
        err.cause,
        Cause::ReferenceNotFound { entity: EntityKind::User, uuid: String::from(NOBODY_TEXT) }
    );
    assert_eq!(found_list(&mut store, &created.uuid), Some(created));
    assert_eq!(store.len(), 3);
}

#[test]
fn a_row_that_is_lost_after_the_insert_is_an_internal_error() {
    let begun = CreateUser::begin(alice_input(), ALICE, "salt");
    let state = match begun {
        Turn::Ask { state, request } => {
            assert!(matches!(request, StoreRequest::Insert { row: Row::User(_) }));
            state
        }
        other => panic!("did not ask: {:?}", other),
    };
    let state = match state.resume(StoreReply::Written) {
        Turn::Ask { state, request } => {
            assert_eq!(
                request,
                StoreRequest::Find { entity: EntityKind::User, uuid: String::from(ALICE_TEXT) }
            );
            state
        }
        other => panic!("did not ask: {:?}", other),
    };
    match state.resume(StoreReply::Found { row: None }) {
        Turn::Done { result: Err(err) } => {
            assert_eq!(err.message, "Internal error");
            assert_eq!(
                err.cause,
                Cause::Internal {
                    details: String::from(
                        "Couldn't find user '936da01f-9abd-4d9d-80c7-02af85c822a8' after insert"
                    )
                }
            );
        }
        other => panic!("went on: {:?}", other),
    }
}

#[test]
fn a_failure_of_the_store_carries_the_operation_s_message() {
    let begun = Operation::create_user(CreateUser::begin(alice_input(), ALICE, "salt"));
    let operation = match begun {
        Turn::Ask { state, .. } => state,
        other => panic!("did not ask: {:?}", other),
    };
    match operation.advance(StoreReply::Failed { details: String::from("disk full") }) {
        Turn::Done { result: Err(err) } => {
            assert_eq!(err.message, "User not created");
            assert_eq!(err.cause, Cause::Persistence { details: String::from("disk full") });
            assert_eq!(err.details(), "disk full");
        }
        other => panic!("went on: {:?}", other),
    }
    let asked = match ListService::all_lists() {
        Turn::Ask { state, .. } => state,
        other => panic!("did not ask: {:?}", other),
    };
    match asked.advance(StoreReply::Exists { exists: true }) {
        Turn::Done { result: Err(err) } => {
            assert_eq!(err.message, "Internal error");
            assert_eq!(
                err.cause,
                Cause::Internal { details: String::from("Unexpected reply from the store") }
            );
        }
        other => panic!("went on: {:?}", other),
    }
}

#[test]
fn translations_of_store_failures() {
    assert_eq!(
        graphql_translate(StoreReply::Failed { details: String::from("locked") }),
        Err(ServiceError {
            message: String::from("locked"),
            cause: Cause::Persistence { details: String::from("locked") },
        })
    );
    assert_eq!(graphql_translate(StoreReply::Written), Ok(StoreReply::Written));
    let err = graphql_error_translate(
        String::from("Task not added"),
        Cause::NotFound { entity: EntityKind::Task, uuid: String::from("x") },
    );
    assert_eq!(err.message, "Task not added");
    assert_eq!(err.details(), "Task 'x' not found");
}

#[test]
fn an_existing_task_is_put_on_another_list() {
    let mut store = store_with_alice();
    let creator = String::from(ALICE_TEXT);
    let first = Operation::create_list(CreateList::begin(&creator, groceries(), 7, 6, at(100)));
    let groceries_row = list(run_in_memory(first, &mut store).unwrap());
    let second = Operation::create_list(CreateList::begin(&creator, groceries(), 9, 8, at(100)));
    let other = list(run_in_memory(second, &mut store).unwrap());
    let made = Operation::create_task(CreateTask::begin(
        &creator,
        &buy_milk(&groceries_row.uuid),
        0x33,
        0x44,
        at(110),
    ));
    let milk = task(run_in_memory(made, &mut store).unwrap());

    let input = AddTaskInput {
        last_updated_by_user_uuid: creator.clone(),
        parent_list_uuid: other.uuid.clone(),
        task_uuid: milk.uuid.clone(),
    };
    let added = Operation::add_task(AddTask::begin(input.clone(), at(120)));
    let linked = list(run_in_memory(added, &mut store).unwrap());
    assert_eq!(
        linked,
        ListRow {
            task_uuids: Some(String::from("[\"00000000-0000-0000-0000-000000000044\"]")),
            ..other.clone()
        }
    );
    assert_eq!(found_list(&mut store, &other.uuid), Some(linked));
    assert_eq!(
        found_audit(&mut store, &other.creation_information_uuid).last_updated_time,
        "1970-01-01T00:02:00+00:00"
    );
    assert_eq!(found_list(&mut store, &groceries_row.uuid), Some(groceries_row));

    let unknown_task = AddTaskInput { task_uuid: String::from(NOBODY_TEXT), ..input.clone() };
    let err = run_in_memory(ListService::add_task(unknown_task), &mut store).err().unwrap();
    assert_eq!(
        err,
        ServiceError {
            message: String::from("Task not added"),
            cause: Cause::ReferenceNotFound {
                entity: EntityKind::Task,
                uuid: String::from(NOBODY_TEXT)
            },
        }
    );
    let malformed_task = AddTaskInput { task_uuid: String::from("milk"), ..input.clone() };
    let err = run_in_memory(ListService::add_task(malformed_task), &mut store).err().unwrap();
    assert!(matches!(err.cause, Cause::Validation { .. }));
    let unknown_list = AddTaskInput { parent_list_uuid: String::from(NOBODY_TEXT), ..input };
    let err = run_in_memory(ListService::add_task(unknown_list), &mut store).err().unwrap();
    assert_eq!(
        err.cause,
        Cause::NotFound { entity: EntityKind::List, uuid: String::from(NOBODY_TEXT) }
    );
}

#[test]
fn an_update_with_a_clock_behind_the_creation_keeps_the_creation_time() {
    let mut store = store_with_alice();
    let created = Operation::create_creation_information(CreateCreationInformation::begin(
        by(ALICE_TEXT),
        7,
        at(1_700_000_000),
    ));
    let before = audit(run_in_memory(created, &mut store).unwrap());
    let edit = Operation::update_creation_information(UpdateCreationInformation::begin(
        &before.uuid,
        UpdateCreationInformationInput { last_updated_by_user_uuid: String::from(ALICE_TEXT) },
        at(1_600_000_000),
    ));
    let after = audit(run_in_memory(edit, &mut store).unwrap());
    assert_eq!(after.last_updated_time, before.creation_time);
    assert_eq!(after.creation_time, before.creation_time);
    assert_eq!(found_audit(&mut store, &before.uuid), after);
}
