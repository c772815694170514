use tasklist::errors::{Cause, EntityKind};
use tasklist::models::graphql::{
    AddTaskInput, CreateCreationInformationInput, CreateListInput, CreateTaskInput,
    CreateUserInput, UpdateCreationInformationInput, UpdateListInput,
};
use tasklist::models::utilities::parse_json_uuid_array;
use tasklist::models::utilities::parse_uuid;
use tasklist::services::memory::{
    add_new_task, add_task, create_creation_information, create_list, create_task, create_user,
    update_creation_information, update_list,
};
use tasklist::services::{CreationInformationService, UserService};
use tasklist::store::MemoryStore;
use tasklist::timestamps::Timestamp;

const NOBODY_TEXT: &str = "00000000-0000-0000-0000-0000000000ff";

fn alice(store: &mut MemoryStore) -> String {
    let service = UserService::new(String::from("salt"));
    let input = CreateUserInput {
        username: String::from("alice"),
        password: String::from("secret"),
        nickname: String::from("Al"),
    };
    create_user(&service, store, input).unwrap().uuid
}

fn by(creator: &str) -> CreateCreationInformationInput {
    CreateCreationInformationInput { creator_user_uuid: String::from(creator) }
}

fn groceries() -> CreateListInput {
    CreateListInput {
        title: String::from("Groceries"),
        description: None,
        color_hex: Some(String::from("#0a0")),
        task_uuids: None,
        parent_list_uuid: None,
        sub_list_uuids: None,
        shared_with_user_uuids: None,
    }
}

fn buy_milk(list: &str) -> CreateTaskInput {
    CreateTaskInput {
        content: String::from("Buy milk"),
        priority: Some(0),
        tags: None,
        parent_list_uuid: String::from(list),
        is_complete: None,
    }
}

#[test]
fn user_in_memory() {
    let mut store = MemoryStore::new();
    let uuid = alice(&mut store);
    assert_eq!(uuid.len(), 36);
    assert_eq!(store.len(), 1);
}

#[test]
fn creation_information_in_memory() {
    let mut store = MemoryStore::new();
    let creator = alice(&mut store);
    let service = CreationInformationService::new();
    let before = Timestamp::now().unwrap();
    let row = create_creation_information(&service, &mut store, by(&creator)).unwrap();
    let after = Timestamp::now().unwrap();
    assert_eq!(row.creator_user_uuid, creator);
    assert_eq!(row.last_updated_by_user_uuid, creator);
    assert_eq!(row.creation_time, row.last_updated_time);
    let created = Timestamp::parse_from_rfc3339(&row.creation_time).unwrap();
    assert!(before.at_or_before(&created));
    assert!(created.at_or_before(&after));

    let err = create_creation_information(&service, &mut store, by(NOBODY_TEXT)).err().unwrap();
    assert_eq!(
        err.cause,
        Cause::ReferenceNotFound { entity: EntityKind::User, uuid: String::from(NOBODY_TEXT) }
    );
    assert_eq!(store.len(), 2);

    let edit = UpdateCreationInformationInput { last_updated_by_user_uuid: creator.clone() };
    let edited = update_creation_information(&service, &mut store, &row.uuid, edit.clone()).unwrap();
    assert_eq!(edited.uuid, row.uuid);
    assert_eq!(edited.creation_time, row.creation_time);
    assert_eq!(edited.creator_user_uuid, row.creator_user_uuid);
    let last = Timestamp::parse_from_rfc3339(&edited.last_updated_time).unwrap();
    assert!(created.at_or_before(&last));

    let missing = String::from(NOBODY_TEXT);
    let err = update_creation_information(&service, &mut store, &missing, edit).err().unwrap();
    assert_eq!(
        err.cause,
        Cause::NotFound { entity: EntityKind::CreationInformation, uuid: missing }
    );
    assert_eq!(store.len(), 2);
}

#[test]
fn lists_and_tasks_in_memory() {
    let mut store = MemoryStore::new();
    let creator = alice(&mut store);
    let list = create_list(&mut store, by(&creator), groceries()).unwrap();
    assert_eq!(list.title, "Groceries");
    assert_eq!(list.color_hex, Some(String::from("#0a0")));
    assert_eq!(store.len(), 3);

    let task = create_task(&mut store, by(&creator), buy_milk(&list.uuid)).unwrap();
    assert_eq!(task.priority, 0);
    assert_eq!(task.parent_list_uuid, list.uuid);
    assert_eq!(store.len(), 5);

    let other = create_list(&mut store, by(&creator), groceries()).unwrap();
    let linked = add_task(
        &mut store,
        AddTaskInput {
            last_updated_by_user_uuid: creator.clone(),
            parent_list_uuid: other.uuid.clone(),
            task_uuid: task.uuid.clone(),
        },
    )
    .unwrap();
    assert_eq!(
        parse_json_uuid_array(&linked.task_uuids.unwrap()),
        Ok(vec![parse_uuid(&task.uuid).unwrap()])
    );

    let milk = add_new_task(&mut store, by(&creator), buy_milk(&list.uuid)).unwrap();
    assert_eq!(milk.content, "Buy milk");
    assert!(!milk.is_complete);
    assert_eq!(milk.parent_list_uuid, list.uuid);

    let revised = update_list(
        &mut store,
        UpdateCreationInformationInput { last_updated_by_user_uuid: creator.clone() },
        UpdateListInput {
            uuid: list.uuid.clone(),
            title: None,
            description: Some(String::from("weekly")),
            color_hex: None,
        },
    )
    .unwrap();
    assert_eq!(revised.title, "Groceries");
    assert_eq!(revised.description, Some(String::from("weekly")));
    assert_eq!(revised.color_hex, Some(String::from("#0a0")));
    assert_eq!(
        parse_json_uuid_array(&revised.task_uuids.unwrap()),
        Ok(vec![parse_uuid(&milk.uuid).unwrap()])
    );

    let err = add_new_task(&mut store, by(&creator), buy_milk(NOBODY_TEXT)).err().unwrap();
    assert_eq!(err.message, "Task not added");
    let err = create_task(&mut store, by(NOBODY_TEXT), buy_milk(&list.uuid)).err().unwrap();
    assert_eq!(err.message, "Task not created");
    let err = create_list(
        &mut store,
        by(&creator),
        CreateListInput { parent_list_uuid: Some(String::from(NOBODY_TEXT)), ..groceries() },
    )
    .err()
    .unwrap();
    assert_eq!(
        err.cause,
        Cause::ReferenceNotFound { entity: EntityKind::List, uuid: String::from(NOBODY_TEXT) }
    );
}
