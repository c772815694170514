use tasklist::errors::EntityKind;
use tasklist::models::database::{CreationInformationRow, ListRow, UserRow};
use tasklist::store::{MemoryStore, Row, StoreReply, StoreRequest};

fn user(uuid: &str, name: &str) -> Row {
    Row::User(UserRow {
        uuid: String::from(uuid),
        username: String::from(name),
        password_hash: String::new(),
        nickname: String::new(),
    })
}

fn list(uuid: &str, title: &str) -> ListRow {
    ListRow {
        uuid: String::from(uuid),
        title: String::from(title),
        description: None,
        color_hex: None,
        task_uuids: None,
        parent_list_uuid: None,
        sub_list_uuids: None,
        shared_with_user_uuids: None,
        creation_information_uuid: String::from("c"),
    }
}

fn record(uuid: &str) -> CreationInformationRow {
    CreationInformationRow {
        uuid: String::from(uuid),
        creator_user_uuid: String::from("a"),
        creation_time: String::from("t0"),
        last_updated_by_user_uuid: String::from("a"),
        last_updated_time: String::from("t0"),
    }
}

fn find(store: &mut MemoryStore, entity: EntityKind, uuid: &str) -> Option<Row> {
    match store.execute(StoreRequest::Find { entity, uuid: String::from(uuid) }) {
        StoreReply::Found { row } => row,
        other => panic!("no answer: {:?}", other),
    }
}

#[test]
fn an_empty_store_holds_nothing() {
    let mut store = MemoryStore::new();
    assert_eq!(store.len(), 0);
    assert_eq!(find(&mut store, EntityKind::User, "a"), None);
    assert_eq!(
        store.execute(StoreRequest::Exists { entity: EntityKind::User, uuid: String::from("a") }),
        StoreReply::Exists { exists: false }
    );
    assert_eq!(
        store.execute(StoreRequest::All { entity: EntityKind::User }),
        StoreReply::Rows { rows: vec![] }
    );
}

#[test]
fn rows_are_kept_by_kind_and_identifier() {
    let mut store = MemoryStore::new();
    assert_eq!(store.execute(StoreRequest::Insert { row: user("a", "alice") }), StoreReply::Written);
    assert_eq!(
        store.execute(StoreRequest::Insert { row: Row::List(list("a", "Groceries")) }),
        StoreReply::Written
    );
    assert_eq!(store.execute(StoreRequest::Insert { row: user("b", "bob") }), StoreReply::Written);
    assert_eq!(store.len(), 3);
    assert_eq!(find(&mut store, EntityKind::User, "a"), Some(user("a", "alice")));
    assert_eq!(find(&mut store, EntityKind::List, "a"), Some(Row::List(list("a", "Groceries"))));
    assert_eq!(find(&mut store, EntityKind::Task, "a"), None);
    assert_eq!(find(&mut store, EntityKind::List, "b"), None);
    assert_eq!(
        store.execute(StoreRequest::All { entity: EntityKind::User }),
        StoreReply::Rows { rows: vec![user("a", "alice"), user("b", "bob")] }
    );
    assert_eq!(
        store.execute(StoreRequest::Exists { entity: EntityKind::List, uuid: String::from("a") }),
        StoreReply::Exists { exists: true }
    );
}

#[test]
fn a_second_row_with_a_key_is_refused() {
    let mut store = MemoryStore::new();
    store.execute(StoreRequest::Insert { row: user("a", "alice") });
    assert_eq!(
        store.execute(StoreRequest::Insert { row: user("a", "mallory") }),
        StoreReply::Failed { details: String::from("UNIQUE constraint failed: users.uuid") }
    );
    assert_eq!(store.len(), 1);
    assert_eq!(find(&mut store, EntityKind::User, "a"), Some(user("a", "alice")));
    assert_eq!(
        store.execute(StoreRequest::Insert { row: Row::CreationInformation(record("a")) }),
        StoreReply::Written
    );
    assert_eq!(
        store.execute(StoreRequest::Insert { row: Row::CreationInformation(record("a")) }),
        StoreReply::Failed {
            details: String::from("UNIQUE constraint failed: creation_information.uuid")
        }
    );
}

#[test]
fn columns_are_set_in_the_row_that_is_named() {
    let mut store = MemoryStore::new();
    store.execute(StoreRequest::Insert { row: Row::CreationInformation(record("c")) });
    store.execute(StoreRequest::Insert { row: Row::CreationInformation(record("d")) });
    store.execute(StoreRequest::Insert { row: Row::List(list("c", "Groceries")) });
    store.execute(StoreRequest::Insert { row: Row::List(list("l", "Chores")) });

    assert_eq!(
        store.execute(StoreRequest::UpdateCreationInformation {
            uuid: String::from("c"),
            last_updated_by_user_uuid: String::from("b"),
            last_updated_time: String::from("t1"),
        }),
        StoreReply::Written
    );
    assert_eq!(
        find(&mut store, EntityKind::CreationInformation, "c"),
        Some(Row::CreationInformation(CreationInformationRow {
            last_updated_by_user_uuid: String::from("b"),
            last_updated_time: String::from("t1"),
            ..record("c")
        }))
    );
    assert_eq!(
        find(&mut store, EntityKind::CreationInformation, "d"),
        Some(Row::CreationInformation(record("d")))
    );
    assert_eq!(find(&mut store, EntityKind::List, "c"), Some(Row::List(list("c", "Groceries"))));

    store.execute(StoreRequest::UpdateList {
        uuid: String::from("c"),
        title: String::from("Food"),
        description: Some(String::from("weekly")),
        color_hex: None,
    });
    store.execute(StoreRequest::UpdateListTasks {
        uuid: String::from("l"),
        task_uuids: Some(String::from("[]")),
    });
    assert_eq!(
        find(&mut store, EntityKind::List, "c"),
        Some(Row::List(ListRow {
            title: String::from("Food"),
            description: Some(String::from("weekly")),
            ..list("c", "Groceries")
        }))
    );
    assert_eq!(
        find(&mut store, EntityKind::List, "l"),
        Some(Row::List(ListRow { task_uuids: Some(String::from("[]")), ..list("l", "Chores") }))
    );
    assert_eq!(
        store.execute(StoreRequest::UpdateListTasks { uuid: String::from("nowhere"), task_uuids: None }),
        StoreReply::Written
    );
    assert_eq!(store.len(), 4);
}
