//! What each operation comes to when it runs against a store: for every store
//! and every input, what the store holds afterwards and what the operation
//! hands out.

use vstd::prelude::*;
use crate::constants::{
    CREATION_INFORMATION_NOT_CREATED_ERROR_MESSAGE,
    CREATION_INFORMATION_NOT_UPDATED_ERROR_MESSAGE,
    LIST_NOT_CREATED_ERROR_MESSAGE,
    LIST_NOT_UPDATED_ERROR_MESSAGE,
    TASK_NOT_ADDED_ERROR_MESSAGE,
    TASK_NOT_CREATED_ERROR_MESSAGE,
    USER_NOT_CREATED_ERROR_MESSAGE,
};
use crate::errors::{CauseView, EntityKind, ServiceErrorView};
use crate::models::creation_information::CreationInformation;
use crate::models::database::{
    CreationInformationRowView,
    ListRowView,
    TaskRowView,
    UserRowView,
};
use crate::models::graphql::{
    AddTaskInputView,
    CreateListInputView,
    CreateTaskInputView,
    CreateUserInputView,
    UpdateListInputView,
};
use crate::models::list::ListView;
use crate::models::task::TaskView;
use crate::models::user::UserView;
use crate::models::utilities::uuid_reading;
use crate::services::creation_information_service::{
    CreateCreationInformationView,
    UpdateCreationInformationView,
};
use crate::services::list_service::{
    AddNewTaskView,
    AddTaskView,
    CreateListView,
    UpdateListView,
};
use crate::services::operation::{
    lemma_run_done,
    lemma_run_step,
    run,
    OperationView,
    OutcomeView,
};
use crate::services::protocol::{
    failure,
    internal_failure,
    CheckReferencesView,
    Reference,
    TurnView,
    WriteRowView,
    UNEXPECTED_REPLY_MESSAGE,
};
use crate::services::runs::{
    all_resolve,
    checked,
    duplicate_failure,
    first_missing_from,
    lemma_run_check,
    lemma_run_write,
    reference_failure,
    written,
};
use crate::services::task_service::CreateTaskView;
use crate::services::user_service::CreateUserView;
use crate::store::{lemma_find, RowView, StoreReplyView, StoreRequestView, StoreView};
use crate::timestamps::Timestamp;

verus! {

/// What the writing of a row comes to: the store's refusal where a row has the
/// key, otherwise one row more and the given result.
pub open spec fn written_outcome(
    store: StoreView,
    message: Seq<char>,
    row: RowView,
    outcome: OutcomeView,
) -> (StoreView, Result<OutcomeView, ServiceErrorView>) {
    if store.contains(row.entity(), row.uuid()) {
        (store, Err(duplicate_failure(message, row)))
    } else {
        (store.with_row(row), Ok(outcome))
    }
}

/// What the check of references comes to where one of them does not resolve:
/// the failure that names the first such reference, and the store as it was.
pub open spec fn unresolved_outcome(
    store: StoreView,
    message: Seq<char>,
    references: Seq<Reference>,
) -> (StoreView, Result<OutcomeView, ServiceErrorView>) {
    (store, Err(reference_failure(message, references[first_missing_from(store, references, 0)])))
}

/// What an operation comes to that ends before the store is asked.
pub open spec fn refused_outcome(store: StoreView, message: Seq<char>, details: Seq<char>) -> (
    StoreView,
    Result<OutcomeView, ServiceErrorView>,
) {
    (store, Err(failure(message, CauseView::Validation { details })))
}

/// What the creation of a user comes to: the user's row is written unless a
/// user has its identifier.
pub open spec fn create_user_outcome(
    store: StoreView,
    input: CreateUserInputView,
    uuid: u128,
    hash_salt: Seq<char>,
) -> (StoreView, Result<OutcomeView, ServiceErrorView>) {
    let row = UserRowView::of(UserView::created(input, uuid, hash_salt));
    written_outcome(
        store,
        USER_NOT_CREATED_ERROR_MESSAGE@,
        RowView::User(row),
        OutcomeView::User(row),
    )
}

/// What the creation of an audit record comes to: a creator whose text
/// stands for no identifier is refused; a creator that the store does not
/// hold is reported; otherwise the record's row is written unless a record
/// has its identifier.
pub open spec fn create_creation_information_outcome(
    store: StoreView,
    creator: Seq<char>,
    uuid: u128,
    now: Timestamp,
) -> (StoreView, Result<OutcomeView, ServiceErrorView>) {
    let message = CREATION_INFORMATION_NOT_CREATED_ERROR_MESSAGE@;
    match CreationInformation::created(creator, uuid, now) {
        Err(details) => refused_outcome(store, message, details),
        Ok(information) => {
            let references = CreateCreationInformationView::references(information);
            let row = CreationInformationRowView::of(information);
            if !all_resolve(store, references) {
                unresolved_outcome(store, message, references)
            } else {
                written_outcome(
                    store,
                    message,
                    RowView::CreationInformation(row),
                    OutcomeView::CreationInformation(row),
                )
            }
        },
    }
}

/// What the creation of a task comes to: malformed inputs are refused; a
/// creator or a list that the store does not hold is reported; otherwise the
/// audit record is written, and then the task, which refers to the record. A
/// step that fails ends the creation; what earlier steps wrote stays written.
pub open spec fn create_task_outcome(
    store: StoreView,
    creator: Seq<char>,
    input: CreateTaskInputView,
    creation_information_uuid: u128,
    task_uuid: u128,
    now: Timestamp,
) -> (StoreView, Result<OutcomeView, ServiceErrorView>) {
    let message = TASK_NOT_CREATED_ERROR_MESSAGE@;
    match CreationInformation::created(creator, creation_information_uuid, now) {
        Err(details) => refused_outcome(store, message, details),
        Ok(information) => match TaskView::created(input, creation_information_uuid, task_uuid) {
            Err(details) => refused_outcome(store, message, details),
            Ok(task) => {
                let references = CreateTaskView::references(information, task);
                let audit = RowView::CreationInformation(CreationInformationRowView::of(information));
                if !all_resolve(store, references) {
                    unresolved_outcome(store, message, references)
                } else if store.contains(audit.entity(), audit.uuid()) {
                    (store, Err(duplicate_failure(message, audit)))
                } else {
                    let row = TaskRowView::of(task);
                    written_outcome(
                        store.with_row(audit),
                        message,
                        RowView::Task(row),
                        OutcomeView::Task(row),
                    )
                }
            },
        },
    }
}

/// What the creation of a list comes to: malformed inputs are refused; a
/// user, a list or a task that the list refers to and that the store does not
/// hold is reported; otherwise the audit record is written, and then the list,
/// which refers to the record. A step that fails ends the creation; what
/// earlier steps wrote stays written.
pub open spec fn create_list_outcome(
    store: StoreView,
    creator: Seq<char>,
    input: CreateListInputView,
    creation_information_uuid: u128,
    list_uuid: u128,
    now: Timestamp,
) -> (StoreView, Result<OutcomeView, ServiceErrorView>) {
    let message = LIST_NOT_CREATED_ERROR_MESSAGE@;
    match CreationInformation::created(creator, creation_information_uuid, now) {
        Err(details) => refused_outcome(store, message, details),
        Ok(information) => match ListView::created(input, creation_information_uuid, list_uuid) {
            Err(details) => refused_outcome(store, message, details),
            Ok(list) => {
                let references = CreateListView::references(information, list);
                let audit = RowView::CreationInformation(CreationInformationRowView::of(information));
                if !all_resolve(store, references) {
                    unresolved_outcome(store, message, references)
                } else if store.contains(audit.entity(), audit.uuid()) {
                    (store, Err(duplicate_failure(message, audit)))
                } else {
                    let row = ListRowView::of(list);
                    written_outcome(
                        store.with_row(audit),
                        message,
                        RowView::List(row),
                        OutcomeView::List(row),
                    )
                }
            },
        },
    }
}

/// What the recording of an edit comes to: a record that the store does not
/// hold is not found, and nothing is written in its place; an editor whose
/// text stands for no identifier is refused; an editor that the store does not
/// hold is reported; a record whose row cannot be read is the service's own
/// fault; otherwise the editor and the time of the edit are written, and
/// nothing else. The time that is written is the time of the edit, or the
/// time of the creation where the clock shows an earlier time than that, so
/// that the record that is written is consistent.
pub open spec fn update_creation_information_outcome(
    store: StoreView,
    uuid: Seq<char>,
    editor: Seq<char>,
    now: Timestamp,
) -> (StoreView, Result<OutcomeView, ServiceErrorView>) {
    let message = CREATION_INFORMATION_NOT_UPDATED_ERROR_MESSAGE@;
    match store.find(EntityKind::CreationInformation, uuid) {
        None => (
            store,
            Err(
                failure(
                    message,
                    CauseView::NotFound { entity: EntityKind::CreationInformation, uuid },
                ),
            ),
        ),
        Some(RowView::CreationInformation(row)) => match uuid_reading(editor) {
            Err(details) => refused_outcome(store, message, details),
            Ok(editor_uuid) => {
                let references = UpdateCreationInformationView::references(editor_uuid);
                if !all_resolve(store, references) {
                    unresolved_outcome(store, message, references)
                } else {
                    match CreationInformation::of_row(row) {
                        Err(details) => (store, Err(internal_failure(details))),
                        Ok(information) => {
                            let updated = CreationInformationRowView::of(
                                information.updated(editor_uuid, now),
                            );
                            (
                                store.with_edit(
                                    updated.uuid,
                                    updated.last_updated_by_user_uuid,
                                    updated.last_updated_time,
                                ),
                                Ok(OutcomeView::CreationInformation(updated)),
                            )
                        },
                    }
                }
            },
        },
        Some(_) => (store, Err(internal_failure(UNEXPECTED_REPLY_MESSAGE@))),
    }
}

/// An edit that was recorded as part of an operation: the store as the
/// recording left it, with the operation's result where the edit was recorded
/// and the recording's failure under the operation's message where it was not.
pub open spec fn audited_outcome(
    recorded: (StoreView, Result<OutcomeView, ServiceErrorView>),
    message: Seq<char>,
    outcome: OutcomeView,
) -> (StoreView, Result<OutcomeView, ServiceErrorView>) {
    match recorded.1 {
        Ok(_) => (recorded.0, Ok(outcome)),
        Err(err) => (recorded.0, Err(err.under(message))),
    }
}

/// What the revision of a list comes to: a list that the store does not hold
/// is not found; a list whose row cannot be read is the service's own fault; a
/// colour that is none is refused; otherwise title, description and colour are
/// written and the edit is recorded in the list's audit record. Where the
/// recording fails, the columns stay written.
pub open spec fn update_list_outcome(
    store: StoreView,
    editor: Seq<char>,
    input: UpdateListInputView,
    now: Timestamp,
) -> (StoreView, Result<OutcomeView, ServiceErrorView>) {
    let message = LIST_NOT_UPDATED_ERROR_MESSAGE@;
    match store.find(EntityKind::List, input.uuid) {
        None => (
            store,
            Err(failure(message, CauseView::NotFound { entity: EntityKind::List, uuid: input.uuid })),
        ),
        Some(RowView::List(found)) => match ListView::of_row(found) {
            Err(details) => (store, Err(internal_failure(details))),
            Ok(list) => match list.revised(input) {
                Err(details) => refused_outcome(store, message, details),
                Ok(revised) => {
                    let row = ListRowView::of(revised);
                    audited_outcome(
                        update_creation_information_outcome(
                            store.with_list_columns(
                                row.uuid,
                                row.title,
                                row.description,
                                row.color_hex,
                            ),
                            row.creation_information_uuid,
                            editor,
                            now,
                        ),
                        message,
                        OutcomeView::List(row),
                    )
                },
            },
        },
        Some(_) => (store, Err(internal_failure(UNEXPECTED_REPLY_MESSAGE@))),
    }
}

/// What the addition of an existing task to a list comes to: a list that the
/// store does not hold is not found; a list whose row cannot be read is the
/// service's own fault; a task whose text stands for no identifier is refused;
/// a task that the store does not hold is reported; otherwise the list's tasks
/// are written with the task at their end, and the edit is recorded in the
/// list's audit record. Where the recording fails, the tasks stay written.
pub open spec fn add_task_outcome(store: StoreView, input: AddTaskInputView, now: Timestamp) -> (
    StoreView,
    Result<OutcomeView, ServiceErrorView>,
) {
    let message = TASK_NOT_ADDED_ERROR_MESSAGE@;
    match store.find(EntityKind::List, input.parent_list_uuid) {
        None => (
            store,
            Err(
                failure(
                    message,
                    CauseView::NotFound { entity: EntityKind::List, uuid: input.parent_list_uuid },
                ),
            ),
        ),
        Some(RowView::List(found)) => match ListView::of_row(found) {
            Err(details) => (store, Err(internal_failure(details))),
            Ok(list) => match uuid_reading(input.task_uuid) {
                Err(details) => refused_outcome(store, message, details),
                Ok(task_uuid) => {
                    let references = AddTaskView::references(task_uuid);
                    let row = ListRowView::of(list.with_task(task_uuid));
                    if !all_resolve(store, references) {
                        unresolved_outcome(store, message, references)
                    } else {
                        audited_outcome(
                            update_creation_information_outcome(
                                store.with_list_tasks(row.uuid, row.task_uuids),
                                row.creation_information_uuid,
                                input.last_updated_by_user_uuid,
                                now,
                            ),
                            LIST_NOT_UPDATED_ERROR_MESSAGE@,
                            OutcomeView::List(row),
                        )
                    }
                },
            },
        },
        Some(_) => (store, Err(internal_failure(UNEXPECTED_REPLY_MESSAGE@))),
    }
}

/// What the addition of a new task to a list comes to: a list that the store
/// does not hold is not found, and nothing is written; a list whose row cannot
/// be read is the service's own fault; then the task is created as
/// `create_task_outcome` says, and where it is not created the addition ends
/// as the creation ends; otherwise the list's tasks are written with the new
/// task at their end, and the edit is recorded in the list's audit record in
/// the name of the task's creator. A step that fails ends the addition; what
/// earlier steps wrote stays written.
pub open spec fn add_new_task_outcome(
    store: StoreView,
    creator: Seq<char>,
    input: CreateTaskInputView,
    creation_information_uuid: u128,
    task_uuid: u128,
    now: Timestamp,
) -> (StoreView, Result<OutcomeView, ServiceErrorView>) {
    match store.find(EntityKind::List, input.parent_list_uuid) {
        None => (
            store,
            Err(
                failure(
                    TASK_NOT_ADDED_ERROR_MESSAGE@,
                    CauseView::NotFound { entity: EntityKind::List, uuid: input.parent_list_uuid },
                ),
            ),
        ),
        Some(RowView::List(found)) => match ListView::of_row(found) {
            Err(details) => (store, Err(internal_failure(details))),
            Ok(list) => {
                let created = create_task_outcome(
                    store,
                    creator,
                    input,
                    creation_information_uuid,
                    task_uuid,
                    now,
                );
                match created.1 {
                    Err(err) => (created.0, Err(err)),
                    Ok(OutcomeView::Task(task_row)) => match TaskView::of_row(task_row) {
                        Err(details) => (created.0, Err(internal_failure(details))),
                        Ok(task) => {
                            let row = ListRowView::of(list.with_task(task.uuid));
                            audited_outcome(
                                update_creation_information_outcome(
                                    created.0.with_list_tasks(row.uuid, row.task_uuids),
                                    row.creation_information_uuid,
                                    creator,
                                    now,
                                ),
                                LIST_NOT_UPDATED_ERROR_MESSAGE@,
                                OutcomeView::Task(task_row),
                            )
                        },
                    },
                    Ok(_) => (created.0, Err(internal_failure(UNEXPECTED_REPLY_MESSAGE@))),
                }
            },
        },
        Some(_) => (store, Err(internal_failure(UNEXPECTED_REPLY_MESSAGE@))),
    }
}

/// The creation of a user comes to what `create_user_outcome` says.
pub proof fn law_create_user(
    store: StoreView,
    input: CreateUserInputView,
    uuid: u128,
    hash_salt: Seq<char>,
)
    ensures
        run(OperationView::create_user(CreateUserView::begin(input, uuid, hash_salt)), store)
            == create_user_outcome(store, input, uuid, hash_salt),
{
    let row = UserRowView::of(UserView::created(input, uuid, hash_salt));
    let message = USER_NOT_CREATED_ERROR_MESSAGE@;
    let wrap = |inner: WriteRowView| OperationView::CreateUser(CreateUserView { inner });
    let finish = |written_row: RowView|
        OperationView::create_user(
            CreateUserView::after_writing(TurnView::Done { result: Ok(written_row) }),
        );
    assert forall|inner: WriteRowView, reply: StoreReplyView|
        (#[trigger] wrap(inner).advance(reply)) == written(
            wrap,
            finish,
            message,
            inner.resume(reply),
        ) by {}
    lemma_run_write(wrap, finish, message, RowView::User(row), store);
    assert(OperationView::create_user(CreateUserView::begin(input, uuid, hash_salt)) == written(
        wrap,
        finish,
        message,
        WriteRowView::begin(RowView::User(row)),
    ));
    lemma_run_done(Ok(OutcomeView::User(row)), store.with_row(RowView::User(row)));
}

/// The creation of an audit record comes to what
/// `create_creation_information_outcome` says.
pub proof fn law_create_creation_information(
    store: StoreView,
    creator: Seq<char>,
    uuid: u128,
    now: Timestamp,
)
    ensures
        run(
            OperationView::create_creation_information(
                CreateCreationInformationView::begin(creator, uuid, now),
            ),
            store,
        ) == create_creation_information_outcome(store, creator, uuid, now),
{
    let message = CREATION_INFORMATION_NOT_CREATED_ERROR_MESSAGE@;
    match CreationInformation::created(creator, uuid, now) {
        Err(details) => {
            lemma_run_done(Err(failure(message, CauseView::Validation { details })), store);
        },
        Ok(information) => {
            let references = CreateCreationInformationView::references(information);
            let row = RowView::CreationInformation(CreationInformationRowView::of(information));
            let wrap_check = |inner: CheckReferencesView|
                OperationView::CreateCreationInformation(
                    CreateCreationInformationView::Checking { inner, information },
                );
            let after_check = OperationView::create_creation_information(
                CreateCreationInformationView::after_checking(
                    TurnView::Done { result: Ok(()) },
                    information,
                ),
            );
            assert forall|inner: CheckReferencesView, reply: StoreReplyView|
                (#[trigger] wrap_check(inner).advance(reply)) == checked(
                    wrap_check,
                    after_check,
                    message,
                    inner.resume(reply),
                ) by {}
            lemma_run_check(wrap_check, after_check, message, references, 0, store);
            assert(OperationView::create_creation_information(
                CreateCreationInformationView::begin(creator, uuid, now),
            ) == checked(wrap_check, after_check, message, CheckReferencesView::from(references, 0)));

            let wrap = |inner: WriteRowView|
                OperationView::CreateCreationInformation(
                    CreateCreationInformationView::Writing { inner },
                );
            let finish = |written_row: RowView|
                OperationView::create_creation_information(
                    CreateCreationInformationView::after_writing(
                        TurnView::Done { result: Ok(written_row) },
                    ),
                );
            assert forall|inner: WriteRowView, reply: StoreReplyView|
                (#[trigger] wrap(inner).advance(reply)) == written(
                    wrap,
                    finish,
                    message,
                    inner.resume(reply),
                ) by {}
            lemma_run_write(wrap, finish, message, row, store);
            assert(after_check == written(wrap, finish, message, WriteRowView::begin(row)));
            lemma_run_done(
                Ok(OutcomeView::CreationInformation(CreationInformationRowView::of(information))),
                store.with_row(row),
            );
        },
    }
}

/// The creation of a task comes to what `create_task_outcome` says.
pub proof fn law_create_task(
    store: StoreView,
    creator: Seq<char>,
    input: CreateTaskInputView,
    creation_information_uuid: u128,
    task_uuid: u128,
    now: Timestamp,
)
    ensures
        run(
            OperationView::create_task(
                CreateTaskView::begin(creator, input, creation_information_uuid, task_uuid, now),
            ),
            store,
        ) == create_task_outcome(store, creator, input, creation_information_uuid, task_uuid, now),
{
    let message = TASK_NOT_CREATED_ERROR_MESSAGE@;
    match CreationInformation::created(creator, creation_information_uuid, now) {
        Err(details) => {
            lemma_run_done(Err(failure(message, CauseView::Validation { details })), store);
        },
        Ok(information) => match TaskView::created(input, creation_information_uuid, task_uuid) {
            Err(details) => {
                lemma_run_done(Err(failure(message, CauseView::Validation { details })), store);
            },
            Ok(task) => {
                let references = CreateTaskView::references(information, task);
                let audit = RowView::CreationInformation(CreationInformationRowView::of(information));
                let wrap_check = |inner: CheckReferencesView|
                    OperationView::CreateTask(CreateTaskView::Checking { inner, information, task });
                let after_check = OperationView::create_task(
                    CreateTaskView::after_checking(
                        TurnView::Done { result: Ok(()) },
                        information,
                        task,
                    ),
                );
                assert forall|inner: CheckReferencesView, reply: StoreReplyView|
                    (#[trigger] wrap_check(inner).advance(reply)) == checked(
                        wrap_check,
                        after_check,
                        message,
                        inner.resume(reply),
                    ) by {}
                lemma_run_check(wrap_check, after_check, message, references, 0, store);
                assert(OperationView::create_task(
                    CreateTaskView::begin(creator, input, creation_information_uuid, task_uuid, now),
                ) == checked(
                    wrap_check,
                    after_check,
                    message,
                    CheckReferencesView::from(references, 0),
                ));

                let wrap_audit = |inner: WriteRowView|
                    OperationView::CreateTask(CreateTaskView::Audit { inner, task });
                let after_audit = |written_row: RowView|
                    OperationView::create_task(
                        CreateTaskView::after_audit(TurnView::Done { result: Ok(written_row) }, task),
                    );
                assert forall|inner: WriteRowView, reply: StoreReplyView|
                    (#[trigger] wrap_audit(inner).advance(reply)) == written(
                        wrap_audit,
                        after_audit,
                        message,
                        inner.resume(reply),
                    ) by {}
                lemma_run_write(wrap_audit, after_audit, message, audit, store);
                assert(after_check == written(
                    wrap_audit,
                    after_audit,
                    message,
                    WriteRowView::begin(audit),
                ));
                let with_audit = store.with_row(audit);

                crate::identifiers::lemma_canonical_uuid_text(information.uuid);
                assert(TaskView { creation_information_uuid: information.uuid, ..task } == task);
                let row = RowView::Task(TaskRowView::of(task));
                let wrap = |inner: WriteRowView|
                    OperationView::CreateTask(CreateTaskView::Writing { inner });
                let finish = |written_row: RowView|
                    OperationView::create_task(
                        CreateTaskView::after_writing(TurnView::Done { result: Ok(written_row) }),
                    );
                assert forall|inner: WriteRowView, reply: StoreReplyView|
                    (#[trigger] wrap(inner).advance(reply)) == written(
                        wrap,
                        finish,
                        message,
                        inner.resume(reply),
                    ) by {}
                lemma_run_write(wrap, finish, message, row, with_audit);
                assert(after_audit(audit) == written(wrap, finish, message, WriteRowView::begin(row)));
                lemma_run_done(Ok(OutcomeView::Task(TaskRowView::of(task))), with_audit.with_row(row));
            },
        },
    }
}

/// The creation of a list comes to what `create_list_outcome` says.
pub proof fn law_create_list(
    store: StoreView,
    creator: Seq<char>,
    input: CreateListInputView,
    creation_information_uuid: u128,
    list_uuid: u128,
    now: Timestamp,
)
    ensures
        run(
            OperationView::create_list(
                CreateListView::begin(creator, input, creation_information_uuid, list_uuid, now),
            ),
            store,
        ) == create_list_outcome(store, creator, input, creation_information_uuid, list_uuid, now),
{
    let message = LIST_NOT_CREATED_ERROR_MESSAGE@;
    match CreationInformation::created(creator, creation_information_uuid, now) {
        Err(details) => {
            lemma_run_done(Err(failure(message, CauseView::Validation { details })), store);
        },
        Ok(information) => match ListView::created(input, creation_information_uuid, list_uuid) {
            Err(details) => {
                lemma_run_done(Err(failure(message, CauseView::Validation { details })), store);
            },
            Ok(list) => {
                let references = CreateListView::references(information, list);
                let audit = RowView::CreationInformation(CreationInformationRowView::of(information));
                let wrap_check = |inner: CheckReferencesView|
                    OperationView::CreateList(CreateListView::Checking { inner, information, list });
                let after_check = OperationView::create_list(
                    CreateListView::after_checking(
                        TurnView::Done { result: Ok(()) },
                        information,
                        list,
                    ),
                );
                assert forall|inner: CheckReferencesView, reply: StoreReplyView|
                    (#[trigger] wrap_check(inner).advance(reply)) == checked(
                        wrap_check,
                        after_check,
                        message,
                        inner.resume(reply),
                    ) by {}
                lemma_run_check(wrap_check, after_check, message, references, 0, store);
                assert(OperationView::create_list(
                    CreateListView::begin(creator, input, creation_information_uuid, list_uuid, now),
                ) == checked(
                    wrap_check,
                    after_check,
                    message,
                    CheckReferencesView::from(references, 0),
                ));

                let wrap_audit = |inner: WriteRowView|
                    OperationView::CreateList(CreateListView::Audit { inner, list });
                let after_audit = |written_row: RowView|
                    OperationView::create_list(
                        CreateListView::after_audit(TurnView::Done { result: Ok(written_row) }, list),
                    );
                assert forall|inner: WriteRowView, reply: StoreReplyView|
                    (#[trigger] wrap_audit(inner).advance(reply)) == written(
                        wrap_audit,
                        after_audit,
                        message,
                        inner.resume(reply),
                    ) by {}
                lemma_run_write(wrap_audit, after_audit, message, audit, store);
                assert(after_check == written(
                    wrap_audit,
                    after_audit,
                    message,
                    WriteRowView::begin(audit),
                ));
                let with_audit = store.with_row(audit);

                crate::identifiers::lemma_canonical_uuid_text(information.uuid);
                assert(ListView { creation_information_uuid: information.uuid, ..list } == list);
                let row = RowView::List(ListRowView::of(list));
                let wrap = |inner: WriteRowView|
                    OperationView::CreateList(CreateListView::Writing { inner });
                let finish = |written_row: RowView|
                    OperationView::create_list(
                        CreateListView::after_writing(TurnView::Done { result: Ok(written_row) }),
                    );
                assert forall|inner: WriteRowView, reply: StoreReplyView|
                    (#[trigger] wrap(inner).advance(reply)) == written(
                        wrap,
                        finish,
                        message,
                        inner.resume(reply),
                    ) by {}
                lemma_run_write(wrap, finish, message, row, with_audit);
                assert(after_audit(audit) == written(wrap, finish, message, WriteRowView::begin(row)));
                lemma_run_done(Ok(OutcomeView::List(ListRowView::of(list))), with_audit.with_row(row));
            },
        },
    }
}

/// The recording of an edit comes to what
/// `update_creation_information_outcome` says.
pub proof fn law_update_creation_information(
    store: StoreView,
    uuid: Seq<char>,
    editor: Seq<char>,
    now: Timestamp,
)
    ensures
        run(
            OperationView::update_creation_information(
                UpdateCreationInformationView::begin(uuid, editor, now),
            ),
            store,
        ) == update_creation_information_outcome(store, uuid, editor, now),
{
    let message = CREATION_INFORMATION_NOT_UPDATED_ERROR_MESSAGE@;
    let finding = OperationView::UpdateCreationInformation(
        UpdateCreationInformationView::Finding { uuid, editor, now },
    );
    lemma_find(store, EntityKind::CreationInformation, uuid);
    lemma_run_step(
        finding,
        StoreRequestView::Find { entity: EntityKind::CreationInformation, uuid },
        store,
    );
    match store.find(EntityKind::CreationInformation, uuid) {
        None => {
            lemma_run_done(
                Err(
                    failure(
                        message,
                        CauseView::NotFound { entity: EntityKind::CreationInformation, uuid },
                    ),
                ),
                store,
            );
        },
        Some(RowView::CreationInformation(row)) => match uuid_reading(editor) {
            Err(details) => {
                lemma_run_done(Err(failure(message, CauseView::Validation { details })), store);
            },
            Ok(editor_uuid) => {
                let references = UpdateCreationInformationView::references(editor_uuid);
                let wrap_check = |inner: CheckReferencesView|
                    OperationView::UpdateCreationInformation(
                        UpdateCreationInformationView::Checking {
                            inner,
                            row,
                            editor: editor_uuid,
                            now,
                        },
                    );
                let after_check = OperationView::update_creation_information(
                    UpdateCreationInformationView::after_checking(
                        TurnView::Done { result: Ok(()) },
                        row,
                        editor_uuid,
                        now,
                    ),
                );
                assert forall|inner: CheckReferencesView, reply: StoreReplyView|
                    (#[trigger] wrap_check(inner).advance(reply)) == checked(
                        wrap_check,
                        after_check,
                        message,
                        inner.resume(reply),
                    ) by {}
                lemma_run_check(wrap_check, after_check, message, references, 0, store);
                assert(finding.advance(
                    StoreReplyView::Found { row: Some(RowView::CreationInformation(row)) },
                ) == checked(
                    wrap_check,
                    after_check,
                    message,
                    CheckReferencesView::from(references, 0),
                ));
                match CreationInformation::of_row(row) {
                    Err(details) => {
                        lemma_run_done(Err(internal_failure(details)), store);
                    },
                    Ok(information) => {
                        let updated = CreationInformationRowView::of(
                            information.updated(editor_uuid, now),
                        );
                        lemma_run_step(
                            OperationView::UpdateCreationInformation(
                                UpdateCreationInformationView::Updating { row: updated },
                            ),
                            UpdateCreationInformationView::write(updated),
                            store,
                        );
                        lemma_run_done(
                            Ok(OutcomeView::CreationInformation(updated)),
                            store.with_edit(
                                updated.uuid,
                                updated.last_updated_by_user_uuid,
                                updated.last_updated_time,
                            ),
                        );
                    },
                }
            },
        },
        Some(_) => {},
    }
}

/// A turn of the recording of an edit within an operation: the operation
/// waits where the recording waits, ends with `outcome` once the edit is
/// recorded, and ends under its own message where the recording has failed.
pub open spec fn audited(
    wrap: spec_fn(UpdateCreationInformationView) -> OperationView,
    outcome: OutcomeView,
    message: Seq<char>,
    turn: TurnView<UpdateCreationInformationView, CreationInformationRowView>,
) -> TurnView<OperationView, OutcomeView> {
    match turn {
        TurnView::Ask { state, request } => TurnView::Ask { state: wrap(state), request },
        TurnView::Done { result: Ok(_) } => TurnView::Done { result: Ok(outcome) },
        TurnView::Done { result: Err(err) } => TurnView::Done { result: Err(err.under(message)) },
    }
}

/// A turn of the creation of a task within an operation: the operation waits
/// where the creation waits, goes on with `finish` of the task's row once the
/// task is created, and ends as the creation ends where it has failed.
pub open spec fn creating(
    wrap: spec_fn(CreateTaskView) -> OperationView,
    finish: spec_fn(TaskRowView) -> TurnView<OperationView, OutcomeView>,
    turn: TurnView<CreateTaskView, TaskRowView>,
) -> TurnView<OperationView, OutcomeView> {
    match turn {
        TurnView::Ask { state, request } => TurnView::Ask { state: wrap(state), request },
        TurnView::Done { result: Ok(row) } => finish(row),
        TurnView::Done { result: Err(err) } => TurnView::Done { result: Err(err) },
    }
}

/// The number of turns that the recording of an edit can still take.
pub open spec fn audit_steps(
    turn: TurnView<UpdateCreationInformationView, CreationInformationRowView>,
) -> nat {
    match turn {
        TurnView::Ask { state, .. } => state.steps_left() + 1,
        TurnView::Done { .. } => 0,
    }
}

/// The number of turns that the creation of a task can still take.
pub open spec fn creation_steps(turn: TurnView<CreateTaskView, TaskRowView>) -> nat {
    match turn {
        TurnView::Ask { state, .. } => state.steps_left() + 1,
        TurnView::Done { .. } => 0,
    }
}

/// The run of the recording of an edit within an operation is the run of the
/// recording by itself, with the operation's result in place of the
/// recording's and the operation's message on a failure.
pub proof fn lemma_run_audit(
    wrap: spec_fn(UpdateCreationInformationView) -> OperationView,
    outcome: OutcomeView,
    message: Seq<char>,
    turn: TurnView<UpdateCreationInformationView, CreationInformationRowView>,
    store: StoreView,
)
    requires
        forall|inner: UpdateCreationInformationView, reply: StoreReplyView|
            (#[trigger] wrap(inner).advance(reply)) == audited(
                wrap,
                outcome,
                message,
                inner.resume(reply),
            ),
    ensures
        run(audited(wrap, outcome, message, turn), store) == audited_outcome(
            run(OperationView::update_creation_information(turn), store),
            message,
            outcome,
        ),
    decreases audit_steps(turn),
{
    match turn {
        TurnView::Done { result: Ok(row) } => {
            lemma_run_done(Ok(outcome), store);
            lemma_run_done(Ok(OutcomeView::CreationInformation(row)), store);
        },
        TurnView::Done { result: Err(err) } => {
            lemma_run_done(Err(err.under(message)), store);
            lemma_run_done(Err(err), store);
        },
        TurnView::Ask { state, request } => {
            let answered = store.execute(request);
            lemma_run_step(wrap(state), request, store);
            lemma_run_step(OperationView::UpdateCreationInformation(state), request, store);
            state.lemma_progress(answered.1);
            lemma_run_audit(wrap, outcome, message, state.resume(answered.1), answered.0);
        },
    }
}

/// The run of the creation of a task within an operation is the run of the
/// creation by itself, followed by what the operation makes of the task's
/// row. The creation by itself hands out a task's row or fails.
pub proof fn lemma_run_creating(
    wrap: spec_fn(CreateTaskView) -> OperationView,
    finish: spec_fn(TaskRowView) -> TurnView<OperationView, OutcomeView>,
    turn: TurnView<CreateTaskView, TaskRowView>,
    store: StoreView,
)
    requires
        forall|inner: CreateTaskView, reply: StoreReplyView|
            (#[trigger] wrap(inner).advance(reply)) == creating(wrap, finish, inner.resume(reply)),
    ensures
        ({
            let created = run(OperationView::create_task(turn), store);
            &&& created.1 matches Ok(outcome) ==> outcome is Task
            &&& run(creating(wrap, finish, turn), store) == match created.1 {
                Ok(OutcomeView::Task(row)) => run(finish(row), created.0),
                Ok(_) => (created.0, Err(internal_failure(UNEXPECTED_REPLY_MESSAGE@))),
                Err(err) => (created.0, Err(err)),
            }
        }),
    decreases creation_steps(turn),
{
    match turn {
        TurnView::Done { result: Ok(row) } => {
            lemma_run_done(Ok(OutcomeView::Task(row)), store);
        },
        TurnView::Done { result: Err(err) } => {
            lemma_run_done(Err(err), store);
        },
        TurnView::Ask { state, request } => {
            let answered = store.execute(request);
            lemma_run_step(wrap(state), request, store);
            lemma_run_step(OperationView::CreateTask(state), request, store);
            state.lemma_progress(answered.1);
            lemma_run_creating(wrap, finish, state.resume(answered.1), answered.0);
        },
    }
}

/// The revision of a list comes to what `update_list_outcome` says.
pub proof fn law_update_list(
    store: StoreView,
    editor: Seq<char>,
    input: UpdateListInputView,
    now: Timestamp,
)
    ensures
        run(OperationView::update_list(UpdateListView::begin(editor, input, now)), store)
            == update_list_outcome(store, editor, input, now),
{
    let message = LIST_NOT_UPDATED_ERROR_MESSAGE@;
    let finding = OperationView::UpdateList(UpdateListView::Finding { input, editor, now });
    lemma_find(store, EntityKind::List, input.uuid);
    lemma_run_step(
        finding,
        StoreRequestView::Find { entity: EntityKind::List, uuid: input.uuid },
        store,
    );
    match store.find(EntityKind::List, input.uuid) {
        None => {
            lemma_run_done(
                Err(
                    failure(
                        message,
                        CauseView::NotFound { entity: EntityKind::List, uuid: input.uuid },
                    ),
                ),
                store,
            );
        },
        Some(RowView::List(found)) => match ListView::of_row(found) {
            Err(details) => {
                lemma_run_done(Err(internal_failure(details)), store);
            },
            Ok(list) => match list.revised(input) {
                Err(details) => {
                    lemma_run_done(Err(failure(message, CauseView::Validation { details })), store);
                },
                Ok(revised) => {
                    let row = ListRowView::of(revised);
                    let updating = OperationView::UpdateList(
                        UpdateListView::Updating { row, editor, now },
                    );
                    lemma_run_step(updating, UpdateListView::write(row), store);
                    let after = store.with_list_columns(
                        row.uuid,
                        row.title,
                        row.description,
                        row.color_hex,
                    );
                    let wrap = |inner: UpdateCreationInformationView|
                        OperationView::UpdateList(UpdateListView::Audit { inner, row });
                    assert forall|inner: UpdateCreationInformationView, reply: StoreReplyView|
                        (#[trigger] wrap(inner).advance(reply)) == audited(
                            wrap,
                            OutcomeView::List(row),
                            message,
                            inner.resume(reply),
                        ) by {}
                    let recording = UpdateCreationInformationView::begin(
                        row.creation_information_uuid,
                        editor,
                        now,
                    );
                    lemma_run_audit(wrap, OutcomeView::List(row), message, recording, after);
                    assert(updating.advance(StoreReplyView::Written) == audited(
                        wrap,
                        OutcomeView::List(row),
                        message,
                        recording,
                    ));
                    law_update_creation_information(
                        after,
                        row.creation_information_uuid,
                        editor,
                        now,
                    );
                },
            },
        },
        Some(_) => {},
    }
}

/// The addition of an existing task comes to what `add_task_outcome` says.
pub proof fn law_add_task(store: StoreView, input: AddTaskInputView, now: Timestamp)
    ensures
        run(OperationView::add_task(AddTaskView::begin(input, now)), store) == add_task_outcome(
            store,
            input,
            now,
        ),
{
    let message = TASK_NOT_ADDED_ERROR_MESSAGE@;
    let editor = input.last_updated_by_user_uuid;
    let finding = OperationView::AddTask(AddTaskView::Finding { input, now });
    lemma_find(store, EntityKind::List, input.parent_list_uuid);
    lemma_run_step(
        finding,
        StoreRequestView::Find { entity: EntityKind::List, uuid: input.parent_list_uuid },
        store,
    );
    match store.find(EntityKind::List, input.parent_list_uuid) {
        None => {
            lemma_run_done(
                Err(
                    failure(
                        message,
                        CauseView::NotFound {
                            entity: EntityKind::List,
                            uuid: input.parent_list_uuid,
                        },
                    ),
                ),
                store,
            );
        },
        Some(RowView::List(found)) => match ListView::of_row(found) {
            Err(details) => {
                lemma_run_done(Err(internal_failure(details)), store);
            },
            Ok(list) => match uuid_reading(input.task_uuid) {
                Err(details) => {
                    lemma_run_done(Err(failure(message, CauseView::Validation { details })), store);
                },
                Ok(task_uuid) => {
                    let references = AddTaskView::references(task_uuid);
                    let row = ListRowView::of(list.with_task(task_uuid));
                    let wrap_check = |inner: CheckReferencesView|
                        OperationView::AddTask(
                            AddTaskView::Checking { inner, list, task_uuid, editor, now },
                        );
                    let after_check = OperationView::add_task(
                        AddTaskView::after_checking(
                            TurnView::Done { result: Ok(()) },
                            list,
                            task_uuid,
                            editor,
                            now,
                        ),
                    );
                    assert forall|inner: CheckReferencesView, reply: StoreReplyView|
                        (#[trigger] wrap_check(inner).advance(reply)) == checked(
                            wrap_check,
                            after_check,
                            message,
                            inner.resume(reply),
                        ) by {}
                    lemma_run_check(wrap_check, after_check, message, references, 0, store);
                    assert(finding.advance(
                        StoreReplyView::Found { row: Some(RowView::List(found)) },
                    ) == checked(
                        wrap_check,
                        after_check,
                        message,
                        CheckReferencesView::from(references, 0),
                    ));

                    let linking = OperationView::AddTask(
                        AddTaskView::Linking { list_row: row, editor, now },
                    );
                    lemma_run_step(linking, AddNewTaskView::write(row), store);
                    let after = store.with_list_tasks(row.uuid, row.task_uuids);
                    let wrap = |inner: UpdateCreationInformationView|
                        OperationView::AddTask(AddTaskView::Audit { inner, list_row: row });
                    assert forall|inner: UpdateCreationInformationView, reply: StoreReplyView|
                        (#[trigger] wrap(inner).advance(reply)) == audited(
                            wrap,
                            OutcomeView::List(row),
                            LIST_NOT_UPDATED_ERROR_MESSAGE@,
                            inner.resume(reply),
                        ) by {}
                    let recording = UpdateCreationInformationView::begin(
                        row.creation_information_uuid,
                        editor,
                        now,
                    );
                    lemma_run_audit(
                        wrap,
                        OutcomeView::List(row),
                        LIST_NOT_UPDATED_ERROR_MESSAGE@,
                        recording,
                        after,
                    );
                    assert(linking.advance(StoreReplyView::Written) == audited(
                        wrap,
                        OutcomeView::List(row),
                        LIST_NOT_UPDATED_ERROR_MESSAGE@,
                        recording,
                    ));
                    law_update_creation_information(
                        after,
                        row.creation_information_uuid,
                        editor,
                        now,
                    );
                },
            },
        },
        Some(_) => {},
    }
}

/// The addition of a new task comes to what `add_new_task_outcome` says.
pub proof fn law_add_new_task(
    store: StoreView,
    creator: Seq<char>,
    input: CreateTaskInputView,
    creation_information_uuid: u128,
    task_uuid: u128,
    now: Timestamp,
)
    ensures
        run(
            OperationView::add_new_task(
                AddNewTaskView::begin(creator, input, creation_information_uuid, task_uuid, now),
            ),
            store,
        ) == add_new_task_outcome(store, creator, input, creation_information_uuid, task_uuid, now),
{
    let finding = OperationView::AddNewTask(
        AddNewTaskView::Finding { creator, input, creation_information_uuid, task_uuid, now },
    );
    lemma_find(store, EntityKind::List, input.parent_list_uuid);
    lemma_run_step(
        finding,
        StoreRequestView::Find { entity: EntityKind::List, uuid: input.parent_list_uuid },
        store,
    );
    match store.find(EntityKind::List, input.parent_list_uuid) {
        None => {
            lemma_run_done(
                Err(
                    failure(
                        TASK_NOT_ADDED_ERROR_MESSAGE@,
                        CauseView::NotFound {
                            entity: EntityKind::List,
                            uuid: input.parent_list_uuid,
                        },
                    ),
                ),
                store,
            );
        },
        Some(RowView::List(found)) => match ListView::of_row(found) {
            Err(details) => {
                lemma_run_done(Err(internal_failure(details)), store);
            },
            Ok(list) => {
                let wrap_creating = |inner: CreateTaskView|
                    OperationView::AddNewTask(
                        AddNewTaskView::Creating { inner, list, editor: creator, now },
                    );
                let finish = |task_row: TaskRowView|
                    OperationView::add_new_task(
                        AddNewTaskView::after_creating(
                            TurnView::Done { result: Ok(task_row) },
                            list,
                            creator,
                            now,
                        ),
                    );
                assert forall|inner: CreateTaskView, reply: StoreReplyView|
                    (#[trigger] wrap_creating(inner).advance(reply)) == creating(
                        wrap_creating,
                        finish,
                        inner.resume(reply),
                    ) by {}
                let creation = CreateTaskView::begin(
                    creator,
                    input,
                    creation_information_uuid,
                    task_uuid,
                    now,
                );
                lemma_run_creating(wrap_creating, finish, creation, store);
                assert(finding.advance(StoreReplyView::Found { row: Some(RowView::List(found)) })
                    == creating(wrap_creating, finish, creation));
                law_create_task(store, creator, input, creation_information_uuid, task_uuid, now);
                let created = create_task_outcome(
                    store,
                    creator,
                    input,
                    creation_information_uuid,
                    task_uuid,
                    now,
                );
                match created.1 {
                    Ok(OutcomeView::Task(task_row)) => match TaskView::of_row(task_row) {
                        Err(details) => {
                            lemma_run_done(Err(internal_failure(details)), created.0);
                        },
                        Ok(task) => {
                            let row = ListRowView::of(list.with_task(task.uuid));
                            let linking = OperationView::AddNewTask(
                                AddNewTaskView::Linking {
                                    task_row,
                                    list_row: row,
                                    editor: creator,
                                    now,
                                },
                            );
                            lemma_run_step(linking, AddNewTaskView::write(row), created.0);
                            let after = created.0.with_list_tasks(row.uuid, row.task_uuids);
                            let wrap = |inner: UpdateCreationInformationView|
                                OperationView::AddNewTask(AddNewTaskView::Audit { inner, task_row });
                            assert forall|
                                inner: UpdateCreationInformationView,
                                reply: StoreReplyView,
                            |
                                (#[trigger] wrap(inner).advance(reply)) == audited(
                                    wrap,
                                    OutcomeView::Task(task_row),
                                    LIST_NOT_UPDATED_ERROR_MESSAGE@,
                                    inner.resume(reply),
                                ) by {}
                            let recording = UpdateCreationInformationView::begin(
                                row.creation_information_uuid,
                                creator,
                                now,
                            );
                            lemma_run_audit(
                                wrap,
                                OutcomeView::Task(task_row),
                                LIST_NOT_UPDATED_ERROR_MESSAGE@,
                                recording,
                                after,
                            );
                            assert(linking.advance(StoreReplyView::Written) == audited(
                                wrap,
                                OutcomeView::Task(task_row),
                                LIST_NOT_UPDATED_ERROR_MESSAGE@,
                                recording,
                            ));
                            law_update_creation_information(
                                after,
                                row.creation_information_uuid,
                                creator,
                                now,
                            );
                        },
                    },
                    _ => {},
                }
            },
        },
        Some(_) => {},
    }
}

} // verus!
