//! The operations against a store in memory: each runs from its first request
//! to its result, and its contract says in full what the store holds
//! afterwards and what is handed out.

use vstd::prelude::*;
use crate::errors::{ServiceError, ServiceErrorView};
use crate::identifiers::is_random_uuid;
use crate::models::database::{CreationInformationRow, ListRow, TaskRow, UserRow};
use crate::models::graphql::{
    AddTaskInput,
    CreateCreationInformationInput,
    CreateListInput,
    CreateTaskInput,
    CreateUserInput,
    UpdateCreationInformationInput,
    UpdateListInput,
};
use crate::services::creation_information_service::CreationInformationService;
use crate::services::list_service::ListService;
use crate::services::operation::{
    clock_failure,
    lemma_run_done,
    run_in_memory,
    OperationView,
    Outcome,
    OutcomeView,
    CLOCK_OUT_OF_RANGE_MESSAGE,
};
use crate::services::outcomes::{
    add_new_task_outcome,
    add_task_outcome,
    create_creation_information_outcome,
    create_list_outcome,
    create_task_outcome,
    create_user_outcome,
    law_add_new_task,
    law_add_task,
    law_create_creation_information,
    law_create_list,
    law_create_task,
    law_create_user,
    law_update_creation_information,
    law_update_list,
    update_creation_information_outcome,
    update_list_outcome,
};
use crate::services::protocol::{internal_error, internal_failure, UNEXPECTED_REPLY_MESSAGE};
use crate::services::task_service::TaskService;
use crate::services::user_service::{CreateUserView, UserService};
use crate::store::{MemoryStore, StoreView};
use crate::text::owned;
use crate::timestamps::Timestamp;

verus! {

/// What an operation comes to where the clock shows a time that cannot be
/// recorded: the service's own fault, and the store as it was.
pub open spec fn clock_outcome(store: StoreView) -> (
    StoreView,
    Result<OutcomeView, ServiceErrorView>,
) {
    (store, Err(internal_failure(CLOCK_OUT_OF_RANGE_MESSAGE@)))
}

/// A user's row, or a failure, as the result of an operation.
pub open spec fn user_result(result: Result<UserRow, ServiceError>) -> Result<
    OutcomeView,
    ServiceErrorView,
> {
    match result {
        Ok(row) => Ok(OutcomeView::User(row@)),
        Err(err) => Err(err@),
    }
}

/// An audit record's row, or a failure, as the result of an operation.
pub open spec fn creation_information_result(
    result: Result<CreationInformationRow, ServiceError>,
) -> Result<OutcomeView, ServiceErrorView> {
    match result {
        Ok(row) => Ok(OutcomeView::CreationInformation(row@)),
        Err(err) => Err(err@),
    }
}

/// A list's row, or a failure, as the result of an operation.
pub open spec fn list_result(result: Result<ListRow, ServiceError>) -> Result<
    OutcomeView,
    ServiceErrorView,
> {
    match result {
        Ok(row) => Ok(OutcomeView::List(row@)),
        Err(err) => Err(err@),
    }
}

/// A task's row, or a failure, as the result of an operation.
pub open spec fn task_result(result: Result<TaskRow, ServiceError>) -> Result<
    OutcomeView,
    ServiceErrorView,
> {
    match result {
        Ok(row) => Ok(OutcomeView::Task(row@)),
        Err(err) => Err(err@),
    }
}

fn user_of(outcome: Result<Outcome, ServiceError>) -> (result: Result<UserRow, ServiceError>)
    requires
        outcome matches Ok(made) ==> made is User,
    ensures
        user_result(result) == crate::services::operation::result_view(outcome),
{
    match outcome {
        Ok(Outcome::User(row)) => Ok(row),
        Ok(_) => Err(internal_error(owned(UNEXPECTED_REPLY_MESSAGE))),
        Err(err) => Err(err),
    }
}

fn creation_information_of(outcome: Result<Outcome, ServiceError>) -> (result: Result<
    CreationInformationRow,
    ServiceError,
>)
    requires
        outcome matches Ok(made) ==> made is CreationInformation,
    ensures
        creation_information_result(result) == crate::services::operation::result_view(outcome),
{
    match outcome {
        Ok(Outcome::CreationInformation(row)) => Ok(row),
        Ok(_) => Err(internal_error(owned(UNEXPECTED_REPLY_MESSAGE))),
        Err(err) => Err(err),
    }
}

fn list_of(outcome: Result<Outcome, ServiceError>) -> (result: Result<ListRow, ServiceError>)
    requires
        outcome matches Ok(made) ==> made is List,
    ensures
        list_result(result) == crate::services::operation::result_view(outcome),
{
    match outcome {
        Ok(Outcome::List(row)) => Ok(row),
        Ok(_) => Err(internal_error(owned(UNEXPECTED_REPLY_MESSAGE))),
        Err(err) => Err(err),
    }
}

fn task_of(outcome: Result<Outcome, ServiceError>) -> (result: Result<TaskRow, ServiceError>)
    requires
        outcome matches Ok(made) ==> made is Task,
    ensures
        task_result(result) == crate::services::operation::result_view(outcome),
{
    match outcome {
        Ok(Outcome::Task(row)) => Ok(row),
        Ok(_) => Err(internal_error(owned(UNEXPECTED_REPLY_MESSAGE))),
        Err(err) => Err(err),
    }
}

/// Creates a user in the store. See `create_user_outcome`.
pub fn create_user(service: &UserService, store: &mut MemoryStore, input: CreateUserInput) -> (result:
    Result<UserRow, ServiceError>)
    ensures
        exists|uuid: u128|
            is_random_uuid(uuid) && (final(store)@, user_result(result)) == #[trigger] create_user_outcome(
                old(store)@,
                input@,
                uuid,
                service.salt(),
            ),
{
    let ghost before = store@;
    let ghost described = input@;
    let turn = service.create_user(input);
    let ghost uuid = choose|uuid: u128|
        is_random_uuid(uuid) && turn@ == OperationView::create_user(
            CreateUserView::begin(described, uuid, service.salt()),
        );
    proof {
        law_create_user(before, described, uuid, service.salt());
    }
    user_of(run_in_memory(turn, store))
}

/// Creates an audit record in the store. See
/// `create_creation_information_outcome`.
pub fn create_creation_information(
    service: &CreationInformationService,
    store: &mut MemoryStore,
    input: CreateCreationInformationInput,
) -> (result: Result<CreationInformationRow, ServiceError>)
    ensures
        (final(store)@, creation_information_result(result)) == clock_outcome(old(store)@)
            || exists|uuid: u128, now: Timestamp|
            is_random_uuid(uuid) && now.is_valid() && (
            final(store)@,
            creation_information_result(result),
        ) == #[trigger] create_creation_information_outcome(old(store)@, input@, uuid, now),
{
    let ghost before = store@;
    let ghost described = input@;
    let turn = service.create_creation_information(input);
    proof {
        if turn@ == clock_failure() {
            lemma_run_done(Err(internal_failure(CLOCK_OUT_OF_RANGE_MESSAGE@)), before);
        } else {
            let (uuid, now) = choose|uuid: u128, now: Timestamp|
                CreationInformationService::creates(described, uuid, now, turn@);
            law_create_creation_information(before, described, uuid, now);
        }
    }
    creation_information_of(run_in_memory(turn, store))
}

/// Records an edit in the store. See `update_creation_information_outcome`.
pub fn update_creation_information(
    service: &CreationInformationService,
    store: &mut MemoryStore,
    uuid: &String,
    input: UpdateCreationInformationInput,
) -> (result: Result<CreationInformationRow, ServiceError>)
    ensures
        (final(store)@, creation_information_result(result)) == clock_outcome(old(store)@)
            || exists|now: Timestamp|
            now.is_valid() && (final(store)@, creation_information_result(result))
                == #[trigger] update_creation_information_outcome(old(store)@, uuid@, input@, now),
{
    let ghost before = store@;
    let ghost described = input@;
    let turn = service.update_creation_information(uuid, input);
    proof {
        if turn@ == clock_failure() {
            lemma_run_done(Err(internal_failure(CLOCK_OUT_OF_RANGE_MESSAGE@)), before);
        } else {
            let now = choose|now: Timestamp|
                CreationInformationService::updates(uuid@, described, now, turn@);
            law_update_creation_information(before, uuid@, described, now);
            crate::store::lemma_find(before, crate::errors::EntityKind::CreationInformation, uuid@);
        }
    }
    creation_information_of(run_in_memory(turn, store))
}

/// Creates a task in the store. See `create_task_outcome`.
pub fn create_task(
    store: &mut MemoryStore,
    creator: CreateCreationInformationInput,
    input: CreateTaskInput,
) -> (result: Result<TaskRow, ServiceError>)
    ensures
        (final(store)@, task_result(result)) == clock_outcome(old(store)@) || exists|
            creation_information_uuid: u128,
            task_uuid: u128,
            now: Timestamp,
        |
            is_random_uuid(creation_information_uuid) && is_random_uuid(task_uuid) && now.is_valid()
                && (final(store)@, task_result(result)) == #[trigger] create_task_outcome(
                old(store)@,
                creator@,
                input@,
                creation_information_uuid,
                task_uuid,
                now,
            ),
{
    let ghost before = store@;
    let ghost described = input@;
    let ghost by = creator@;
    let turn = TaskService::create_task(creator, input);
    proof {
        if turn@ == clock_failure() {
            lemma_run_done(Err(internal_failure(CLOCK_OUT_OF_RANGE_MESSAGE@)), before);
        } else {
            let (creation_information_uuid, task_uuid, now) = choose|
                creation_information_uuid: u128,
                task_uuid: u128,
                now: Timestamp,
            |
                TaskService::creates(
                    by,
                    described,
                    creation_information_uuid,
                    task_uuid,
                    now,
                    turn@,
                );
            law_create_task(before, by, described, creation_information_uuid, task_uuid, now);
        }
    }
    task_of(run_in_memory(turn, store))
}

/// Creates a list in the store. See `create_list_outcome`.
pub fn create_list(
    store: &mut MemoryStore,
    creator: CreateCreationInformationInput,
    input: CreateListInput,
) -> (result: Result<ListRow, ServiceError>)
    ensures
        (final(store)@, list_result(result)) == clock_outcome(old(store)@) || exists|
            creation_information_uuid: u128,
            list_uuid: u128,
            now: Timestamp,
        |
            is_random_uuid(creation_information_uuid) && is_random_uuid(list_uuid) && now.is_valid()
                && (final(store)@, list_result(result)) == #[trigger] create_list_outcome(
                old(store)@,
                creator@,
                input@,
                creation_information_uuid,
                list_uuid,
                now,
            ),
{
    let ghost before = store@;
    let ghost described = input@;
    let ghost by = creator@;
    let turn = ListService::create_list(creator, input);
    proof {
        if turn@ == clock_failure() {
            lemma_run_done(Err(internal_failure(CLOCK_OUT_OF_RANGE_MESSAGE@)), before);
        } else {
            let (creation_information_uuid, list_uuid, now) = choose|
                creation_information_uuid: u128,
                list_uuid: u128,
                now: Timestamp,
            |
                ListService::creates(
                    by,
                    described,
                    creation_information_uuid,
                    list_uuid,
                    now,
                    turn@,
                );
            law_create_list(before, by, described, creation_information_uuid, list_uuid, now);
        }
    }
    list_of(run_in_memory(turn, store))
}

/// Revises a list in the store. See `update_list_outcome`.
pub fn update_list(
    store: &mut MemoryStore,
    editor: UpdateCreationInformationInput,
    input: UpdateListInput,
) -> (result: Result<ListRow, ServiceError>)
    ensures
        (final(store)@, list_result(result)) == clock_outcome(old(store)@) || exists|now: Timestamp|
            now.is_valid() && (final(store)@, list_result(result))
                == #[trigger] update_list_outcome(old(store)@, editor@, input@, now),
{
    let ghost before = store@;
    let ghost described = input@;
    let ghost by = editor@;
    let turn = ListService::update_list(editor, input);
    proof {
        if turn@ == clock_failure() {
            lemma_run_done(Err(internal_failure(CLOCK_OUT_OF_RANGE_MESSAGE@)), before);
        } else {
            let now = choose|now: Timestamp| ListService::updates(by, described, now, turn@);
            law_update_list(before, by, described, now);
        }
    }
    list_of(run_in_memory(turn, store))
}

/// Puts an existing task on a list in the store. See `add_task_outcome`.
pub fn add_task(store: &mut MemoryStore, input: AddTaskInput) -> (result: Result<
    ListRow,
    ServiceError,
>)
    ensures
        (final(store)@, list_result(result)) == clock_outcome(old(store)@) || exists|now: Timestamp|
            now.is_valid() && (final(store)@, list_result(result)) == #[trigger] add_task_outcome(
                old(store)@,
                input@,
                now,
            ),
{
    let ghost before = store@;
    let ghost described = input@;
    let turn = ListService::add_task(input);
    proof {
        if turn@ == clock_failure() {
            lemma_run_done(Err(internal_failure(CLOCK_OUT_OF_RANGE_MESSAGE@)), before);
        } else {
            let now = choose|now: Timestamp| ListService::links(described, now, turn@);
            law_add_task(before, described, now);
        }
    }
    list_of(run_in_memory(turn, store))
}

/// Creates a task and puts it on a list in the store. See
/// `add_new_task_outcome`.
pub fn add_new_task(
    store: &mut MemoryStore,
    creator: CreateCreationInformationInput,
    input: CreateTaskInput,
) -> (result: Result<TaskRow, ServiceError>)
    ensures
        (final(store)@, task_result(result)) == clock_outcome(old(store)@) || exists|
            creation_information_uuid: u128,
            task_uuid: u128,
            now: Timestamp,
        |
            is_random_uuid(creation_information_uuid) && is_random_uuid(task_uuid) && now.is_valid()
                && (final(store)@, task_result(result)) == #[trigger] add_new_task_outcome(
                old(store)@,
                creator@,
                input@,
                creation_information_uuid,
                task_uuid,
                now,
            ),
{
    let ghost before = store@;
    let ghost described = input@;
    let ghost by = creator@;
    let turn = ListService::add_new_task(creator, input);
    proof {
        if turn@ == clock_failure() {
            lemma_run_done(Err(internal_failure(CLOCK_OUT_OF_RANGE_MESSAGE@)), before);
        } else {
            let (creation_information_uuid, task_uuid, now) = choose|
                creation_information_uuid: u128,
                task_uuid: u128,
                now: Timestamp,
            |
                ListService::adds(by, described, creation_information_uuid, task_uuid, now, turn@);
            law_add_new_task(before, by, described, creation_information_uuid, task_uuid, now);
            law_create_task(before, by, described, creation_information_uuid, task_uuid, now);
        }
    }
    task_of(run_in_memory(turn, store))
}

} // verus!
