//! Lists: creating one, revising one, putting a new task on one, and looking
//! lists up.

use vstd::prelude::*;
use crate::constants::{
    LIST_NOT_CREATED_ERROR_MESSAGE,
    LIST_NOT_UPDATED_ERROR_MESSAGE,
    TASK_NOT_ADDED_ERROR_MESSAGE,
};
use crate::errors::{Cause, CauseView, EntityKind, ServiceError};
use crate::models::creation_information::CreationInformation;
use crate::models::database::{
    CreationInformationRow,
    CreationInformationRowView,
    ListRow,
    ListRowView,
    TaskRow,
    TaskRowView,
};
use crate::models::graphql::{
    AddTaskInput,
    AddTaskInputView,
    CreateListInput,
    CreateListInputView,
    CreateTaskInput,
    CreateTaskInputView,
    UpdateCreationInformationInput,
    UpdateListInput,
    UpdateListInputView,
};
use crate::models::list::{List, ListView};
use crate::models::task::{Task, TaskView};
use crate::models::utilities::{parse_uuid, uuid_reading};
use crate::services::creation_information_service::{
    UpdateCreationInformation,
    UpdateCreationInformationView,
};
use crate::identifiers::{is_random_uuid, random_uuid};
use crate::models::graphql::CreateCreationInformationInput;
use crate::services::operation::{
    clock_failed,
    clock_failure,
    Operation,
    OperationView,
    Outcome,
    OutcomeView,
    Question,
};
use crate::services::protocol::{
    failure,
    internal_error,
    internal_failure,
    push_reference,
    push_references,
    reference_to,
    references_to,
    reply_error,
    reply_failure,
    validation_error,
    CheckReferences,
    CheckReferencesView,
    Reference,
    Turn,
    TurnView,
    WriteRow,
    WriteRowView,
    UNEXPECTED_REPLY_MESSAGE,
};
use crate::services::task_service::{CreateTask, CreateTaskView};
use crate::store::{Row, RowView, StoreReply, StoreReplyView, StoreRequest, StoreRequestView};
use crate::text::{copy_optional, owned};
use crate::timestamps::Timestamp;

verus! {

/// The creation of a list: it is checked that all that the list refers to
/// exists, then the list's audit record is written and read back, then the
/// list's row.
#[derive(Debug)]
pub enum CreateList {
    Checking { inner: CheckReferences, information: CreationInformation, list: List },
    Audit { inner: WriteRow, list: List },
    Writing { inner: WriteRow },
}

/// A `CreateList` as specifications see it.
pub enum CreateListView {
    Checking { inner: CheckReferencesView, information: CreationInformation, list: ListView },
    Audit { inner: WriteRowView, list: ListView },
    Writing { inner: WriteRowView },
}

impl View for CreateList {
    type V = CreateListView;

    open spec fn view(&self) -> CreateListView {
        match self {
            CreateList::Checking { inner, information, list } => CreateListView::Checking {
                inner: inner@,
                information: *information,
                list: list@,
            },
            CreateList::Audit { inner, list } => CreateListView::Audit { inner: inner@, list: list@ },
            CreateList::Writing { inner } => CreateListView::Writing { inner: inner@ },
        }
    }
}

impl CreateListView {
    /// The number of requests that are still open.
    pub open spec fn steps_left(self) -> nat {
        match self {
            CreateListView::Checking { inner, .. } => inner.steps_left() + 4,
            CreateListView::Audit { inner, .. } => inner.steps_left() + 2,
            CreateListView::Writing { inner } => inner.steps_left(),
        }
    }

    /// What the list refers to, in the order in which it is checked: its
    /// creator, the list above it, the users it is shared with, its tasks,
    /// the lists below it.
    pub open spec fn references(information: CreationInformation, list: ListView) -> Seq<Reference> {
        seq![Reference { entity: EntityKind::User, uuid: information.creator_user_uuid }]
            + reference_to(EntityKind::List, list.parent_list_uuid) + references_to(
            EntityKind::User,
            list.shared_with_user_uuids,
        ) + references_to(EntityKind::Task, list.task_uuids) + references_to(
            EntityKind::List,
            list.sub_list_uuids,
        )
    }

    /// What follows from a turn of the writing of the list.
    pub open spec fn after_writing(turn: TurnView<WriteRowView, RowView>) -> TurnView<
        CreateListView,
        ListRowView,
    > {
        match turn {
            TurnView::Ask { state, request } => TurnView::Ask {
                state: CreateListView::Writing { inner: state },
                request,
            },
            TurnView::Done { result: Ok(RowView::List(row)) } => TurnView::Done { result: Ok(row) },
            TurnView::Done { result: Ok(_) } => TurnView::Done {
                result: Err(internal_failure(UNEXPECTED_REPLY_MESSAGE@)),
            },
            TurnView::Done { result: Err(err) } => TurnView::Done {
                result: Err(err.under(LIST_NOT_CREATED_ERROR_MESSAGE@)),
            },
        }
    }

    /// What follows from a turn of the writing of the audit record: once the
    /// record is read back, the list is written with the identifier that the
    /// record's row holds. A row whose identifier cannot be read is the
    /// service's own fault.
    pub open spec fn after_audit(turn: TurnView<WriteRowView, RowView>, list: ListView) -> TurnView<
        CreateListView,
        ListRowView,
    > {
        match turn {
            TurnView::Ask { state, request } => TurnView::Ask {
                state: CreateListView::Audit { inner: state, list },
                request,
            },
            TurnView::Done { result: Ok(RowView::CreationInformation(row)) } => match uuid_reading(
                row.uuid,
            ) {
                Err(details) => TurnView::Done { result: Err(internal_failure(details)) },
                Ok(uuid) => CreateListView::after_writing(
                    WriteRowView::begin(
                        RowView::List(
                            ListRowView::of(ListView { creation_information_uuid: uuid, ..list }),
                        ),
                    ),
                ),
            },
            TurnView::Done { result: Ok(_) } => TurnView::Done {
                result: Err(internal_failure(UNEXPECTED_REPLY_MESSAGE@)),
            },
            TurnView::Done { result: Err(err) } => TurnView::Done {
                result: Err(err.under(LIST_NOT_CREATED_ERROR_MESSAGE@)),
            },
        }
    }

    /// What follows from a turn of the check: once all that the list refers
    /// to is known to exist, the audit record is written.
    pub open spec fn after_checking(
        turn: TurnView<CheckReferencesView, ()>,
        information: CreationInformation,
        list: ListView,
    ) -> TurnView<CreateListView, ListRowView> {
        match turn {
            TurnView::Ask { state, request } => TurnView::Ask {
                state: CreateListView::Checking { inner: state, information, list },
                request,
            },
            TurnView::Done { result: Ok(_) } => CreateListView::after_audit(
                WriteRowView::begin(
                    RowView::CreationInformation(CreationInformationRowView::of(information)),
                ),
                list,
            ),
            TurnView::Done { result: Err(err) } => TurnView::Done {
                result: Err(err.under(LIST_NOT_CREATED_ERROR_MESSAGE@)),
            },
        }
    }

    /// The creation of the list that the input describes, by the user that
    /// `creator` names, at `now`. A malformed input ends it at once: first
    /// the creator is read, then the list.
    pub open spec fn begin(
        creator: Seq<char>,
        input: CreateListInputView,
        creation_information_uuid: u128,
        list_uuid: u128,
        now: Timestamp,
    ) -> TurnView<CreateListView, ListRowView> {
        match CreationInformation::created(creator, creation_information_uuid, now) {
            Err(details) => TurnView::Done {
                result: Err(
                    failure(LIST_NOT_CREATED_ERROR_MESSAGE@, CauseView::Validation { details }),
                ),
            },
            Ok(information) => match ListView::created(input, creation_information_uuid, list_uuid) {
                Err(details) => TurnView::Done {
                    result: Err(
                        failure(LIST_NOT_CREATED_ERROR_MESSAGE@, CauseView::Validation { details }),
                    ),
                },
                Ok(list) => CreateListView::after_checking(
                    CheckReferencesView::begin(CreateListView::references(information, list)),
                    information,
                    list,
                ),
            },
        }
    }

    /// How the creation goes on after an answer.
    pub open spec fn resume(self, reply: StoreReplyView) -> TurnView<CreateListView, ListRowView> {
        match self {
            CreateListView::Checking { inner, information, list } => CreateListView::after_checking(
                inner.resume(reply),
                information,
                list,
            ),
            CreateListView::Audit { inner, list } => CreateListView::after_audit(
                inner.resume(reply),
                list,
            ),
            CreateListView::Writing { inner } => CreateListView::after_writing(inner.resume(reply)),
        }
    }

    /// A creation that goes on has fewer requests open than before.
    pub proof fn lemma_progress(self, reply: StoreReplyView)
        ensures
            self.resume(reply) matches TurnView::Ask { state, .. } ==> state.steps_left()
                < self.steps_left(),
    {
        match self {
            CreateListView::Checking { inner, .. } => {
                inner.lemma_progress(reply);
            },
            CreateListView::Audit { inner, .. } => {
                inner.lemma_progress(reply);
            },
            CreateListView::Writing { inner } => {
                inner.lemma_progress(reply);
            },
        }
    }
}

impl CreateList {
    fn after_writing(turn: Turn<WriteRow, Row>) -> (next: Turn<CreateList, ListRow>)
        ensures
            next@ == CreateListView::after_writing(turn@),
    {
        match turn {
            Turn::Ask { state, request } => Turn::Ask {
                state: CreateList::Writing { inner: state },
                request,
            },
            Turn::Done { result: Ok(Row::List(row)) } => Turn::Done { result: Ok(row) },
            Turn::Done { result: Ok(_) } => Turn::Done {
                result: Err(internal_error(owned(UNEXPECTED_REPLY_MESSAGE))),
            },
            Turn::Done { result: Err(err) } => Turn::Done {
                result: Err(err.under(LIST_NOT_CREATED_ERROR_MESSAGE)),
            },
        }
    }

    fn after_audit(turn: Turn<WriteRow, Row>, list: List) -> (next: Turn<CreateList, ListRow>)
        ensures
            next@ == CreateListView::after_audit(turn@, list@),
    {
        match turn {
            Turn::Ask { state, request } => Turn::Ask {
                state: CreateList::Audit { inner: state, list },
                request,
            },
            Turn::Done { result: Ok(Row::CreationInformation(creation_information_row)) } => {
                match parse_uuid(&creation_information_row.uuid) {
                    Err(err) => Turn::Done { result: Err(internal_error(err)) },
                    Ok(creation_information_uuid) => {
                        let mut new_list = list;
                        new_list.creation_information_uuid = creation_information_uuid;
                        match ListRow::from_list(new_list) {
                            Ok(new_list_row) => CreateList::after_writing(
                                WriteRow::begin(Row::List(new_list_row)),
                            ),
                            Err(err) => Turn::Done { result: Err(internal_error(err)) },
                        }
                    },
                }
            },
            Turn::Done { result: Ok(_) } => Turn::Done {
                result: Err(internal_error(owned(UNEXPECTED_REPLY_MESSAGE))),
            },
            Turn::Done { result: Err(err) } => Turn::Done {
                result: Err(err.under(LIST_NOT_CREATED_ERROR_MESSAGE)),
            },
        }
    }

    fn after_checking(turn: Turn<CheckReferences, ()>, information: CreationInformation, list: List) -> (next:
        Turn<CreateList, ListRow>)
        ensures
            next@ == CreateListView::after_checking(turn@, information, list@),
    {
        match turn {
            Turn::Ask { state, request } => Turn::Ask {
                state: CreateList::Checking { inner: state, information, list },
                request,
            },
            Turn::Done { result: Ok(_) } => {
                let creation_information_row = CreationInformationRow::from_creation_information(
                    information,
                );
                CreateList::after_audit(
                    WriteRow::begin(Row::CreationInformation(creation_information_row)),
                    list,
                )
            },
            Turn::Done { result: Err(err) } => Turn::Done {
                result: Err(err.under(LIST_NOT_CREATED_ERROR_MESSAGE)),
            },
        }
    }

    /// Begins the creation of the list that the input describes, by the
    /// user that `creator` names, at `now`; the list gets the identifier
    /// `list_uuid` and its audit record `creation_information_uuid`.
    pub fn begin(
        creator: &String,
        input: CreateListInput,
        creation_information_uuid: u128,
        list_uuid: u128,
        now: Timestamp,
    ) -> (turn: Turn<CreateList, ListRow>)
        ensures
            turn@ == CreateListView::begin(
                creator@,
                input@,
                creation_information_uuid,
                list_uuid,
                now,
            ),
    {
        match CreationInformation::from_creation_text(creator, creation_information_uuid, now) {
            Err(err) => Turn::Done {
                result: Err(validation_error(LIST_NOT_CREATED_ERROR_MESSAGE, err)),
            },
            Ok(information) => {
                match List::from_create_list_input(input, creation_information_uuid, list_uuid) {
                    Err(err) => Turn::Done {
                        result: Err(validation_error(LIST_NOT_CREATED_ERROR_MESSAGE, err)),
                    },
                    Ok(new_list) => {
                        let mut references: Vec<Reference> = Vec::new();
                        references.push(
                            Reference {
                                entity: EntityKind::User,
                                uuid: information.creator_user_uuid,
                            },
                        );
                        assert(references@ =~= seq![
                            Reference {
                                entity: EntityKind::User,
                                uuid: information.creator_user_uuid,
                            },
                        ]);
                        push_reference(&mut references, EntityKind::List, &new_list.parent_list_uuid);
                        push_references(
                            &mut references,
                            EntityKind::User,
                            &new_list.shared_with_user_uuids,
                        );
                        push_references(&mut references, EntityKind::Task, &new_list.task_uuids);
                        push_references(&mut references, EntityKind::List, &new_list.sub_list_uuids);
                        CreateList::after_checking(
                            CheckReferences::begin(references),
                            information,
                            new_list,
                        )
                    },
                }
            },
        }
    }

    /// Goes on after the store's answer.
    pub fn resume(self, reply: StoreReply) -> (turn: Turn<CreateList, ListRow>)
        ensures
            turn@ == self@.resume(reply@),
    {
        match self {
            CreateList::Checking { inner, information, list } => CreateList::after_checking(
                inner.resume(reply),
                information,
                list,
            ),
            CreateList::Audit { inner, list } => CreateList::after_audit(inner.resume(reply), list),
            CreateList::Writing { inner } => CreateList::after_writing(inner.resume(reply)),
        }
    }
}

/// The revision of a list: the list is looked for, its title, description and
/// colour are written, and the edit is recorded in the list's audit record.
#[derive(Debug)]
pub enum UpdateList {
    Finding { input: UpdateListInput, editor: String, now: Timestamp },
    Updating { row: ListRow, editor: String, now: Timestamp },
    Audit { inner: UpdateCreationInformation, row: ListRow },
}

/// An `UpdateList` as specifications see it.
pub enum UpdateListView {
    Finding { input: UpdateListInputView, editor: Seq<char>, now: Timestamp },
    Updating { row: ListRowView, editor: Seq<char>, now: Timestamp },
    Audit { inner: UpdateCreationInformationView, row: ListRowView },
}

impl View for UpdateList {
    type V = UpdateListView;

    open spec fn view(&self) -> UpdateListView {
        match self {
            UpdateList::Finding { input, editor, now } => UpdateListView::Finding {
                input: input@,
                editor: editor@,
                now: *now,
            },
            UpdateList::Updating { row, editor, now } => UpdateListView::Updating {
                row: row@,
                editor: editor@,
                now: *now,
            },
            UpdateList::Audit { inner, row } => UpdateListView::Audit { inner: inner@, row: row@ },
        }
    }
}

impl UpdateListView {
    /// The number of requests that are still open.
    pub open spec fn steps_left(self) -> nat {
        match self {
            UpdateListView::Finding { .. } => 5,
            UpdateListView::Updating { .. } => 4,
            UpdateListView::Audit { inner, .. } => inner.steps_left(),
        }
    }

    /// The request that writes title, description and colour of a list.
    pub open spec fn write(row: ListRowView) -> StoreRequestView {
        StoreRequestView::UpdateList {
            uuid: row.uuid,
            title: row.title,
            description: row.description,
            color_hex: row.color_hex,
        }
    }

    /// What follows from a turn of the recording of the edit: once it is
    /// recorded, the revised row is the result.
    pub open spec fn after_audit(
        turn: TurnView<UpdateCreationInformationView, CreationInformationRowView>,
        row: ListRowView,
    ) -> TurnView<UpdateListView, ListRowView> {
        match turn {
            TurnView::Ask { state, request } => TurnView::Ask {
                state: UpdateListView::Audit { inner: state, row },
                request,
            },
            TurnView::Done { result: Ok(_) } => TurnView::Done { result: Ok(row) },
            TurnView::Done { result: Err(err) } => TurnView::Done {
                result: Err(err.under(LIST_NOT_UPDATED_ERROR_MESSAGE@)),
            },
        }
    }

    /// The revision that the input describes, at `now`, by the user that
    /// `editor` names.
    pub open spec fn begin(editor: Seq<char>, input: UpdateListInputView, now: Timestamp) -> TurnView<
        UpdateListView,
        ListRowView,
    > {
        TurnView::Ask {
            state: UpdateListView::Finding { input, editor, now },
            request: StoreRequestView::Find { entity: EntityKind::List, uuid: input.uuid },
        }
    }

    /// How the revision goes on after an answer. A list that the store does
    /// not hold ends it; a row that cannot be read is the service's own
    /// fault; a colour that is none is refused before anything is written.
    pub open spec fn resume(self, reply: StoreReplyView) -> TurnView<UpdateListView, ListRowView> {
        match self {
            UpdateListView::Finding { input, editor, now } => match reply {
                StoreReplyView::Found { row: Some(RowView::List(row)) } => match ListView::of_row(
                    row,
                ) {
                    Err(details) => TurnView::Done { result: Err(internal_failure(details)) },
                    Ok(list) => match list.revised(input) {
                        Err(details) => TurnView::Done {
                            result: Err(
                                failure(
                                    LIST_NOT_UPDATED_ERROR_MESSAGE@,
                                    CauseView::Validation { details },
                                ),
                            ),
                        },
                        Ok(revised) => TurnView::Ask {
                            state: UpdateListView::Updating {
                                row: ListRowView::of(revised),
                                editor,
                                now,
                            },
                            request: UpdateListView::write(ListRowView::of(revised)),
                        },
                    },
                },
                StoreReplyView::Found { row: None } => TurnView::Done {
                    result: Err(
                        failure(
                            LIST_NOT_UPDATED_ERROR_MESSAGE@,
                            CauseView::NotFound { entity: EntityKind::List, uuid: input.uuid },
                        ),
                    ),
                },
                _ => TurnView::Done {
                    result: Err(reply_failure(LIST_NOT_UPDATED_ERROR_MESSAGE@, reply)),
                },
            },
            UpdateListView::Updating { row, editor, now } => match reply {
                StoreReplyView::Written => UpdateListView::after_audit(
                    UpdateCreationInformationView::begin(row.creation_information_uuid, editor, now),
                    row,
                ),
                _ => TurnView::Done {
                    result: Err(reply_failure(LIST_NOT_UPDATED_ERROR_MESSAGE@, reply)),
                },
            },
            UpdateListView::Audit { inner, row } => UpdateListView::after_audit(
                inner.resume(reply),
                row,
            ),
        }
    }

    /// A revision that goes on has fewer requests open than before.
    pub proof fn lemma_progress(self, reply: StoreReplyView)
        ensures
            self.resume(reply) matches TurnView::Ask { state, .. } ==> state.steps_left()
                < self.steps_left(),
    {
        match self {
            UpdateListView::Audit { inner, .. } => {
                inner.lemma_progress(reply);
            },
            _ => {},
        }
    }
}

impl UpdateList {
    fn after_audit(turn: Turn<UpdateCreationInformation, CreationInformationRow>, row: ListRow) -> (next:
        Turn<UpdateList, ListRow>)
        ensures
            next@ == UpdateListView::after_audit(turn@, row@),
    {
        match turn {
            Turn::Ask { state, request } => Turn::Ask {
                state: UpdateList::Audit { inner: state, row },
                request,
            },
            Turn::Done { result: Ok(_) } => Turn::Done { result: Ok(row) },
            Turn::Done { result: Err(err) } => Turn::Done {
                result: Err(err.under(LIST_NOT_UPDATED_ERROR_MESSAGE)),
            },
        }
    }

    /// Begins the revision that the input describes, at `now`, by the user
    /// that `update_creation_information_input` names.
    pub fn begin(
        update_creation_information_input: UpdateCreationInformationInput,
        update_list_input: UpdateListInput,
        now: Timestamp,
    ) -> (turn: Turn<UpdateList, ListRow>)
        ensures
            turn@ == UpdateListView::begin(
                update_creation_information_input@,
                update_list_input@,
                now,
            ),
    {
        let request = StoreRequest::Find {
            entity: EntityKind::List,
            uuid: update_list_input.uuid.clone(),
        };
        Turn::Ask {
            state: UpdateList::Finding {
                input: update_list_input,
                editor: update_creation_information_input.last_updated_by_user_uuid,
                now,
            },
            request,
        }
    }

    /// Goes on after the store's answer.
    pub fn resume(self, reply: StoreReply) -> (turn: Turn<UpdateList, ListRow>)
        ensures
            turn@ == self@.resume(reply@),
    {
        match self {
            UpdateList::Finding { input, editor, now } => match reply {
                StoreReply::Found { row: Some(Row::List(list_row)) } => {
                    match List::from_list_row(list_row) {
                        Err(err) => Turn::Done { result: Err(internal_error(err)) },
                        Ok(list) => {
                            match list.revise(input) {
                                Err(err) => Turn::Done {
                                    result: Err(
                                        validation_error(LIST_NOT_UPDATED_ERROR_MESSAGE, err),
                                    ),
                                },
                                Ok(revised) => {
                                    match ListRow::from_list(revised) {
                                        Err(err) => Turn::Done { result: Err(internal_error(err)) },
                                        Ok(updated_list_row) => {
                                            let request = StoreRequest::UpdateList {
                                                uuid: updated_list_row.uuid.clone(),
                                                title: updated_list_row.title.clone(),
                                                description: copy_optional(
                                                    &updated_list_row.description,
                                                ),
                                                color_hex: copy_optional(
                                                    &updated_list_row.color_hex,
                                                ),
                                            };
                                            Turn::Ask {
                                                state: UpdateList::Updating {
                                                    row: updated_list_row,
                                                    editor,
                                                    now,
                                                },
                                                request,
                                            }
                                        },
                                    }
                                },
                            }
                        },
                    }
                },
                StoreReply::Found { row: None } => Turn::Done {
                    result: Err(
                        ServiceError::new(
                            LIST_NOT_UPDATED_ERROR_MESSAGE,
                            Cause::NotFound { entity: EntityKind::List, uuid: input.uuid },
                        ),
                    ),
                },
                other => Turn::Done {
                    result: Err(reply_error(LIST_NOT_UPDATED_ERROR_MESSAGE, other)),
                },
            },
            UpdateList::Updating { row, editor, now } => match reply {
                StoreReply::Written => {
                    let turn = UpdateCreationInformation::begin(
                        &row.creation_information_uuid,
                        UpdateCreationInformationInput { last_updated_by_user_uuid: editor },
                        now,
                    );
                    UpdateList::after_audit(turn, row)
                },
                other => Turn::Done {
                    result: Err(reply_error(LIST_NOT_UPDATED_ERROR_MESSAGE, other)),
                },
            },
            UpdateList::Audit { inner, row } => UpdateList::after_audit(inner.resume(reply), row),
        }
    }
}

/// The addition of a new task to a list: the list is looked for, the task is
/// created, the task's identifier is put at the end of the list's tasks and
/// written, and the edit is recorded in the list's audit record in the name of
/// the task's creator. A step that fails ends the addition; what earlier
/// steps wrote stays written.
#[derive(Debug)]
pub enum AddNewTask {
    Finding {
        creator: String,
        input: CreateTaskInput,
        creation_information_uuid: u128,
        task_uuid: u128,
        now: Timestamp,
    },
    Creating { inner: CreateTask, list: List, editor: String, now: Timestamp },
    Linking { task_row: TaskRow, list_row: ListRow, editor: String, now: Timestamp },
    Audit { inner: UpdateCreationInformation, task_row: TaskRow },
}

/// An `AddNewTask` as specifications see it.
pub enum AddNewTaskView {
    Finding {
        creator: Seq<char>,
        input: CreateTaskInputView,
        creation_information_uuid: u128,
        task_uuid: u128,
        now: Timestamp,
    },
    Creating { inner: CreateTaskView, list: ListView, editor: Seq<char>, now: Timestamp },
    Linking { task_row: TaskRowView, list_row: ListRowView, editor: Seq<char>, now: Timestamp },
    Audit { inner: UpdateCreationInformationView, task_row: TaskRowView },
}

impl View for AddNewTask {
    type V = AddNewTaskView;

    open spec fn view(&self) -> AddNewTaskView {
        match self {
            AddNewTask::Finding {
                creator,
                input,
                creation_information_uuid,
                task_uuid,
                now,
            } => AddNewTaskView::Finding {
                creator: creator@,
                input: input@,
                creation_information_uuid: *creation_information_uuid,
                task_uuid: *task_uuid,
                now: *now,
            },
            AddNewTask::Creating { inner, list, editor, now } => AddNewTaskView::Creating {
                inner: inner@,
                list: list@,
                editor: editor@,
                now: *now,
            },
            AddNewTask::Linking { task_row, list_row, editor, now } => AddNewTaskView::Linking {
                task_row: task_row@,
                list_row: list_row@,
                editor: editor@,
                now: *now,
            },
            AddNewTask::Audit { inner, task_row } => AddNewTaskView::Audit {
                inner: inner@,
                task_row: task_row@,
            },
        }
    }
}

impl AddNewTaskView {
    /// The number of requests that are still open.
    pub open spec fn steps_left(self) -> nat {
        match self {
            AddNewTaskView::Finding { .. } => 11,
            AddNewTaskView::Creating { inner, .. } => inner.steps_left() + 4,
            AddNewTaskView::Linking { .. } => 4,
            AddNewTaskView::Audit { inner, .. } => inner.steps_left(),
        }
    }

    /// The request that writes the tasks of a list.
    pub open spec fn write(row: ListRowView) -> StoreRequestView {
        StoreRequestView::UpdateListTasks { uuid: row.uuid, task_uuids: row.task_uuids }
    }

    /// What follows from a turn of the recording of the edit: once it is
    /// recorded, the new task's row is the result.
    pub open spec fn after_audit(
        turn: TurnView<UpdateCreationInformationView, CreationInformationRowView>,
        task_row: TaskRowView,
    ) -> TurnView<AddNewTaskView, TaskRowView> {
        match turn {
            TurnView::Ask { state, request } => TurnView::Ask {
                state: AddNewTaskView::Audit { inner: state, task_row },
                request,
            },
            TurnView::Done { result: Ok(_) } => TurnView::Done { result: Ok(task_row) },
            TurnView::Done { result: Err(err) } => TurnView::Done {
                result: Err(err.under(LIST_NOT_UPDATED_ERROR_MESSAGE@)),
            },
        }
    }

    /// What follows from a turn of the creation of the task: once the task
    /// is created, its identifier is put at the end of the list's tasks and
    /// the tasks are written. A task that was not created is reported as the
    /// creation reports it.
    pub open spec fn after_creating(
        turn: TurnView<CreateTaskView, TaskRowView>,
        list: ListView,
        editor: Seq<char>,
        now: Timestamp,
    ) -> TurnView<AddNewTaskView, TaskRowView> {
        match turn {
            TurnView::Ask { state, request } => TurnView::Ask {
                state: AddNewTaskView::Creating { inner: state, list, editor, now },
                request,
            },
            TurnView::Done { result: Ok(task_row) } => match TaskView::of_row(task_row) {
                Err(details) => TurnView::Done { result: Err(internal_failure(details)) },
                Ok(task) => {
                    let list_row = ListRowView::of(list.with_task(task.uuid));
                    TurnView::Ask {
                        state: AddNewTaskView::Linking { task_row, list_row, editor, now },
                        request: AddNewTaskView::write(list_row),
                    }
                },
            },
            TurnView::Done { result: Err(err) } => TurnView::Done { result: Err(err) },
        }
    }

    /// The addition of the task that the input describes to the list that
    /// the input names, by the user that `creator` names, at `now`.
    pub open spec fn begin(
        creator: Seq<char>,
        input: CreateTaskInputView,
        creation_information_uuid: u128,
        task_uuid: u128,
        now: Timestamp,
    ) -> TurnView<AddNewTaskView, TaskRowView> {
        TurnView::Ask {
            state: AddNewTaskView::Finding {
                creator,
                input,
                creation_information_uuid,
                task_uuid,
                now,
            },
            request: StoreRequestView::Find {
                entity: EntityKind::List,
                uuid: input.parent_list_uuid,
            },
        }
    }

    /// How the addition goes on after an answer. A list that the store does
    /// not hold ends it before anything is written; a row that cannot be
    /// read is the service's own fault.
    pub open spec fn resume(self, reply: StoreReplyView) -> TurnView<AddNewTaskView, TaskRowView> {
        match self {
            AddNewTaskView::Finding {
                creator,
                input,
                creation_information_uuid,
                task_uuid,
                now,
            } => match reply {
                StoreReplyView::Found { row: Some(RowView::List(row)) } => match ListView::of_row(
                    row,
                ) {
                    Err(details) => TurnView::Done { result: Err(internal_failure(details)) },
                    Ok(list) => AddNewTaskView::after_creating(
                        CreateTaskView::begin(
                            creator,
                            input,
                            creation_information_uuid,
                            task_uuid,
                            now,
                        ),
                        list,
                        creator,
                        now,
                    ),
                },
                StoreReplyView::Found { row: None } => TurnView::Done {
                    result: Err(
                        failure(
                            TASK_NOT_ADDED_ERROR_MESSAGE@,
                            CauseView::NotFound {
                                entity: EntityKind::List,
                                uuid: input.parent_list_uuid,
                            },
                        ),
                    ),
                },
                _ => TurnView::Done {
                    result: Err(reply_failure(TASK_NOT_ADDED_ERROR_MESSAGE@, reply)),
                },
            },
            AddNewTaskView::Creating { inner, list, editor, now } => AddNewTaskView::after_creating(
                inner.resume(reply),
                list,
                editor,
                now,
            ),
            AddNewTaskView::Linking { task_row, list_row, editor, now } => match reply {
                StoreReplyView::Written => AddNewTaskView::after_audit(
                    UpdateCreationInformationView::begin(
                        list_row.creation_information_uuid,
                        editor,
                        now,
                    ),
                    task_row,
                ),
                _ => TurnView::Done {
                    result: Err(reply_failure(LIST_NOT_UPDATED_ERROR_MESSAGE@, reply)),
                },
            },
            AddNewTaskView::Audit { inner, task_row } => AddNewTaskView::after_audit(
                inner.resume(reply),
                task_row,
            ),
        }
    }

    /// An addition that goes on has fewer requests open than before.
    pub proof fn lemma_progress(self, reply: StoreReplyView)
        ensures
            self.resume(reply) matches TurnView::Ask { state, .. } ==> state.steps_left()
                < self.steps_left(),
    {
        match self {
            AddNewTaskView::Finding {
                creator,
                input,
                creation_information_uuid,
                task_uuid,
                now,
            } => {
                CreateTaskView::lemma_begin(creator, input, creation_information_uuid, task_uuid, now);
            },
            AddNewTaskView::Creating { inner, .. } => {
                inner.lemma_progress(reply);
            },
            AddNewTaskView::Audit { inner, .. } => {
                inner.lemma_progress(reply);
            },
            _ => {},
        }
    }
}

impl AddNewTask {
    fn after_audit(turn: Turn<UpdateCreationInformation, CreationInformationRow>, task_row: TaskRow) -> (next:
        Turn<AddNewTask, TaskRow>)
        ensures
            next@ == AddNewTaskView::after_audit(turn@, task_row@),
    {
        match turn {
            Turn::Ask { state, request } => Turn::Ask {
                state: AddNewTask::Audit { inner: state, task_row },
                request,
            },
            Turn::Done { result: Ok(_) } => Turn::Done { result: Ok(task_row) },
            Turn::Done { result: Err(err) } => Turn::Done {
                result: Err(err.under(LIST_NOT_UPDATED_ERROR_MESSAGE)),
            },
        }
    }

    fn after_creating(turn: Turn<CreateTask, TaskRow>, list: List, editor: String, now: Timestamp) -> (next:
        Turn<AddNewTask, TaskRow>)
        ensures
            next@ == AddNewTaskView::after_creating(turn@, list@, editor@, now),
    {
        match turn {
            Turn::Ask { state, request } => Turn::Ask {
                state: AddNewTask::Creating { inner: state, list, editor, now },
                request,
            },
            Turn::Done { result: Ok(created_task_row) } => {
                match Task::from_task_row(created_task_row.duplicate()) {
                    Err(err) => Turn::Done { result: Err(internal_error(err)) },
                    Ok(task) => {
                        let mut updated_list = list;
                        updated_list.push_task(task.uuid);
                        match ListRow::from_list(updated_list) {
                            Err(err) => Turn::Done { result: Err(internal_error(err)) },
                            Ok(updated_list_row) => {
                                let request = StoreRequest::UpdateListTasks {
                                    uuid: updated_list_row.uuid.clone(),
                                    task_uuids: copy_optional(&updated_list_row.task_uuids),
                                };
                                Turn::Ask {
                                    state: AddNewTask::Linking {
                                        task_row: created_task_row,
                                        list_row: updated_list_row,
                                        editor,
                                        now,
                                    },
                                    request,
                                }
                            },
                        }
                    },
                }
            },
            Turn::Done { result: Err(err) } => Turn::Done { result: Err(err) },
        }
    }

    /// Begins the addition of the task that the input describes to the list
    /// that the input names, by the user that `creator` names, at `now`; the
    /// task gets the identifier `task_uuid` and its audit record
    /// `creation_information_uuid`.
    pub fn begin(
        creator: String,
        input: CreateTaskInput,
        creation_information_uuid: u128,
        task_uuid: u128,
        now: Timestamp,
    ) -> (turn: Turn<AddNewTask, TaskRow>)
        ensures
            turn@ == AddNewTaskView::begin(
                creator@,
                input@,
                creation_information_uuid,
                task_uuid,
                now,
            ),
    {
        let request = StoreRequest::Find {
            entity: EntityKind::List,
            uuid: input.parent_list_uuid.clone(),
        };
        Turn::Ask {
            state: AddNewTask::Finding { creator, input, creation_information_uuid, task_uuid, now },
            request,
        }
    }

    /// Goes on after the store's answer.
    pub fn resume(self, reply: StoreReply) -> (turn: Turn<AddNewTask, TaskRow>)
        ensures
            turn@ == self@.resume(reply@),
    {
        match self {
            AddNewTask::Finding {
                creator,
                input,
                creation_information_uuid,
                task_uuid,
                now,
            } => match reply {
                StoreReply::Found { row: Some(Row::List(list_row)) } => {
                    match List::from_list_row(list_row) {
                        Err(err) => Turn::Done { result: Err(internal_error(err)) },
                        Ok(list) => {
                            let turn = CreateTask::begin(
                                &creator,
                                &input,
                                creation_information_uuid,
                                task_uuid,
                                now,
                            );
                            AddNewTask::after_creating(turn, list, creator, now)
                        },
                    }
                },
                StoreReply::Found { row: None } => Turn::Done {
                    result: Err(
                        ServiceError::new(
                            TASK_NOT_ADDED_ERROR_MESSAGE,
                            Cause::NotFound {
                                entity: EntityKind::List,
                                uuid: input.parent_list_uuid,
                            },
                        ),
                    ),
                },
                other => Turn::Done {
                    result: Err(reply_error(TASK_NOT_ADDED_ERROR_MESSAGE, other)),
                },
            },
            AddNewTask::Creating { inner, list, editor, now } => AddNewTask::after_creating(
                inner.resume(reply),
                list,
                editor,
                now,
            ),
            AddNewTask::Linking { task_row, list_row, editor, now } => match reply {
                StoreReply::Written => {
                    let turn = UpdateCreationInformation::begin(
                        &list_row.creation_information_uuid,
                        UpdateCreationInformationInput { last_updated_by_user_uuid: editor },
                        now,
                    );
                    AddNewTask::after_audit(turn, task_row)
                },
                other => Turn::Done {
                    result: Err(reply_error(LIST_NOT_UPDATED_ERROR_MESSAGE, other)),
                },
            },
            AddNewTask::Audit { inner, task_row } => AddNewTask::after_audit(
                inner.resume(reply),
                task_row,
            ),
        }
    }
}

/// The addition of an existing task to a list: the list is looked for, it is
/// checked that the task exists, the task's identifier is put at the end of
/// the list's tasks and written, and the edit is recorded in the list's audit
/// record.
#[derive(Debug)]
pub enum AddTask {
    Finding { input: AddTaskInput, now: Timestamp },
    Checking { inner: CheckReferences, list: List, task_uuid: u128, editor: String, now: Timestamp },
    Linking { list_row: ListRow, editor: String, now: Timestamp },
    Audit { inner: UpdateCreationInformation, list_row: ListRow },
}

/// An `AddTask` as specifications see it.
pub enum AddTaskView {
    Finding { input: AddTaskInputView, now: Timestamp },
    Checking {
        inner: CheckReferencesView,
        list: ListView,
        task_uuid: u128,
        editor: Seq<char>,
        now: Timestamp,
    },
    Linking { list_row: ListRowView, editor: Seq<char>, now: Timestamp },
    Audit { inner: UpdateCreationInformationView, list_row: ListRowView },
}

impl View for AddTask {
    type V = AddTaskView;

    open spec fn view(&self) -> AddTaskView {
        match self {
            AddTask::Finding { input, now } => AddTaskView::Finding { input: input@, now: *now },
            AddTask::Checking { inner, list, task_uuid, editor, now } => AddTaskView::Checking {
                inner: inner@,
                list: list@,
                task_uuid: *task_uuid,
                editor: editor@,
                now: *now,
            },
            AddTask::Linking { list_row, editor, now } => AddTaskView::Linking {
                list_row: list_row@,
                editor: editor@,
                now: *now,
            },
            AddTask::Audit { inner, list_row } => AddTaskView::Audit {
                inner: inner@,
                list_row: list_row@,
            },
        }
    }
}

impl AddTaskView {
    /// The number of requests that are still open.
    pub open spec fn steps_left(self) -> nat {
        match self {
            AddTaskView::Finding { .. } => 6,
            AddTaskView::Checking { inner, .. } => inner.steps_left() + 4,
            AddTaskView::Linking { .. } => 4,
            AddTaskView::Audit { inner, .. } => inner.steps_left(),
        }
    }

    /// What the addition refers to: the task.
    pub open spec fn references(task_uuid: u128) -> Seq<Reference> {
        seq![Reference { entity: EntityKind::Task, uuid: task_uuid }]
    }

    /// What follows from a turn of the recording of the edit: once it is
    /// recorded, the list's row with the task is the result.
    pub open spec fn after_audit(
        turn: TurnView<UpdateCreationInformationView, CreationInformationRowView>,
        list_row: ListRowView,
    ) -> TurnView<AddTaskView, ListRowView> {
        match turn {
            TurnView::Ask { state, request } => TurnView::Ask {
                state: AddTaskView::Audit { inner: state, list_row },
                request,
            },
            TurnView::Done { result: Ok(_) } => TurnView::Done { result: Ok(list_row) },
            TurnView::Done { result: Err(err) } => TurnView::Done {
                result: Err(err.under(LIST_NOT_UPDATED_ERROR_MESSAGE@)),
            },
        }
    }

    /// What follows from a turn of the check: once the task is known to
    /// exist, its identifier is put at the end of the list's tasks and the
    /// tasks are written.
    pub open spec fn after_checking(
        turn: TurnView<CheckReferencesView, ()>,
        list: ListView,
        task_uuid: u128,
        editor: Seq<char>,
        now: Timestamp,
    ) -> TurnView<AddTaskView, ListRowView> {
        match turn {
            TurnView::Ask { state, request } => TurnView::Ask {
                state: AddTaskView::Checking { inner: state, list, task_uuid, editor, now },
                request,
            },
            TurnView::Done { result: Ok(_) } => {
                let list_row = ListRowView::of(list.with_task(task_uuid));
                TurnView::Ask {
                    state: AddTaskView::Linking { list_row, editor, now },
                    request: AddNewTaskView::write(list_row),
                }
            },
            TurnView::Done { result: Err(err) } => TurnView::Done {
                result: Err(err.under(TASK_NOT_ADDED_ERROR_MESSAGE@)),
            },
        }
    }

    /// The addition that the input describes, at `now`.
    pub open spec fn begin(input: AddTaskInputView, now: Timestamp) -> TurnView<
        AddTaskView,
        ListRowView,
    > {
        TurnView::Ask {
            state: AddTaskView::Finding { input, now },
            request: StoreRequestView::Find {
                entity: EntityKind::List,
                uuid: input.parent_list_uuid,
            },
        }
    }

    /// How the addition goes on after an answer. A list that the store does
    /// not hold ends it; a row that cannot be read is the service's own
    /// fault; a task's text that stands for no identifier is refused before
    /// the store is asked about the task.
    pub open spec fn resume(self, reply: StoreReplyView) -> TurnView<AddTaskView, ListRowView> {
        match self {
            AddTaskView::Finding { input, now } => match reply {
                StoreReplyView::Found { row: Some(RowView::List(row)) } => match ListView::of_row(
                    row,
                ) {
                    Err(details) => TurnView::Done { result: Err(internal_failure(details)) },
                    Ok(list) => match uuid_reading(input.task_uuid) {
                        Err(details) => TurnView::Done {
                            result: Err(
                                failure(
                                    TASK_NOT_ADDED_ERROR_MESSAGE@,
                                    CauseView::Validation { details },
                                ),
                            ),
                        },
                        Ok(task_uuid) => AddTaskView::after_checking(
                            CheckReferencesView::begin(AddTaskView::references(task_uuid)),
                            list,
                            task_uuid,
                            input.last_updated_by_user_uuid,
                            now,
                        ),
                    },
                },
                StoreReplyView::Found { row: None } => TurnView::Done {
                    result: Err(
                        failure(
                            TASK_NOT_ADDED_ERROR_MESSAGE@,
                            CauseView::NotFound {
                                entity: EntityKind::List,
                                uuid: input.parent_list_uuid,
                            },
                        ),
                    ),
                },
                _ => TurnView::Done {
                    result: Err(reply_failure(TASK_NOT_ADDED_ERROR_MESSAGE@, reply)),
                },
            },
            AddTaskView::Checking {
                inner,
                list,
                task_uuid,
                editor,
                now,
            } => AddTaskView::after_checking(inner.resume(reply), list, task_uuid, editor, now),
            AddTaskView::Linking { list_row, editor, now } => match reply {
                StoreReplyView::Written => AddTaskView::after_audit(
                    UpdateCreationInformationView::begin(
                        list_row.creation_information_uuid,
                        editor,
                        now,
                    ),
                    list_row,
                ),
                _ => TurnView::Done {
                    result: Err(reply_failure(LIST_NOT_UPDATED_ERROR_MESSAGE@, reply)),
                },
            },
            AddTaskView::Audit { inner, list_row } => AddTaskView::after_audit(
                inner.resume(reply),
                list_row,
            ),
        }
    }

    /// An addition that goes on has fewer requests open than before.
    pub proof fn lemma_progress(self, reply: StoreReplyView)
        ensures
            self.resume(reply) matches TurnView::Ask { state, .. } ==> state.steps_left()
                < self.steps_left(),
    {
        match self {
            AddTaskView::Checking { inner, .. } => {
                inner.lemma_progress(reply);
            },
            AddTaskView::Audit { inner, .. } => {
                inner.lemma_progress(reply);
            },
            _ => {},
        }
    }
}

impl AddTask {
    fn after_audit(turn: Turn<UpdateCreationInformation, CreationInformationRow>, list_row: ListRow) -> (next:
        Turn<AddTask, ListRow>)
        ensures
            next@ == AddTaskView::after_audit(turn@, list_row@),
    {
        match turn {
            Turn::Ask { state, request } => Turn::Ask {
                state: AddTask::Audit { inner: state, list_row },
                request,
            },
            Turn::Done { result: Ok(_) } => Turn::Done { result: Ok(list_row) },
            Turn::Done { result: Err(err) } => Turn::Done {
                result: Err(err.under(LIST_NOT_UPDATED_ERROR_MESSAGE)),
            },
        }
    }

    fn after_checking(
        turn: Turn<CheckReferences, ()>,
        list: List,
        task_uuid: u128,
        editor: String,
        now: Timestamp,
    ) -> (next: Turn<AddTask, ListRow>)
        ensures
            next@ == AddTaskView::after_checking(turn@, list@, task_uuid, editor@, now),
    {
        match turn {
            Turn::Ask { state, request } => Turn::Ask {
                state: AddTask::Checking { inner: state, list, task_uuid, editor, now },
                request,
            },
            Turn::Done { result: Ok(_) } => {
                let mut updated_list = list;
                updated_list.push_task(task_uuid);
                match ListRow::from_list(updated_list) {
                    Err(err) => Turn::Done { result: Err(internal_error(err)) },
                    Ok(updated_list_row) => {
                        let request = StoreRequest::UpdateListTasks {
                            uuid: updated_list_row.uuid.clone(),
                            task_uuids: copy_optional(&updated_list_row.task_uuids),
                        };
                        Turn::Ask {
                            state: AddTask::Linking { list_row: updated_list_row, editor, now },
                            request,
                        }
                    },
                }
            },
            Turn::Done { result: Err(err) } => Turn::Done {
                result: Err(err.under(TASK_NOT_ADDED_ERROR_MESSAGE)),
            },
        }
    }

    /// Begins the addition that the input describes, at `now`.
    pub fn begin(input: AddTaskInput, now: Timestamp) -> (turn: Turn<AddTask, ListRow>)
        ensures
            turn@ == AddTaskView::begin(input@, now),
    {
        let request = StoreRequest::Find {
            entity: EntityKind::List,
            uuid: input.parent_list_uuid.clone(),
        };
        Turn::Ask { state: AddTask::Finding { input, now }, request }
    }

    /// Goes on after the store's answer.
    pub fn resume(self, reply: StoreReply) -> (turn: Turn<AddTask, ListRow>)
        ensures
            turn@ == self@.resume(reply@),
    {
        match self {
            AddTask::Finding { input, now } => match reply {
                StoreReply::Found { row: Some(Row::List(list_row)) } => {
                    match List::from_list_row(list_row) {
                        Err(err) => Turn::Done { result: Err(internal_error(err)) },
                        Ok(list) => {
                            match parse_uuid(&input.task_uuid) {
                                Err(err) => Turn::Done {
                                    result: Err(validation_error(TASK_NOT_ADDED_ERROR_MESSAGE, err)),
                                },
                                Ok(task_uuid) => {
                                    let mut references: Vec<Reference> = Vec::new();
                                    references.push(
                                        Reference { entity: EntityKind::Task, uuid: task_uuid },
                                    );
                                    assert(references@ =~= AddTaskView::references(task_uuid));
                                    AddTask::after_checking(
                                        CheckReferences::begin(references),
                                        list,
                                        task_uuid,
                                        input.last_updated_by_user_uuid,
                                        now,
                                    )
                                },
                            }
                        },
                    }
                },
                StoreReply::Found { row: None } => Turn::Done {
                    result: Err(
                        ServiceError::new(
                            TASK_NOT_ADDED_ERROR_MESSAGE,
                            Cause::NotFound {
                                entity: EntityKind::List,
                                uuid: input.parent_list_uuid,
                            },
                        ),
                    ),
                },
                other => Turn::Done {
                    result: Err(reply_error(TASK_NOT_ADDED_ERROR_MESSAGE, other)),
                },
            },
            AddTask::Checking { inner, list, task_uuid, editor, now } => AddTask::after_checking(
                inner.resume(reply),
                list,
                task_uuid,
                editor,
                now,
            ),
            AddTask::Linking { list_row, editor, now } => match reply {
                StoreReply::Written => {
                    let turn = UpdateCreationInformation::begin(
                        &list_row.creation_information_uuid,
                        UpdateCreationInformationInput { last_updated_by_user_uuid: editor },
                        now,
                    );
                    AddTask::after_audit(turn, list_row)
                },
                other => Turn::Done {
                    result: Err(reply_error(LIST_NOT_UPDATED_ERROR_MESSAGE, other)),
                },
            },
            AddTask::Audit { inner, list_row } => AddTask::after_audit(inner.resume(reply), list_row),
        }
    }
}

/// The service for lists.
pub struct ListService {}

impl ListService {
    /// Whether `turn` begins the creation of the list that the inputs
    /// describe, under randomly drawn identifiers and at a valid time.
    pub open spec fn creates(
        creator: Seq<char>,
        input: CreateListInputView,
        creation_information_uuid: u128,
        list_uuid: u128,
        now: Timestamp,
        turn: TurnView<OperationView, OutcomeView>,
    ) -> bool {
        &&& is_random_uuid(creation_information_uuid)
        &&& is_random_uuid(list_uuid)
        &&& now.is_valid()
        &&& turn == OperationView::create_list(
            CreateListView::begin(creator, input, creation_information_uuid, list_uuid, now),
        )
    }

    /// Whether `turn` begins the revision that the inputs describe, at a
    /// valid time.
    pub open spec fn updates(
        editor: Seq<char>,
        input: UpdateListInputView,
        now: Timestamp,
        turn: TurnView<OperationView, OutcomeView>,
    ) -> bool {
        &&& now.is_valid()
        &&& turn == OperationView::update_list(UpdateListView::begin(editor, input, now))
    }

    /// Whether `turn` begins the addition of the task that the inputs
    /// describe, under randomly drawn identifiers and at a valid time.
    pub open spec fn adds(
        creator: Seq<char>,
        input: CreateTaskInputView,
        creation_information_uuid: u128,
        task_uuid: u128,
        now: Timestamp,
        turn: TurnView<OperationView, OutcomeView>,
    ) -> bool {
        &&& is_random_uuid(creation_information_uuid)
        &&& is_random_uuid(task_uuid)
        &&& now.is_valid()
        &&& turn == OperationView::add_new_task(
            AddNewTaskView::begin(creator, input, creation_information_uuid, task_uuid, now),
        )
    }

    /// Whether `turn` begins the addition of the task that the input names,
    /// at a valid time.
    pub open spec fn links(
        input: AddTaskInputView,
        now: Timestamp,
        turn: TurnView<OperationView, OutcomeView>,
    ) -> bool {
        &&& now.is_valid()
        &&& turn == OperationView::add_task(AddTaskView::begin(input, now))
    }

    /// Asks for all lists.
    pub fn all_lists() -> (turn: Turn<Operation, Outcome>)
        ensures
            turn@ == OperationView::all(EntityKind::List),
    {
        Question::all(EntityKind::List)
    }

    /// Creates the list that the input describes, by the user that the
    /// other input names, now, under fresh identifiers for the list and for
    /// its audit record. The result is the list's row as the store holds it.
    /// Nothing is asked of the store where the clock shows a time that cannot
    /// be recorded. What the creation comes to against a store is
    /// `outcomes::create_list_outcome`.
    pub fn create_list(
        new_creation_information_input: CreateCreationInformationInput,
        create_list_input: CreateListInput,
    ) -> (turn: Turn<Operation, Outcome>)
        ensures
            turn@ == clock_failure() || exists|
                creation_information_uuid: u128,
                list_uuid: u128,
                now: Timestamp,
            |
                ListService::creates(
                    new_creation_information_input@,
                    create_list_input@,
                    creation_information_uuid,
                    list_uuid,
                    now,
                    turn@,
                ),
    {
        match Timestamp::now() {
            None => clock_failed(),
            Some(now) => {
                let creation_information_uuid = random_uuid();
                let list_uuid = random_uuid();
                let ghost input = create_list_input@;
                let turn = Operation::create_list(
                    CreateList::begin(
                        &new_creation_information_input.creator_user_uuid,
                        create_list_input,
                        creation_information_uuid,
                        list_uuid,
                        now,
                    ),
                );
                assert(ListService::creates(
                    new_creation_information_input@,
                    input,
                    creation_information_uuid,
                    list_uuid,
                    now,
                    turn@,
                ));
                turn
            },
        }
    }

    /// Looks for the list with the identifier. A list that the store does
    /// not hold is no failure: the result is then that there is none.
    pub fn get_list_by_uuid(uuid: &String) -> (turn: Turn<Operation, Outcome>)
        ensures
            turn@ == OperationView::find(EntityKind::List, uuid@),
    {
        Question::find(EntityKind::List, uuid)
    }

    /// Asks whether a list has the identifier.
    pub fn list_exists(uuid: &String) -> (turn: Turn<Operation, Outcome>)
        ensures
            turn@ == OperationView::existence(EntityKind::List, uuid@),
    {
        Question::existence(EntityKind::List, uuid)
    }

    /// Revises the list that the input names, in the name of the user that
    /// the other input names, now. The result is the list's row after the
    /// revision. Nothing is asked of the store where the clock shows a time
    /// that cannot be recorded. What the revision comes to against a store is
    /// `outcomes::update_list_outcome`.
    pub fn update_list(
        update_creation_information_input: UpdateCreationInformationInput,
        update_list_input: UpdateListInput,
    ) -> (turn: Turn<Operation, Outcome>)
        ensures
            turn@ == clock_failure() || exists|now: Timestamp|
                ListService::updates(
                    update_creation_information_input@,
                    update_list_input@,
                    now,
                    turn@,
                ),
    {
        match Timestamp::now() {
            None => clock_failed(),
            Some(now) => {
                let ghost editor = update_creation_information_input@;
                let ghost input = update_list_input@;
                let turn = Operation::update_list(
                    UpdateList::begin(update_creation_information_input, update_list_input, now),
                );
                assert(ListService::updates(editor, input, now, turn@));
                turn
            },
        }
    }

    /// Puts the task that the input names on the list that the input names,
    /// in the name of the user that the input names, now. The result is the
    /// list's row with the task. Nothing is asked of the store where the
    /// clock shows a time that cannot be recorded. What the addition comes to
    /// against a store is `outcomes::add_task_outcome`.
    pub fn add_task(add_task_input: AddTaskInput) -> (turn: Turn<Operation, Outcome>)
        ensures
            turn@ == clock_failure() || exists|now: Timestamp|
                ListService::links(add_task_input@, now, turn@),
    {
        match Timestamp::now() {
            None => clock_failed(),
            Some(now) => {
                let ghost input = add_task_input@;
                let turn = Operation::add_task(AddTask::begin(add_task_input, now));
                assert(ListService::links(input, now, turn@));
                turn
            },
        }
    }

    /// Creates the task that the input describes and puts it on the list
    /// that the input names, in the name of the user that the other input
    /// names, now. The result is the task's row as the store holds it.
    /// Nothing is asked of the store where the clock shows a time that cannot
    /// be recorded. What the addition comes to against a store is
    /// `outcomes::add_new_task_outcome`.
    pub fn add_new_task(
        create_creation_information_input: CreateCreationInformationInput,
        create_task_input: CreateTaskInput,
    ) -> (turn: Turn<Operation, Outcome>)
        ensures
            turn@ == clock_failure() || exists|
                creation_information_uuid: u128,
                task_uuid: u128,
                now: Timestamp,
            |
                ListService::adds(
                    create_creation_information_input@,
                    create_task_input@,
                    creation_information_uuid,
                    task_uuid,
                    now,
                    turn@,
                ),
    {
        match Timestamp::now() {
            None => clock_failed(),
            Some(now) => {
                let creation_information_uuid = random_uuid();
                let task_uuid = random_uuid();
                let ghost creator = create_creation_information_input@;
                let ghost input = create_task_input@;
                let turn = Operation::add_new_task(
                    AddNewTask::begin(
                        create_creation_information_input.creator_user_uuid,
                        create_task_input,
                        creation_information_uuid,
                        task_uuid,
                        now,
                    ),
                );
                assert(ListService::adds(
                    creator,
                    input,
                    creation_information_uuid,
                    task_uuid,
                    now,
                    turn@,
                ));
                turn
            },
        }
    }
}

} // verus!
