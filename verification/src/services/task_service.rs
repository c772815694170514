//! Tasks: creating one, and looking tasks up.

use vstd::prelude::*;
use crate::constants::TASK_NOT_CREATED_ERROR_MESSAGE;
use crate::errors::{CauseView, EntityKind};
use crate::identifiers::{is_random_uuid, random_uuid};
use crate::models::creation_information::CreationInformation;
use crate::models::database::{
    CreationInformationRow,
    CreationInformationRowView,
    TaskRow,
    TaskRowView,
};
use crate::models::graphql::{CreateCreationInformationInput, CreateTaskInput, CreateTaskInputView};
use crate::models::task::{Task, TaskView};
use crate::models::utilities::{parse_uuid, uuid_reading};
use crate::services::operation::{
    clock_failed,
    clock_failure,
    Operation,
    OperationView,
    Outcome,
    OutcomeView,
    Question,
};
use crate::services::protocol::{
    failure,
    internal_error,
    internal_failure,
    validation_error,
    CheckReferences,
    CheckReferencesView,
    Reference,
    Turn,
    TurnView,
    WriteRow,
    WriteRowView,
    UNEXPECTED_REPLY_MESSAGE,
};
use crate::store::{Row, RowView, StoreReply, StoreReplyView};
use crate::text::owned;
use crate::timestamps::Timestamp;

verus! {

/// The creation of a task: it is checked that the creator and the list exist,
/// then the task's audit record is written and read back, then the task's row.
#[derive(Debug)]
pub enum CreateTask {
    Checking { inner: CheckReferences, information: CreationInformation, task: Task },
    Audit { inner: WriteRow, task: Task },
    Writing { inner: WriteRow },
}

/// A `CreateTask` as specifications see it.
pub enum CreateTaskView {
    Checking { inner: CheckReferencesView, information: CreationInformation, task: TaskView },
    Audit { inner: WriteRowView, task: TaskView },
    Writing { inner: WriteRowView },
}

impl View for CreateTask {
    type V = CreateTaskView;

    open spec fn view(&self) -> CreateTaskView {
        match self {
            CreateTask::Checking { inner, information, task } => CreateTaskView::Checking {
                inner: inner@,
                information: *information,
                task: task@,
            },
            CreateTask::Audit { inner, task } => CreateTaskView::Audit { inner: inner@, task: task@ },
            CreateTask::Writing { inner } => CreateTaskView::Writing { inner: inner@ },
        }
    }
}

impl CreateTaskView {
    /// The number of requests that are still open.
    pub open spec fn steps_left(self) -> nat {
        match self {
            CreateTaskView::Checking { inner, .. } => inner.steps_left() + 4,
            CreateTaskView::Audit { inner, .. } => inner.steps_left() + 2,
            CreateTaskView::Writing { inner } => inner.steps_left(),
        }
    }

    /// What the task refers to: its creator and its list.
    pub open spec fn references(information: CreationInformation, task: TaskView) -> Seq<Reference> {
        seq![
            Reference { entity: EntityKind::User, uuid: information.creator_user_uuid },
            Reference { entity: EntityKind::List, uuid: task.parent_list_uuid },
        ]
    }

    /// What follows from a turn of the writing of the task.
    pub open spec fn after_writing(turn: TurnView<WriteRowView, RowView>) -> TurnView<
        CreateTaskView,
        TaskRowView,
    > {
        match turn {
            TurnView::Ask { state, request } => TurnView::Ask {
                state: CreateTaskView::Writing { inner: state },
                request,
            },
            TurnView::Done { result: Ok(RowView::Task(row)) } => TurnView::Done { result: Ok(row) },
            TurnView::Done { result: Ok(_) } => TurnView::Done {
                result: Err(internal_failure(UNEXPECTED_REPLY_MESSAGE@)),
            },
            TurnView::Done { result: Err(err) } => TurnView::Done {
                result: Err(err.under(TASK_NOT_CREATED_ERROR_MESSAGE@)),
            },
        }
    }

    /// What follows from a turn of the writing of the audit record: once the
    /// record is read back, the task is written with the identifier that the
    /// record's row holds. A row whose identifier cannot be read is the
    /// service's own fault.
    pub open spec fn after_audit(turn: TurnView<WriteRowView, RowView>, task: TaskView) -> TurnView<
        CreateTaskView,
        TaskRowView,
    > {
        match turn {
            TurnView::Ask { state, request } => TurnView::Ask {
                state: CreateTaskView::Audit { inner: state, task },
                request,
            },
            TurnView::Done { result: Ok(RowView::CreationInformation(row)) } => match uuid_reading(
                row.uuid,
            ) {
                Err(details) => TurnView::Done { result: Err(internal_failure(details)) },
                Ok(uuid) => CreateTaskView::after_writing(
                    WriteRowView::begin(
                        RowView::Task(
                            TaskRowView::of(TaskView { creation_information_uuid: uuid, ..task }),
                        ),
                    ),
                ),
            },
            TurnView::Done { result: Ok(_) } => TurnView::Done {
                result: Err(internal_failure(UNEXPECTED_REPLY_MESSAGE@)),
            },
            TurnView::Done { result: Err(err) } => TurnView::Done {
                result: Err(err.under(TASK_NOT_CREATED_ERROR_MESSAGE@)),
            },
        }
    }

    /// What follows from a turn of the check: once all that the task refers
    /// to is known to exist, the audit record is written.
    pub open spec fn after_checking(
        turn: TurnView<CheckReferencesView, ()>,
        information: CreationInformation,
        task: TaskView,
    ) -> TurnView<CreateTaskView, TaskRowView> {
        match turn {
            TurnView::Ask { state, request } => TurnView::Ask {
                state: CreateTaskView::Checking { inner: state, information, task },
                request,
            },
            TurnView::Done { result: Ok(_) } => CreateTaskView::after_audit(
                WriteRowView::begin(
                    RowView::CreationInformation(CreationInformationRowView::of(information)),
                ),
                task,
            ),
            TurnView::Done { result: Err(err) } => TurnView::Done {
                result: Err(err.under(TASK_NOT_CREATED_ERROR_MESSAGE@)),
            },
        }
    }

    /// The creation of the task that the input describes, by the user that
    /// `creator` names, at `now`. A malformed input ends it at once: first
    /// the creator is read, then the task.
    pub open spec fn begin(
        creator: Seq<char>,
        input: CreateTaskInputView,
        creation_information_uuid: u128,
        task_uuid: u128,
        now: Timestamp,
    ) -> TurnView<CreateTaskView, TaskRowView> {
        match CreationInformation::created(creator, creation_information_uuid, now) {
            Err(details) => TurnView::Done {
                result: Err(
                    failure(TASK_NOT_CREATED_ERROR_MESSAGE@, CauseView::Validation { details }),
                ),
            },
            Ok(information) => match TaskView::created(input, creation_information_uuid, task_uuid) {
                Err(details) => TurnView::Done {
                    result: Err(
                        failure(TASK_NOT_CREATED_ERROR_MESSAGE@, CauseView::Validation { details }),
                    ),
                },
                Ok(task) => CreateTaskView::after_checking(
                    CheckReferencesView::begin(CreateTaskView::references(information, task)),
                    information,
                    task,
                ),
            },
        }
    }

    /// How the creation goes on after an answer.
    pub open spec fn resume(self, reply: StoreReplyView) -> TurnView<CreateTaskView, TaskRowView> {
        match self {
            CreateTaskView::Checking { inner, information, task } => CreateTaskView::after_checking(
                inner.resume(reply),
                information,
                task,
            ),
            CreateTaskView::Audit { inner, task } => CreateTaskView::after_audit(
                inner.resume(reply),
                task,
            ),
            CreateTaskView::Writing { inner } => CreateTaskView::after_writing(inner.resume(reply)),
        }
    }

    /// A creation that goes on has fewer requests open than before, and one
    /// that begins has at most six.
    pub proof fn lemma_progress(self, reply: StoreReplyView)
        ensures
            self.resume(reply) matches TurnView::Ask { state, .. } ==> state.steps_left()
                < self.steps_left(),
    {
        match self {
            CreateTaskView::Checking { inner, .. } => {
                inner.lemma_progress(reply);
            },
            CreateTaskView::Audit { inner, .. } => {
                inner.lemma_progress(reply);
            },
            CreateTaskView::Writing { inner } => {
                inner.lemma_progress(reply);
            },
        }
    }

    /// A creation that begins has six requests open.
    pub proof fn lemma_begin(
        creator: Seq<char>,
        input: CreateTaskInputView,
        creation_information_uuid: u128,
        task_uuid: u128,
        now: Timestamp,
    )
        ensures
            CreateTaskView::begin(
                creator,
                input,
                creation_information_uuid,
                task_uuid,
                now,
            ) matches TurnView::Ask { state, .. } ==> state.steps_left() == 6,
    {
    }
}

impl CreateTask {
    fn after_writing(turn: Turn<WriteRow, Row>) -> (next: Turn<CreateTask, TaskRow>)
        ensures
            next@ == CreateTaskView::after_writing(turn@),
    {
        match turn {
            Turn::Ask { state, request } => Turn::Ask {
                state: CreateTask::Writing { inner: state },
                request,
            },
            Turn::Done { result: Ok(Row::Task(row)) } => Turn::Done { result: Ok(row) },
            Turn::Done { result: Ok(_) } => Turn::Done {
                result: Err(internal_error(owned(UNEXPECTED_REPLY_MESSAGE))),
            },
            Turn::Done { result: Err(err) } => Turn::Done {
                result: Err(err.under(TASK_NOT_CREATED_ERROR_MESSAGE)),
            },
        }
    }

    fn after_audit(turn: Turn<WriteRow, Row>, task: Task) -> (next: Turn<CreateTask, TaskRow>)
        ensures
            next@ == CreateTaskView::after_audit(turn@, task@),
    {
        match turn {
            Turn::Ask { state, request } => Turn::Ask {
                state: CreateTask::Audit { inner: state, task },
                request,
            },
            Turn::Done { result: Ok(Row::CreationInformation(creation_information_row)) } => {
                match parse_uuid(&creation_information_row.uuid) {
                    Err(err) => Turn::Done { result: Err(internal_error(err)) },
                    Ok(creation_information_uuid) => {
                        let mut new_task = task;
                        new_task.creation_information_uuid = creation_information_uuid;
                        match TaskRow::from_task(new_task) {
                            Ok(new_task_row) => CreateTask::after_writing(
                                WriteRow::begin(Row::Task(new_task_row)),
                            ),
                            Err(err) => Turn::Done { result: Err(internal_error(err)) },
                        }
                    },
                }
            },
            Turn::Done { result: Ok(_) } => Turn::Done {
                result: Err(internal_error(owned(UNEXPECTED_REPLY_MESSAGE))),
            },
            Turn::Done { result: Err(err) } => Turn::Done {
                result: Err(err.under(TASK_NOT_CREATED_ERROR_MESSAGE)),
            },
        }
    }

    fn after_checking(turn: Turn<CheckReferences, ()>, information: CreationInformation, task: Task) -> (next:
        Turn<CreateTask, TaskRow>)
        ensures
            next@ == CreateTaskView::after_checking(turn@, information, task@),
    {
        match turn {
            Turn::Ask { state, request } => Turn::Ask {
                state: CreateTask::Checking { inner: state, information, task },
                request,
            },
            Turn::Done { result: Ok(_) } => {
                let creation_information_row = CreationInformationRow::from_creation_information(
                    information,
                );
                CreateTask::after_audit(
                    WriteRow::begin(Row::CreationInformation(creation_information_row)),
                    task,
                )
            },
            Turn::Done { result: Err(err) } => Turn::Done {
                result: Err(err.under(TASK_NOT_CREATED_ERROR_MESSAGE)),
            },
        }
    }

    /// Begins the creation of the task that the input describes, by the
    /// user that `creator` names, at `now`; the task gets the identifier
    /// `task_uuid` and its audit record `creation_information_uuid`.
    pub fn begin(
        creator: &String,
        input: &CreateTaskInput,
        creation_information_uuid: u128,
        task_uuid: u128,
        now: Timestamp,
    ) -> (turn: Turn<CreateTask, TaskRow>)
        ensures
            turn@ == CreateTaskView::begin(
                creator@,
                input@,
                creation_information_uuid,
                task_uuid,
                now,
            ),
    {
        match CreationInformation::from_creation_text(creator, creation_information_uuid, now) {
            Err(err) => Turn::Done {
                result: Err(validation_error(TASK_NOT_CREATED_ERROR_MESSAGE, err)),
            },
            Ok(information) => {
                match input.create_task(&creation_information_uuid, task_uuid) {
                    Err(err) => Turn::Done {
                        result: Err(validation_error(TASK_NOT_CREATED_ERROR_MESSAGE, err)),
                    },
                    Ok(new_task) => {
                        let mut references: Vec<Reference> = Vec::new();
                        references.push(
                            Reference {
                                entity: EntityKind::User,
                                uuid: information.creator_user_uuid,
                            },
                        );
                        references.push(
                            Reference { entity: EntityKind::List, uuid: new_task.parent_list_uuid },
                        );
                        assert(references@ =~= CreateTaskView::references(information, new_task@));
                        CreateTask::after_checking(
                            CheckReferences::begin(references),
                            information,
                            new_task,
                        )
                    },
                }
            },
        }
    }

    /// Goes on after the store's answer.
    pub fn resume(self, reply: StoreReply) -> (turn: Turn<CreateTask, TaskRow>)
        ensures
            turn@ == self@.resume(reply@),
    {
        match self {
            CreateTask::Checking { inner, information, task } => CreateTask::after_checking(
                inner.resume(reply),
                information,
                task,
            ),
            CreateTask::Audit { inner, task } => CreateTask::after_audit(inner.resume(reply), task),
            CreateTask::Writing { inner } => CreateTask::after_writing(inner.resume(reply)),
        }
    }
}

/// The service for tasks.
pub struct TaskService {}

impl TaskService {
    /// Whether `turn` begins the creation of the task that the inputs
    /// describe, under randomly drawn identifiers and at a valid time.
    pub open spec fn creates(
        creator: Seq<char>,
        input: CreateTaskInputView,
        creation_information_uuid: u128,
        task_uuid: u128,
        now: Timestamp,
        turn: TurnView<OperationView, OutcomeView>,
    ) -> bool {
        &&& is_random_uuid(creation_information_uuid)
        &&& is_random_uuid(task_uuid)
        &&& now.is_valid()
        &&& turn == OperationView::create_task(
            CreateTaskView::begin(creator, input, creation_information_uuid, task_uuid, now),
        )
    }

    /// Asks for all tasks.
    pub fn all_tasks() -> (turn: Turn<Operation, Outcome>)
        ensures
            turn@ == OperationView::all(EntityKind::Task),
    {
        Question::all(EntityKind::Task)
    }

    /// Creates the task that the input describes, by the user that the
    /// other input names, now, under fresh identifiers for the task and for
    /// its audit record. The result is the task's row as the store holds it.
    /// Nothing is asked of the store where the clock shows a time that cannot
    /// be recorded. What the creation comes to against a store is
    /// `outcomes::create_task_outcome`.
    pub fn create_task(
        create_creation_information_input: CreateCreationInformationInput,
        create_task_input: CreateTaskInput,
    ) -> (turn: Turn<Operation, Outcome>)
        ensures
            turn@ == clock_failure() || exists|
                creation_information_uuid: u128,
                task_uuid: u128,
                now: Timestamp,
            |
                TaskService::creates(
                    create_creation_information_input@,
                    create_task_input@,
                    creation_information_uuid,
                    task_uuid,
                    now,
                    turn@,
                ),
    {
        match Timestamp::now() {
            None => clock_failed(),
            Some(now) => {
                let creation_information_uuid = random_uuid();
                let task_uuid = random_uuid();
                let turn = Operation::create_task(
                    CreateTask::begin(
                        &create_creation_information_input.creator_user_uuid,
                        &create_task_input,
                        creation_information_uuid,
                        task_uuid,
                        now,
                    ),
                );
                assert(TaskService::creates(
                    create_creation_information_input@,
                    create_task_input@,
                    creation_information_uuid,
                    task_uuid,
                    now,
                    turn@,
                ));
                turn
            },
        }
    }

    /// Looks for the task with the identifier. A task that the store does
    /// not hold is no failure: the result is then that there is none.
    pub fn get_task_by_uuid(uuid: &String) -> (turn: Turn<Operation, Outcome>)
        ensures
            turn@ == OperationView::find(EntityKind::Task, uuid@),
    {
        Question::find(EntityKind::Task, uuid)
    }

    /// Asks whether a task has the identifier.
    pub fn task_exists(uuid: &String) -> (turn: Turn<Operation, Outcome>)
        ensures
            turn@ == OperationView::existence(EntityKind::Task, uuid@),
    {
        Question::existence(EntityKind::Task, uuid)
    }
}

} // verus!
