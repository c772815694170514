//! The operations under one roof: any of them in progress, any of their
//! results, the step that takes an operation from one answer of the store to
//! its next request, and the run of an operation against a store in memory.

use vstd::prelude::*;
use crate::errors::{EntityKind, ServiceError, ServiceErrorView};
use crate::models::database::{
    CreationInformationRow,
    CreationInformationRowView,
    ListRow,
    ListRowView,
    TaskRow,
    TaskRowView,
    UserRow,
    UserRowView,
};
use crate::services::creation_information_service::{
    CreateCreationInformation,
    CreateCreationInformationView,
    UpdateCreationInformation,
    UpdateCreationInformationView,
};
use crate::services::list_service::{
    AddNewTask,
    AddNewTaskView,
    AddTask,
    AddTaskView,
    CreateList,
    CreateListView,
    UpdateList,
    UpdateListView,
};
use crate::services::protocol::{
    internal_error,
    internal_failure,
    Turn,
    TurnView,
    UNEXPECTED_REPLY_MESSAGE,
};
use crate::services::task_service::{CreateTask, CreateTaskView};
use crate::services::user_service::{CreateUser, CreateUserView};
use crate::services::utilities::{graphql_translate, translated};
use crate::store::{
    row_views,
    MemoryStore,
    Row,
    RowView,
    StoreReply,
    StoreReplyView,
    StoreRequest,
    StoreRequestView,
    StoreView,
};
use crate::text::owned;

verus! {

/// A question to the store that is an operation of its own.
#[derive(Clone, Copy, Debug)]
pub enum Question {
    /// All rows of a kind.
    All { entity: EntityKind },
    /// Whether a row of the kind exists.
    Exists { entity: EntityKind },
    /// The row of the kind with an identifier.
    Find { entity: EntityKind },
}

/// The result of an operation.
#[derive(Clone, Debug, PartialEq, Eq)]
pub enum Outcome {
    Rows(Vec<Row>),
    Exists(bool),
    Found(Option<Row>),
    User(UserRow),
    CreationInformation(CreationInformationRow),
    List(ListRow),
    Task(TaskRow),
}

/// An `Outcome` as specifications see it.
pub enum OutcomeView {
    Rows(Seq<RowView>),
    Exists(bool),
    Found(Option<RowView>),
    User(UserRowView),
    CreationInformation(CreationInformationRowView),
    List(ListRowView),
    Task(TaskRowView),
}

impl View for Outcome {
    type V = OutcomeView;

    open spec fn view(&self) -> OutcomeView {
        match self {
            Outcome::Rows(rows) => OutcomeView::Rows(row_views(rows@)),
            Outcome::Exists(exists) => OutcomeView::Exists(*exists),
            Outcome::Found(row) => OutcomeView::Found(
                match row {
                    Some(r) => Some(r@),
                    None => None,
                },
            ),
            Outcome::User(row) => OutcomeView::User(row@),
            Outcome::CreationInformation(row) => OutcomeView::CreationInformation(row@),
            Outcome::List(row) => OutcomeView::List(row@),
            Outcome::Task(row) => OutcomeView::Task(row@),
        }
    }
}

impl Question {
    /// What the answer to the question means. A row of another kind than
    /// the one that was looked for does not fit the question.
    pub open spec fn answer(self, reply: StoreReplyView) -> Result<OutcomeView, ServiceErrorView> {
        match translated(reply) {
            Err(err) => Err(err),
            Ok(StoreReplyView::Rows { rows }) => if self is All {
                Ok(OutcomeView::Rows(rows))
            } else {
                Err(internal_failure(UNEXPECTED_REPLY_MESSAGE@))
            },
            Ok(StoreReplyView::Exists { exists }) => if self is Exists {
                Ok(OutcomeView::Exists(exists))
            } else {
                Err(internal_failure(UNEXPECTED_REPLY_MESSAGE@))
            },
            Ok(StoreReplyView::Found { row }) => if self matches Question::Find { entity } && (
            row matches Some(found) ==> found.entity() == entity) {
                Ok(OutcomeView::Found(row))
            } else {
                Err(internal_failure(UNEXPECTED_REPLY_MESSAGE@))
            },
            Ok(_) => Err(internal_failure(UNEXPECTED_REPLY_MESSAGE@)),
        }
    }

    /// What the answer to the question means.
    pub fn interpret(self, reply: StoreReply) -> (result: Result<Outcome, ServiceError>)
        ensures
            result_view(result) == self.answer(reply@),
    {
        match graphql_translate(reply) {
            Err(err) => Err(err),
            Ok(StoreReply::Rows { rows }) => match self {
                Question::All { .. } => Ok(Outcome::Rows(rows)),
                _ => Err(internal_error(owned(UNEXPECTED_REPLY_MESSAGE))),
            },
            Ok(StoreReply::Exists { exists }) => match self {
                Question::Exists { .. } => Ok(Outcome::Exists(exists)),
                _ => Err(internal_error(owned(UNEXPECTED_REPLY_MESSAGE))),
            },
            Ok(StoreReply::Found { row }) => match self {
                Question::Find { entity } => {
                    let fits = match &row {
                        Some(found) => found.entity() == entity,
                        None => true,
                    };
                    if fits {
                        Ok(Outcome::Found(row))
                    } else {
                        Err(internal_error(owned(UNEXPECTED_REPLY_MESSAGE)))
                    }
                },
                _ => Err(internal_error(owned(UNEXPECTED_REPLY_MESSAGE))),
            },
            Ok(_) => Err(internal_error(owned(UNEXPECTED_REPLY_MESSAGE))),
        }
    }

    /// Asks for all rows of a kind.
    pub fn all(entity: EntityKind) -> (turn: Turn<Operation, Outcome>)
        ensures
            turn@ == OperationView::all(entity),
    {
        Turn::Ask {
            state: Operation::Question(Question::All { entity }),
            request: StoreRequest::All { entity },
        }
    }

    /// Asks whether a row of the kind has the identifier.
    pub fn existence(entity: EntityKind, uuid: &String) -> (turn: Turn<Operation, Outcome>)
        ensures
            turn@ == OperationView::existence(entity, uuid@),
    {
        Turn::Ask {
            state: Operation::Question(Question::Exists { entity }),
            request: StoreRequest::Exists { entity, uuid: uuid.clone() },
        }
    }

    /// Looks for the row of the kind with the identifier.
    pub fn find(entity: EntityKind, uuid: &String) -> (turn: Turn<Operation, Outcome>)
        ensures
            turn@ == OperationView::find(entity, uuid@),
    {
        Turn::Ask {
            state: Operation::Question(Question::Find { entity }),
            request: StoreRequest::Find { entity, uuid: uuid.clone() },
        }
    }
}

/// A result as specifications see it.
pub open spec fn result_view(result: Result<Outcome, ServiceError>) -> Result<
    OutcomeView,
    ServiceErrorView,
> {
    match result {
        Ok(outcome) => Ok(outcome@),
        Err(err) => Err(err@),
    }
}

/// An operation in progress: which one it is, and where it stands.
#[derive(Debug)]
pub enum Operation {
    Question(Question),
    CreateUser(CreateUser),
    CreateCreationInformation(CreateCreationInformation),
    UpdateCreationInformation(UpdateCreationInformation),
    CreateTask(CreateTask),
    CreateList(CreateList),
    UpdateList(UpdateList),
    AddTask(AddTask),
    AddNewTask(AddNewTask),
}

/// An `Operation` as specifications see it.
pub enum OperationView {
    Question(Question),
    CreateUser(CreateUserView),
    CreateCreationInformation(CreateCreationInformationView),
    UpdateCreationInformation(UpdateCreationInformationView),
    CreateTask(CreateTaskView),
    CreateList(CreateListView),
    UpdateList(UpdateListView),
    AddTask(AddTaskView),
    AddNewTask(AddNewTaskView),
}

impl View for Operation {
    type V = OperationView;

    open spec fn view(&self) -> OperationView {
        match self {
            Operation::Question(query) => OperationView::Question(*query),
            Operation::CreateUser(state) => OperationView::CreateUser(state@),
            Operation::CreateCreationInformation(state) => OperationView::CreateCreationInformation(
                state@,
            ),
            Operation::UpdateCreationInformation(state) => OperationView::UpdateCreationInformation(
                state@,
            ),
            Operation::CreateTask(state) => OperationView::CreateTask(state@),
            Operation::CreateList(state) => OperationView::CreateList(state@),
            Operation::UpdateList(state) => OperationView::UpdateList(state@),
            Operation::AddTask(state) => OperationView::AddTask(state@),
            Operation::AddNewTask(state) => OperationView::AddNewTask(state@),
        }
    }
}

impl OperationView {
    /// The question for all rows of a kind.
    pub open spec fn all(entity: EntityKind) -> TurnView<OperationView, OutcomeView> {
        TurnView::Ask {
            state: OperationView::Question(Question::All { entity }),
            request: StoreRequestView::All { entity },
        }
    }

    /// The question whether a row of the kind has the identifier.
    pub open spec fn existence(entity: EntityKind, uuid: Seq<char>) -> TurnView<
        OperationView,
        OutcomeView,
    > {
        TurnView::Ask {
            state: OperationView::Question(Question::Exists { entity }),
            request: StoreRequestView::Exists { entity, uuid },
        }
    }

    /// The question for the row of the kind with the identifier.
    pub open spec fn find(entity: EntityKind, uuid: Seq<char>) -> TurnView<
        OperationView,
        OutcomeView,
    > {
        TurnView::Ask {
            state: OperationView::Question(Question::Find { entity }),
            request: StoreRequestView::Find { entity, uuid },
        }
    }

    /// A turn of the creation of a user, as a turn of an operation.
    pub open spec fn create_user(turn: TurnView<CreateUserView, UserRowView>) -> TurnView<
        OperationView,
        OutcomeView,
    > {
        match turn {
            TurnView::Ask { state, request } => TurnView::Ask {
                state: OperationView::CreateUser(state),
                request,
            },
            TurnView::Done { result: Ok(row) } => TurnView::Done { result: Ok(OutcomeView::User(row)) },
            TurnView::Done { result: Err(err) } => TurnView::Done { result: Err(err) },
        }
    }

    /// A turn of the creation of an audit record, as a turn of an operation.
    pub open spec fn create_creation_information(
        turn: TurnView<CreateCreationInformationView, CreationInformationRowView>,
    ) -> TurnView<OperationView, OutcomeView> {
        match turn {
            TurnView::Ask { state, request } => TurnView::Ask {
                state: OperationView::CreateCreationInformation(state),
                request,
            },
            TurnView::Done { result: Ok(row) } => TurnView::Done {
                result: Ok(OutcomeView::CreationInformation(row)),
            },
            TurnView::Done { result: Err(err) } => TurnView::Done { result: Err(err) },
        }
    }

    /// A turn of the recording of an edit, as a turn of an operation.
    pub open spec fn update_creation_information(
        turn: TurnView<UpdateCreationInformationView, CreationInformationRowView>,
    ) -> TurnView<OperationView, OutcomeView> {
        match turn {
            TurnView::Ask { state, request } => TurnView::Ask {
                state: OperationView::UpdateCreationInformation(state),
                request,
            },
            TurnView::Done { result: Ok(row) } => TurnView::Done {
                result: Ok(OutcomeView::CreationInformation(row)),
            },
            TurnView::Done { result: Err(err) } => TurnView::Done { result: Err(err) },
        }
    }

    /// A turn of the creation of a task, as a turn of an operation.
    pub open spec fn create_task(turn: TurnView<CreateTaskView, TaskRowView>) -> TurnView<
        OperationView,
        OutcomeView,
    > {
        match turn {
            TurnView::Ask { state, request } => TurnView::Ask {
                state: OperationView::CreateTask(state),
                request,
            },
            TurnView::Done { result: Ok(row) } => TurnView::Done { result: Ok(OutcomeView::Task(row)) },
            TurnView::Done { result: Err(err) } => TurnView::Done { result: Err(err) },
        }
    }

    /// A turn of the creation of a list, as a turn of an operation.
    pub open spec fn create_list(turn: TurnView<CreateListView, ListRowView>) -> TurnView<
        OperationView,
        OutcomeView,
    > {
        match turn {
            TurnView::Ask { state, request } => TurnView::Ask {
                state: OperationView::CreateList(state),
                request,
            },
            TurnView::Done { result: Ok(row) } => TurnView::Done { result: Ok(OutcomeView::List(row)) },
            TurnView::Done { result: Err(err) } => TurnView::Done { result: Err(err) },
        }
    }

    /// A turn of the revision of a list, as a turn of an operation.
    pub open spec fn update_list(turn: TurnView<UpdateListView, ListRowView>) -> TurnView<
        OperationView,
        OutcomeView,
    > {
        match turn {
            TurnView::Ask { state, request } => TurnView::Ask {
                state: OperationView::UpdateList(state),
                request,
            },
            TurnView::Done { result: Ok(row) } => TurnView::Done { result: Ok(OutcomeView::List(row)) },
            TurnView::Done { result: Err(err) } => TurnView::Done { result: Err(err) },
        }
    }

    /// A turn of the addition of a task, as a turn of an operation.
    pub open spec fn add_task(turn: TurnView<AddTaskView, ListRowView>) -> TurnView<
        OperationView,
        OutcomeView,
    > {
        match turn {
            TurnView::Ask { state, request } => TurnView::Ask {
                state: OperationView::AddTask(state),
                request,
            },
            TurnView::Done { result: Ok(row) } => TurnView::Done { result: Ok(OutcomeView::List(row)) },
            TurnView::Done { result: Err(err) } => TurnView::Done { result: Err(err) },
        }
    }

    /// A turn of the addition of a new task, as a turn of an operation.
    pub open spec fn add_new_task(turn: TurnView<AddNewTaskView, TaskRowView>) -> TurnView<
        OperationView,
        OutcomeView,
    > {
        match turn {
            TurnView::Ask { state, request } => TurnView::Ask {
                state: OperationView::AddNewTask(state),
                request,
            },
            TurnView::Done { result: Ok(row) } => TurnView::Done { result: Ok(OutcomeView::Task(row)) },
            TurnView::Done { result: Err(err) } => TurnView::Done { result: Err(err) },
        }
    }

    /// The number of requests that are still open, the one that has been
    /// made not included.
    pub open spec fn steps_left(self) -> nat {
        match self {
            OperationView::Question(_) => 0,
            OperationView::CreateUser(state) => state.steps_left(),
            OperationView::CreateCreationInformation(state) => state.steps_left(),
            OperationView::UpdateCreationInformation(state) => state.steps_left(),
            OperationView::CreateTask(state) => state.steps_left(),
            OperationView::CreateList(state) => state.steps_left(),
            OperationView::UpdateList(state) => state.steps_left(),
            OperationView::AddTask(state) => state.steps_left(),
            OperationView::AddNewTask(state) => state.steps_left(),
        }
    }

    /// How the operation goes on after an answer of the store.
    pub open spec fn advance(self, reply: StoreReplyView) -> TurnView<OperationView, OutcomeView> {
        match self {
            OperationView::Question(query) => TurnView::Done { result: query.answer(reply) },
            OperationView::CreateUser(state) => OperationView::create_user(state.resume(reply)),
            OperationView::CreateCreationInformation(
                state,
            ) => OperationView::create_creation_information(state.resume(reply)),
            OperationView::UpdateCreationInformation(
                state,
            ) => OperationView::update_creation_information(state.resume(reply)),
            OperationView::CreateTask(state) => OperationView::create_task(state.resume(reply)),
            OperationView::CreateList(state) => OperationView::create_list(state.resume(reply)),
            OperationView::UpdateList(state) => OperationView::update_list(state.resume(reply)),
            OperationView::AddTask(state) => OperationView::add_task(state.resume(reply)),
            OperationView::AddNewTask(state) => OperationView::add_new_task(state.resume(reply)),
        }
    }

    /// An operation that goes on has fewer requests open than before.
    pub proof fn lemma_progress(self, reply: StoreReplyView)
        ensures
            turn_steps(self.advance(reply)) <= self.steps_left(),
    {
        match self {
            OperationView::Question(_) => {},
            OperationView::CreateUser(state) => {
                state.lemma_progress(reply);
            },
            OperationView::CreateCreationInformation(state) => {
                state.lemma_progress(reply);
            },
            OperationView::UpdateCreationInformation(state) => {
                state.lemma_progress(reply);
            },
            OperationView::CreateTask(state) => {
                state.lemma_progress(reply);
            },
            OperationView::CreateList(state) => {
                state.lemma_progress(reply);
            },
            OperationView::UpdateList(state) => {
                state.lemma_progress(reply);
            },
            OperationView::AddTask(state) => {
                state.lemma_progress(reply);
            },
            OperationView::AddNewTask(state) => {
                state.lemma_progress(reply);
            },
        }
    }
}

/// What is said where the clock shows a time that cannot be recorded.
pub const CLOCK_OUT_OF_RANGE_MESSAGE: &'static str = "The clock shows a time after the year 9999";

/// The end of an operation that needs the time and cannot have it.
pub open spec fn clock_failure() -> TurnView<OperationView, OutcomeView> {
    TurnView::Done { result: Err(internal_failure(CLOCK_OUT_OF_RANGE_MESSAGE@)) }
}

/// The end of an operation that needs the time and cannot have it.
pub fn clock_failed() -> (turn: Turn<Operation, Outcome>)
    ensures
        turn@ == clock_failure(),
{
    Turn::Done { result: Err(internal_error(owned(CLOCK_OUT_OF_RANGE_MESSAGE))) }
}

/// The number of turns that an operation can still take.
pub open spec fn turn_steps(turn: TurnView<OperationView, OutcomeView>) -> nat {
    match turn {
        TurnView::Ask { state, .. } => state.steps_left() + 1,
        TurnView::Done { .. } => 0,
    }
}

/// The run of an operation against a store: each request is answered by the
/// store as `StoreView::execute` says, until the operation has ended. The
/// result is what the store holds afterwards, and the operation's result.
#[verifier::opaque]
pub open spec fn run(turn: TurnView<OperationView, OutcomeView>, store: StoreView) -> (
    StoreView,
    Result<OutcomeView, ServiceErrorView>,
)
    decreases turn_steps(turn),
{
    match turn {
        TurnView::Done { result } => (store, result),
        TurnView::Ask { state, request } => {
            let answered = store.execute(request);
            proof {
                state.lemma_progress(answered.1);
            }
            run(state.advance(answered.1), answered.0)
        },
    }
}

/// The run of an operation that has ended is its result, and the store is as
/// it was.
pub proof fn lemma_run_done(result: Result<OutcomeView, ServiceErrorView>, store: StoreView)
    ensures
        run(TurnView::Done { result }, store) == (store, result),
{
    reveal(run);
}

/// The run of an operation that waits for an answer is the run of what the
/// operation makes of the store's answer, against the store as the request
/// left it.
pub proof fn lemma_run_step(state: OperationView, request: StoreRequestView, store: StoreView)
    ensures
        run(TurnView::Ask { state, request }, store) == run(
            state.advance(store.execute(request).1),
            store.execute(request).0,
        ),
{
    reveal(run);
}

impl Operation {
    /// A turn of the creation of a user, as a turn of an operation.
    pub fn create_user(turn: Turn<CreateUser, UserRow>) -> (lifted: Turn<Operation, Outcome>)
        ensures
            lifted@ == OperationView::create_user(turn@),
    {
        match turn {
            Turn::Ask { state, request } => Turn::Ask { state: Operation::CreateUser(state), request },
            Turn::Done { result: Ok(row) } => Turn::Done { result: Ok(Outcome::User(row)) },
            Turn::Done { result: Err(err) } => Turn::Done { result: Err(err) },
        }
    }

    /// A turn of the creation of an audit record, as a turn of an operation.
    pub fn create_creation_information(
        turn: Turn<CreateCreationInformation, CreationInformationRow>,
    ) -> (lifted: Turn<Operation, Outcome>)
        ensures
            lifted@ == OperationView::create_creation_information(turn@),
    {
        match turn {
            Turn::Ask { state, request } => Turn::Ask {
                state: Operation::CreateCreationInformation(state),
                request,
            },
            Turn::Done { result: Ok(row) } => Turn::Done {
                result: Ok(Outcome::CreationInformation(row)),
            },
            Turn::Done { result: Err(err) } => Turn::Done { result: Err(err) },
        }
    }

    /// A turn of the recording of an edit, as a turn of an operation.
    pub fn update_creation_information(
        turn: Turn<UpdateCreationInformation, CreationInformationRow>,
    ) -> (lifted: Turn<Operation, Outcome>)
        ensures
            lifted@ == OperationView::update_creation_information(turn@),
    {
        match turn {
            Turn::Ask { state, request } => Turn::Ask {
                state: Operation::UpdateCreationInformation(state),
                request,
            },
            Turn::Done { result: Ok(row) } => Turn::Done {
                result: Ok(Outcome::CreationInformation(row)),
            },
            Turn::Done { result: Err(err) } => Turn::Done { result: Err(err) },
        }
    }

    /// A turn of the creation of a task, as a turn of an operation.
    pub fn create_task(turn: Turn<CreateTask, TaskRow>) -> (lifted: Turn<Operation, Outcome>)
        ensures
            lifted@ == OperationView::create_task(turn@),
    {
        match turn {
            Turn::Ask { state, request } => Turn::Ask { state: Operation::CreateTask(state), request },
            Turn::Done { result: Ok(row) } => Turn::Done { result: Ok(Outcome::Task(row)) },
            Turn::Done { result: Err(err) } => Turn::Done { result: Err(err) },
        }
    }

    /// A turn of the creation of a list, as a turn of an operation.
    pub fn create_list(turn: Turn<CreateList, ListRow>) -> (lifted: Turn<Operation, Outcome>)
        ensures
            lifted@ == OperationView::create_list(turn@),
    {
        match turn {
            Turn::Ask { state, request } => Turn::Ask { state: Operation::CreateList(state), request },
            Turn::Done { result: Ok(row) } => Turn::Done { result: Ok(Outcome::List(row)) },
            Turn::Done { result: Err(err) } => Turn::Done { result: Err(err) },
        }
    }

    /// A turn of the revision of a list, as a turn of an operation.
    pub fn update_list(turn: Turn<UpdateList, ListRow>) -> (lifted: Turn<Operation, Outcome>)
        ensures
            lifted@ == OperationView::update_list(turn@),
    {
        match turn {
            Turn::Ask { state, request } => Turn::Ask { state: Operation::UpdateList(state), request },
            Turn::Done { result: Ok(row) } => Turn::Done { result: Ok(Outcome::List(row)) },
            Turn::Done { result: Err(err) } => Turn::Done { result: Err(err) },
        }
    }

    /// A turn of the addition of a task, as a turn of an operation.
    pub fn add_task(turn: Turn<AddTask, ListRow>) -> (lifted: Turn<Operation, Outcome>)
        ensures
            lifted@ == OperationView::add_task(turn@),
    {
        match turn {
            Turn::Ask { state, request } => Turn::Ask { state: Operation::AddTask(state), request },
            Turn::Done { result: Ok(row) } => Turn::Done { result: Ok(Outcome::List(row)) },
            Turn::Done { result: Err(err) } => Turn::Done { result: Err(err) },
        }
    }

    /// A turn of the addition of a new task, as a turn of an operation.
    pub fn add_new_task(turn: Turn<AddNewTask, TaskRow>) -> (lifted: Turn<Operation, Outcome>)
        ensures
            lifted@ == OperationView::add_new_task(turn@),
    {
        match turn {
            Turn::Ask { state, request } => Turn::Ask { state: Operation::AddNewTask(state), request },
            Turn::Done { result: Ok(row) } => Turn::Done { result: Ok(Outcome::Task(row)) },
            Turn::Done { result: Err(err) } => Turn::Done { result: Err(err) },
        }
    }

    /// Takes the operation from the store's answer to its next request, or
    /// to its result.
    pub fn advance(self, reply: StoreReply) -> (turn: Turn<Operation, Outcome>)
        ensures
            turn@ == self@.advance(reply@),
            turn_steps(turn@) <= self@.steps_left(),
    {
        proof {
            self@.lemma_progress(reply@);
        }
        match self {
            Operation::Question(query) => Turn::Done { result: query.interpret(reply) },
            Operation::CreateUser(state) => Operation::create_user(state.resume(reply)),
            Operation::CreateCreationInformation(state) => Operation::create_creation_information(
                state.resume(reply),
            ),
            Operation::UpdateCreationInformation(state) => Operation::update_creation_information(
                state.resume(reply),
            ),
            Operation::CreateTask(state) => Operation::create_task(state.resume(reply)),
            Operation::CreateList(state) => Operation::create_list(state.resume(reply)),
            Operation::UpdateList(state) => Operation::update_list(state.resume(reply)),
            Operation::AddTask(state) => Operation::add_task(state.resume(reply)),
            Operation::AddNewTask(state) => Operation::add_new_task(state.resume(reply)),
        }
    }
}

/// Runs an operation against a store in memory. See `run`.
pub fn run_in_memory(turn: Turn<Operation, Outcome>, store: &mut MemoryStore) -> (result: Result<
    Outcome,
    ServiceError,
>)
    ensures
        (final(store)@, result_view(result)) == run(turn@, old(store)@),
{
    let mut current = turn;
    loop
        invariant
            run(current@, store@) == run(turn@, old(store)@),
        decreases turn_steps(current@),
    {
        match current {
            Turn::Done { result } => {
                proof {
                    lemma_run_done(result_view(result), store@);
                }
                return result;
            },
            Turn::Ask { state, request } => {
                proof {
                    lemma_run_step(state@, request@, store@);
                }
                let reply = store.execute(request);
                current = state.advance(reply);
            },
        }
    }
}

} // verus!
