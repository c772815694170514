//! Audit records: creating one for a new entity, and recording an edit.

use vstd::prelude::*;
use crate::constants::{
    CREATION_INFORMATION_NOT_CREATED_ERROR_MESSAGE,
    CREATION_INFORMATION_NOT_UPDATED_ERROR_MESSAGE,
};
use crate::errors::{Cause, CauseView, EntityKind, ServiceError};
use crate::identifiers::{is_random_uuid, random_uuid};
use crate::models::creation_information::CreationInformation;
use crate::models::database::{CreationInformationRow, CreationInformationRowView};
use crate::models::graphql::{CreateCreationInformationInput, UpdateCreationInformationInput};
use crate::models::utilities::{parse_uuid, uuid_reading};
use crate::services::operation::{
    clock_failed,
    clock_failure,
    Operation,
    OperationView,
    Outcome,
    OutcomeView,
    Question,
};
use crate::services::protocol::{
    failure,
    internal_error,
    internal_failure,
    reply_error,
    reply_failure,
    validation_error,
    CheckReferences,
    CheckReferencesView,
    Reference,
    Turn,
    TurnView,
    WriteRow,
    WriteRowView,
    UNEXPECTED_REPLY_MESSAGE,
};
use crate::store::{Row, RowView, StoreReply, StoreReplyView, StoreRequest, StoreRequestView};
use crate::text::owned;
use crate::timestamps::Timestamp;

verus! {

/// The creation of an audit record: it is checked that the creator exists,
/// then the record's row is written and read back.
#[derive(Debug)]
pub enum CreateCreationInformation {
    Checking { inner: CheckReferences, information: CreationInformation },
    Writing { inner: WriteRow },
}

/// A `CreateCreationInformation` as specifications see it.
pub enum CreateCreationInformationView {
    Checking { inner: CheckReferencesView, information: CreationInformation },
    Writing { inner: WriteRowView },
}

impl View for CreateCreationInformation {
    type V = CreateCreationInformationView;

    open spec fn view(&self) -> CreateCreationInformationView {
        match self {
            CreateCreationInformation::Checking {
                inner,
                information,
            } => CreateCreationInformationView::Checking { inner: inner@, information: *information },
            CreateCreationInformation::Writing { inner } => CreateCreationInformationView::Writing {
                inner: inner@,
            },
        }
    }
}

impl CreateCreationInformationView {
    /// The number of requests that are still open.
    pub open spec fn steps_left(self) -> nat {
        match self {
            CreateCreationInformationView::Checking { inner, .. } => inner.steps_left() + 2,
            CreateCreationInformationView::Writing { inner } => inner.steps_left(),
        }
    }

    /// What the record refers to: its creator.
    pub open spec fn references(information: CreationInformation) -> Seq<Reference> {
        seq![Reference { entity: EntityKind::User, uuid: information.creator_user_uuid }]
    }

    /// What follows from a turn of the writing.
    pub open spec fn after_writing(turn: TurnView<WriteRowView, RowView>) -> TurnView<
        CreateCreationInformationView,
        CreationInformationRowView,
    > {
        match turn {
            TurnView::Ask { state, request } => TurnView::Ask {
                state: CreateCreationInformationView::Writing { inner: state },
                request,
            },
            TurnView::Done { result: Ok(RowView::CreationInformation(row)) } => TurnView::Done {
                result: Ok(row),
            },
            TurnView::Done { result: Ok(_) } => TurnView::Done {
                result: Err(internal_failure(UNEXPECTED_REPLY_MESSAGE@)),
            },
            TurnView::Done { result: Err(err) } => TurnView::Done {
                result: Err(err.under(CREATION_INFORMATION_NOT_CREATED_ERROR_MESSAGE@)),
            },
        }
    }

    /// What follows from a turn of the check: once the creator is known to
    /// exist, the record is written.
    pub open spec fn after_checking(
        turn: TurnView<CheckReferencesView, ()>,
        information: CreationInformation,
    ) -> TurnView<CreateCreationInformationView, CreationInformationRowView> {
        match turn {
            TurnView::Ask { state, request } => TurnView::Ask {
                state: CreateCreationInformationView::Checking { inner: state, information },
                request,
            },
            TurnView::Done { result: Ok(_) } => CreateCreationInformationView::after_writing(
                WriteRowView::begin(
                    RowView::CreationInformation(CreationInformationRowView::of(information)),
                ),
            ),
            TurnView::Done { result: Err(err) } => TurnView::Done {
                result: Err(err.under(CREATION_INFORMATION_NOT_CREATED_ERROR_MESSAGE@)),
            },
        }
    }

    /// The creation of the record of an entity that the user named by
    /// `creator` creates at `now`. A text that stands for no identifier ends
    /// it at once.
    pub open spec fn begin(creator: Seq<char>, uuid: u128, now: Timestamp) -> TurnView<
        CreateCreationInformationView,
        CreationInformationRowView,
    > {
        match CreationInformation::created(creator, uuid, now) {
            Err(details) => TurnView::Done {
                result: Err(
                    failure(
                        CREATION_INFORMATION_NOT_CREATED_ERROR_MESSAGE@,
                        CauseView::Validation { details },
                    ),
                ),
            },
            Ok(information) => CreateCreationInformationView::after_checking(
                CheckReferencesView::begin(CreateCreationInformationView::references(information)),
                information,
            ),
        }
    }

    /// How the creation goes on after an answer.
    pub open spec fn resume(self, reply: StoreReplyView) -> TurnView<
        CreateCreationInformationView,
        CreationInformationRowView,
    > {
        match self {
            CreateCreationInformationView::Checking {
                inner,
                information,
            } => CreateCreationInformationView::after_checking(inner.resume(reply), information),
            CreateCreationInformationView::Writing {
                inner,
            } => CreateCreationInformationView::after_writing(inner.resume(reply)),
        }
    }

    /// A creation that goes on has fewer requests open than before.
    pub proof fn lemma_progress(self, reply: StoreReplyView)
        ensures
            self.resume(reply) matches TurnView::Ask { state, .. } ==> state.steps_left()
                < self.steps_left(),
    {
        match self {
            CreateCreationInformationView::Checking { inner, .. } => {
                inner.lemma_progress(reply);
            },
            CreateCreationInformationView::Writing { inner } => {
                inner.lemma_progress(reply);
            },
        }
    }
}

impl CreateCreationInformation {
    fn after_writing(turn: Turn<WriteRow, Row>) -> (next: Turn<
        CreateCreationInformation,
        CreationInformationRow,
    >)
        ensures
            next@ == CreateCreationInformationView::after_writing(turn@),
    {
        match turn {
            Turn::Ask { state, request } => Turn::Ask {
                state: CreateCreationInformation::Writing { inner: state },
                request,
            },
            Turn::Done { result: Ok(Row::CreationInformation(row)) } => Turn::Done {
                result: Ok(row),
            },
            Turn::Done { result: Ok(_) } => Turn::Done {
                result: Err(internal_error(owned(UNEXPECTED_REPLY_MESSAGE))),
            },
            Turn::Done { result: Err(err) } => Turn::Done {
                result: Err(err.under(CREATION_INFORMATION_NOT_CREATED_ERROR_MESSAGE)),
            },
        }
    }

    fn after_checking(turn: Turn<CheckReferences, ()>, information: CreationInformation) -> (next:
        Turn<CreateCreationInformation, CreationInformationRow>)
        ensures
            next@ == CreateCreationInformationView::after_checking(turn@, information),
    {
        match turn {
            Turn::Ask { state, request } => Turn::Ask {
                state: CreateCreationInformation::Checking { inner: state, information },
                request,
            },
            Turn::Done { result: Ok(_) } => {
                let new_creation_information_row =
                    CreationInformationRow::from_creation_information(information);
                CreateCreationInformation::after_writing(
                    WriteRow::begin(Row::CreationInformation(new_creation_information_row)),
                )
            },
            Turn::Done { result: Err(err) } => Turn::Done {
                result: Err(err.under(CREATION_INFORMATION_NOT_CREATED_ERROR_MESSAGE)),
            },
        }
    }

    /// Begins the creation of the record of an entity that the input's user
    /// creates at `now`, under the identifier `uuid`.
    pub fn begin(input: CreateCreationInformationInput, uuid: u128, now: Timestamp) -> (turn: Turn<
        CreateCreationInformation,
        CreationInformationRow,
    >)
        ensures
            turn@ == CreateCreationInformationView::begin(input@, uuid, now),
    {
        match CreationInformation::from_create_creation_information_input(input, uuid, now) {
            Err(err) => Turn::Done {
                result: Err(validation_error(CREATION_INFORMATION_NOT_CREATED_ERROR_MESSAGE, err)),
            },
            Ok(information) => {
                let mut references: Vec<Reference> = Vec::new();
                references.push(
                    Reference { entity: EntityKind::User, uuid: information.creator_user_uuid },
                );
                assert(references@ =~= CreateCreationInformationView::references(information));
                CreateCreationInformation::after_checking(
                    CheckReferences::begin(references),
                    information,
                )
            },
        }
    }

    /// Goes on after the store's answer.
    pub fn resume(self, reply: StoreReply) -> (turn: Turn<
        CreateCreationInformation,
        CreationInformationRow,
    >)
        ensures
            turn@ == self@.resume(reply@),
    {
        match self {
            CreateCreationInformation::Checking {
                inner,
                information,
            } => CreateCreationInformation::after_checking(inner.resume(reply), information),
            CreateCreationInformation::Writing { inner } => CreateCreationInformation::after_writing(
                inner.resume(reply),
            ),
        }
    }
}

/// The recording of an edit: the record is looked for, it is checked that the
/// editor exists, and the editor and the time of the edit are written. Who
/// created the entity and when is never written again, and the time of the
/// last edit is never written earlier than the creation.
#[derive(Debug)]
pub enum UpdateCreationInformation {
    Finding { uuid: String, editor: String, now: Timestamp },
    Checking { inner: CheckReferences, row: CreationInformationRow, editor: u128, now: Timestamp },
    Updating { row: CreationInformationRow },
}

/// An `UpdateCreationInformation` as specifications see it.
pub enum UpdateCreationInformationView {
    Finding { uuid: Seq<char>, editor: Seq<char>, now: Timestamp },
    Checking {
        inner: CheckReferencesView,
        row: CreationInformationRowView,
        editor: u128,
        now: Timestamp,
    },
    Updating { row: CreationInformationRowView },
}

impl View for UpdateCreationInformation {
    type V = UpdateCreationInformationView;

    open spec fn view(&self) -> UpdateCreationInformationView {
        match self {
            UpdateCreationInformation::Finding {
                uuid,
                editor,
                now,
            } => UpdateCreationInformationView::Finding { uuid: uuid@, editor: editor@, now: *now },
            UpdateCreationInformation::Checking {
                inner,
                row,
                editor,
                now,
            } => UpdateCreationInformationView::Checking {
                inner: inner@,
                row: row@,
                editor: *editor,
                now: *now,
            },
            UpdateCreationInformation::Updating { row } => UpdateCreationInformationView::Updating {
                row: row@,
            },
        }
    }
}

impl UpdateCreationInformationView {
    /// The number of requests that are still open.
    pub open spec fn steps_left(self) -> nat {
        match self {
            UpdateCreationInformationView::Finding { .. } => 3,
            UpdateCreationInformationView::Checking { inner, .. } => inner.steps_left() + 1,
            UpdateCreationInformationView::Updating { .. } => 1,
        }
    }

    /// What the edit refers to: the editor.
    pub open spec fn references(editor: u128) -> Seq<Reference> {
        seq![Reference { entity: EntityKind::User, uuid: editor }]
    }

    /// The request that writes the editor and the time of the edit.
    pub open spec fn write(row: CreationInformationRowView) -> StoreRequestView {
        StoreRequestView::UpdateCreationInformation {
            uuid: row.uuid,
            last_updated_by_user_uuid: row.last_updated_by_user_uuid,
            last_updated_time: row.last_updated_time,
        }
    }

    /// What follows from a turn of the check: once the editor is known to
    /// exist, the record is read from its row and the edit is written. A row
    /// that cannot be read is the service's own fault.
    pub open spec fn after_checking(
        turn: TurnView<CheckReferencesView, ()>,
        row: CreationInformationRowView,
        editor: u128,
        now: Timestamp,
    ) -> TurnView<UpdateCreationInformationView, CreationInformationRowView> {
        match turn {
            TurnView::Ask { state, request } => TurnView::Ask {
                state: UpdateCreationInformationView::Checking { inner: state, row, editor, now },
                request,
            },
            TurnView::Done { result: Ok(_) } => match CreationInformation::of_row(row) {
                Err(details) => TurnView::Done { result: Err(internal_failure(details)) },
                Ok(information) => {
                    let updated = CreationInformationRowView::of(information.updated(editor, now));
                    TurnView::Ask {
                        state: UpdateCreationInformationView::Updating { row: updated },
                        request: UpdateCreationInformationView::write(updated),
                    }
                },
            },
            TurnView::Done { result: Err(err) } => TurnView::Done {
                result: Err(err.under(CREATION_INFORMATION_NOT_UPDATED_ERROR_MESSAGE@)),
            },
        }
    }

    /// The recording of an edit of the record `uuid` at `now` by the user
    /// that `editor` names.
    pub open spec fn begin(uuid: Seq<char>, editor: Seq<char>, now: Timestamp) -> TurnView<
        UpdateCreationInformationView,
        CreationInformationRowView,
    > {
        TurnView::Ask {
            state: UpdateCreationInformationView::Finding { uuid, editor, now },
            request: StoreRequestView::Find { entity: EntityKind::CreationInformation, uuid },
        }
    }

    /// How the recording goes on after an answer. A record that the store
    /// does not hold ends it: nothing is written in its place.
    pub open spec fn resume(self, reply: StoreReplyView) -> TurnView<
        UpdateCreationInformationView,
        CreationInformationRowView,
    > {
        match self {
            UpdateCreationInformationView::Finding { uuid, editor, now } => match reply {
                StoreReplyView::Found {
                    row: Some(RowView::CreationInformation(row)),
                } => match uuid_reading(editor) {
                    Err(details) => TurnView::Done {
                        result: Err(
                            failure(
                                CREATION_INFORMATION_NOT_UPDATED_ERROR_MESSAGE@,
                                CauseView::Validation { details },
                            ),
                        ),
                    },
                    Ok(editor_uuid) => UpdateCreationInformationView::after_checking(
                        CheckReferencesView::begin(
                            UpdateCreationInformationView::references(editor_uuid),
                        ),
                        row,
                        editor_uuid,
                        now,
                    ),
                },
                StoreReplyView::Found { row: None } => TurnView::Done {
                    result: Err(
                        failure(
                            CREATION_INFORMATION_NOT_UPDATED_ERROR_MESSAGE@,
                            CauseView::NotFound { entity: EntityKind::CreationInformation, uuid },
                        ),
                    ),
                },
                _ => TurnView::Done {
                    result: Err(reply_failure(CREATION_INFORMATION_NOT_UPDATED_ERROR_MESSAGE@, reply)),
                },
            },
            UpdateCreationInformationView::Checking {
                inner,
                row,
                editor,
                now,
            } => UpdateCreationInformationView::after_checking(inner.resume(reply), row, editor, now),
            UpdateCreationInformationView::Updating { row } => match reply {
                StoreReplyView::Written => TurnView::Done { result: Ok(row) },
                _ => TurnView::Done {
                    result: Err(reply_failure(CREATION_INFORMATION_NOT_UPDATED_ERROR_MESSAGE@, reply)),
                },
            },
        }
    }

    /// A recording that goes on has fewer requests open than before.
    pub proof fn lemma_progress(self, reply: StoreReplyView)
        ensures
            self.resume(reply) matches TurnView::Ask { state, .. } ==> state.steps_left()
                < self.steps_left(),
    {
        match self {
            UpdateCreationInformationView::Checking { inner, .. } => {
                inner.lemma_progress(reply);
            },
            _ => {},
        }
    }
}

impl UpdateCreationInformation {
    fn after_checking(
        turn: Turn<CheckReferences, ()>,
        row: CreationInformationRow,
        editor: u128,
        now: Timestamp,
    ) -> (next: Turn<UpdateCreationInformation, CreationInformationRow>)
        ensures
            next@ == UpdateCreationInformationView::after_checking(turn@, row@, editor, now),
    {
        match turn {
            Turn::Ask { state, request } => Turn::Ask {
                state: UpdateCreationInformation::Checking { inner: state, row, editor, now },
                request,
            },
            Turn::Done { result: Ok(_) } => {
                match CreationInformation::from_creation_information_row(row) {
                    Err(err) => Turn::Done { result: Err(internal_error(err)) },
                    Ok(res) => {
                        let mut creation_information = res;
                        creation_information.set_last_updated(editor, now);
                        let updated_creation_information_row =
                            CreationInformationRow::from_creation_information(creation_information);
                        let request = StoreRequest::UpdateCreationInformation {
                            uuid: updated_creation_information_row.uuid.clone(),
                            last_updated_by_user_uuid:
                                updated_creation_information_row.last_updated_by_user_uuid.clone(),
                            last_updated_time:
                                updated_creation_information_row.last_updated_time.clone(),
                        };
                        Turn::Ask {
                            state: UpdateCreationInformation::Updating {
                                row: updated_creation_information_row,
                            },
                            request,
                        }
                    },
                }
            },
            Turn::Done { result: Err(err) } => Turn::Done {
                result: Err(err.under(CREATION_INFORMATION_NOT_UPDATED_ERROR_MESSAGE)),
            },
        }
    }

    /// Begins the recording of an edit of the record `uuid` at `now` by the
    /// input's user.
    pub fn begin(uuid: &String, input: UpdateCreationInformationInput, now: Timestamp) -> (turn: Turn<
        UpdateCreationInformation,
        CreationInformationRow,
    >)
        ensures
            turn@ == UpdateCreationInformationView::begin(uuid@, input@, now),
    {
        Turn::Ask {
            state: UpdateCreationInformation::Finding {
                uuid: uuid.clone(),
                editor: input.last_updated_by_user_uuid,
                now,
            },
            request: StoreRequest::Find {
                entity: EntityKind::CreationInformation,
                uuid: uuid.clone(),
            },
        }
    }

    /// Goes on after the store's answer.
    pub fn resume(self, reply: StoreReply) -> (turn: Turn<
        UpdateCreationInformation,
        CreationInformationRow,
    >)
        ensures
            turn@ == self@.resume(reply@),
    {
        match self {
            UpdateCreationInformation::Finding { uuid, editor, now } => match reply {
                StoreReply::Found { row: Some(Row::CreationInformation(row)) } => {
                    match parse_uuid(&editor) {
                        Err(err) => Turn::Done {
                            result: Err(
                                validation_error(CREATION_INFORMATION_NOT_UPDATED_ERROR_MESSAGE, err),
                            ),
                        },
                        Ok(last_updated_by_uuid) => {
                            let mut references: Vec<Reference> = Vec::new();
                            references.push(
                                Reference { entity: EntityKind::User, uuid: last_updated_by_uuid },
                            );
                            assert(references@ =~= UpdateCreationInformationView::references(
                                last_updated_by_uuid,
                            ));
                            UpdateCreationInformation::after_checking(
                                CheckReferences::begin(references),
                                row,
                                last_updated_by_uuid,
                                now,
                            )
                        },
                    }
                },
                StoreReply::Found { row: None } => Turn::Done {
                    result: Err(
                        ServiceError::new(
                            CREATION_INFORMATION_NOT_UPDATED_ERROR_MESSAGE,
                            Cause::NotFound { entity: EntityKind::CreationInformation, uuid },
                        ),
                    ),
                },
                other => Turn::Done {
                    result: Err(reply_error(CREATION_INFORMATION_NOT_UPDATED_ERROR_MESSAGE, other)),
                },
            },
            UpdateCreationInformation::Checking {
                inner,
                row,
                editor,
                now,
            } => UpdateCreationInformation::after_checking(inner.resume(reply), row, editor, now),
            UpdateCreationInformation::Updating { row } => match reply {
                StoreReply::Written => Turn::Done { result: Ok(row) },
                other => Turn::Done {
                    result: Err(reply_error(CREATION_INFORMATION_NOT_UPDATED_ERROR_MESSAGE, other)),
                },
            },
        }
    }
}

/// The service for audit records.
pub struct CreationInformationService {}

impl CreationInformationService {
    /// Whether `turn` begins the creation of the record that the input
    /// describes, under a randomly drawn identifier and at a valid time.
    pub open spec fn creates(
        input: Seq<char>,
        uuid: u128,
        now: Timestamp,
        turn: TurnView<OperationView, OutcomeView>,
    ) -> bool {
        &&& is_random_uuid(uuid)
        &&& now.is_valid()
        &&& turn == OperationView::create_creation_information(
            CreateCreationInformationView::begin(input, uuid, now),
        )
    }

    /// Whether `turn` begins the recording of the edit that the input
    /// describes, at a valid time.
    pub open spec fn updates(
        uuid: Seq<char>,
        input: Seq<char>,
        now: Timestamp,
        turn: TurnView<OperationView, OutcomeView>,
    ) -> bool {
        &&& now.is_valid()
        &&& turn == OperationView::update_creation_information(
            UpdateCreationInformationView::begin(uuid, input, now),
        )
    }

    /// The service.
    pub fn new() -> (service: CreationInformationService) {
        CreationInformationService {  }
    }

    /// Asks for all audit records.
    pub fn all_creation_information(&self) -> (turn: Turn<Operation, Outcome>)
        ensures
            turn@ == OperationView::all(EntityKind::CreationInformation),
    {
        Question::all(EntityKind::CreationInformation)
    }

    /// Creates the audit record of an entity that the input's user creates
    /// now, under a fresh identifier. The result is the record's row as the
    /// store holds it. Nothing is asked of the store where the clock shows a
    /// time that cannot be recorded. What the creation comes to against a
    /// store is `outcomes::create_creation_information_outcome`.
    pub fn create_creation_information(
        &self,
        create_creation_information_input: CreateCreationInformationInput,
    ) -> (turn: Turn<Operation, Outcome>)
        ensures
            turn@ == clock_failure() || exists|uuid: u128, now: Timestamp|
                CreationInformationService::creates(
                    create_creation_information_input@,
                    uuid,
                    now,
                    turn@,
                ),
    {
        match Timestamp::now() {
            None => clock_failed(),
            Some(now) => {
                let uuid = random_uuid();
                let turn = Operation::create_creation_information(
                    CreateCreationInformation::begin(create_creation_information_input, uuid, now),
                );
                assert(CreationInformationService::creates(
                    create_creation_information_input@,
                    uuid,
                    now,
                    turn@,
                ));
                turn
            },
        }
    }

    /// Looks for the audit record with the identifier. A record that the
    /// store does not hold is no failure: the result is then that there is
    /// none.
    pub fn get_creation_information_by_uuid(&self, uuid: &String) -> (turn: Turn<Operation, Outcome>)
        ensures
            turn@ == OperationView::find(EntityKind::CreationInformation, uuid@),
    {
        Question::find(EntityKind::CreationInformation, uuid)
    }

    /// Asks whether an audit record has the identifier.
    pub fn creation_information_exists(&self, uuid: &String) -> (turn: Turn<Operation, Outcome>)
        ensures
            turn@ == OperationView::existence(EntityKind::CreationInformation, uuid@),
    {
        Question::existence(EntityKind::CreationInformation, uuid)
    }

    /// Records that the input's user edits, now, the entity whose audit
    /// record has the identifier. The result is the record's row after the
    /// edit. Nothing is asked of the store where the clock shows a time that
    /// cannot be recorded. What the recording comes to against a store is
    /// `outcomes::update_creation_information_outcome`.
    pub fn update_creation_information(
        &self,
        uuid: &String,
        update_creation_information_input: UpdateCreationInformationInput,
    ) -> (turn: Turn<Operation, Outcome>)
        ensures
            turn@ == clock_failure() || exists|now: Timestamp|
                CreationInformationService::updates(
                    uuid@,
                    update_creation_information_input@,
                    now,
                    turn@,
                ),
    {
        match Timestamp::now() {
            None => clock_failed(),
            Some(now) => {
                let turn = Operation::update_creation_information(
                    UpdateCreationInformation::begin(uuid, update_creation_information_input, now),
                );
                assert(CreationInformationService::updates(
                    uuid@,
                    update_creation_information_input@,
                    now,
                    turn@,
                ));
                turn
            },
        }
    }
}

} // verus!
