//! How a service and the store take turns. A service never touches the store:
//! it says what it wants to know or to have written, and goes on when it is
//! told what the store answered.
//!
//! Two parts of a protocol are shared by the operations: the check that what
//! an entity refers to exists, and the writing of a row with its reading back.
//! A part reports a failure under the message for the service's own faults;
//! the operation that it is a part of puts its own message in that place,
//! unless the failure is the service's own fault.

use vstd::prelude::*;
use crate::constants::INTERNAL_ERROR;
use crate::errors::{Cause, CauseView, EntityKind, ServiceError, ServiceErrorView};
use crate::identifiers::{canonical_uuid_text, format_uuid};
use crate::store::{Row, RowView, StoreReply, StoreReplyView, StoreRequest, StoreRequestView};
use crate::text::{frame, framed, owned};

verus! {

/// What is said of an answer that does not fit the question.
pub const UNEXPECTED_REPLY_MESSAGE: &'static str = "Unexpected reply from the store";

/// Where an operation stands: it waits for the store's answer to a request, or
/// it has ended with a result.
#[derive(Debug)]
pub enum Turn<S, T> {
    Ask { state: S, request: StoreRequest },
    Done { result: Result<T, ServiceError> },
}

/// A `Turn` as specifications see it.
pub enum TurnView<S, T> {
    Ask { state: S, request: StoreRequestView },
    Done { result: Result<T, ServiceErrorView> },
}

impl<S: View, T: View> View for Turn<S, T> {
    type V = TurnView<S::V, T::V>;

    open spec fn view(&self) -> TurnView<S::V, T::V> {
        match self {
            Turn::Ask { state, request } => TurnView::Ask { state: state@, request: request@ },
            Turn::Done { result } => TurnView::Done {
                result: match result {
                    Ok(value) => Ok(value@),
                    Err(err) => Err(err@),
                },
            },
        }
    }
}

/// The failure of the operation with the given message, for the given cause.
pub open spec fn failure(message: Seq<char>, cause: CauseView) -> ServiceErrorView {
    ServiceErrorView { message, cause }
}

/// The failure that is the service's own fault.
pub open spec fn internal_failure(details: Seq<char>) -> ServiceErrorView {
    failure(INTERNAL_ERROR@, CauseView::Internal { details })
}

/// What is said of a row that is not found after it was written.
pub open spec fn lost_row_message(entity: EntityKind, uuid: Seq<char>) -> Seq<char> {
    framed("Couldn't find "@ + entity.name_text() + " '"@, uuid, "' after insert"@)
}

/// The failure that an answer other than the expected one stands for: the
/// store's own failure, under the operation's message, or an answer that does
/// not fit the question.
pub open spec fn reply_failure(message: Seq<char>, reply: StoreReplyView) -> ServiceErrorView {
    match reply {
        StoreReplyView::Failed { details } => failure(message, CauseView::Persistence { details }),
        _ => internal_failure(UNEXPECTED_REPLY_MESSAGE@),
    }
}

/// The failure that is the service's own fault.
pub fn internal_error(details: String) -> (err: ServiceError)
    ensures
        err@ == internal_failure(details@),
{
    ServiceError::new(INTERNAL_ERROR, Cause::Internal { details })
}

/// The failure of an operation whose input is malformed.
pub fn validation_error(message: &str, details: String) -> (err: ServiceError)
    ensures
        err@ == failure(message@, CauseView::Validation { details: details@ }),
{
    ServiceError::new(message, Cause::Validation { details })
}

/// The failure of an operation that wrote a row and does not find it.
pub fn lost_row_error(entity: EntityKind, uuid: &String) -> (err: ServiceError)
    ensures
        err@ == internal_failure(lost_row_message(entity, uuid@)),
{
    let before = frame("Couldn't find ", entity.name(), " '");
    internal_error(frame(before.as_str(), uuid.as_str(), "' after insert"))
}

/// The failure that an answer other than the expected one stands for.
pub fn reply_error(message: &str, reply: StoreReply) -> (err: ServiceError)
    ensures
        err@ == reply_failure(message@, reply@),
{
    match reply {
        StoreReply::Failed { details } => ServiceError::new(message, Cause::Persistence { details }),
        _ => internal_error(owned(UNEXPECTED_REPLY_MESSAGE)),
    }
}

/// A reference to an entity: its kind and its identifier.
#[derive(Clone, Copy, Debug, PartialEq, Eq)]
pub struct Reference {
    pub entity: EntityKind,
    pub uuid: u128,
}

impl Reference {
    /// The question whether the entity exists.
    pub open spec fn question(self) -> StoreRequestView {
        StoreRequestView::Exists { entity: self.entity, uuid: canonical_uuid_text(self.uuid) }
    }

    /// The failure for which the entity's absence stands.
    pub open spec fn missing(self) -> ServiceErrorView {
        failure(
            INTERNAL_ERROR@,
            CauseView::ReferenceNotFound { entity: self.entity, uuid: canonical_uuid_text(self.uuid) },
        )
    }

    /// The question whether the entity exists.
    pub fn ask(&self) -> (request: StoreRequest)
        ensures
            request@ == self.question(),
    {
        StoreRequest::Exists { entity: self.entity, uuid: format_uuid(self.uuid) }
    }
}

/// The references to entities of one kind with each of the identifiers.
pub open spec fn references_to(entity: EntityKind, uuids: Option<Seq<u128>>) -> Seq<Reference> {
    match uuids {
        Some(list) => Seq::new(list.len(), |i: int| Reference { entity, uuid: list[i] }),
        None => Seq::empty(),
    }
}

/// The reference to the entity of a kind with the identifier, if there is one.
pub open spec fn reference_to(entity: EntityKind, uuid: Option<u128>) -> Seq<Reference> {
    match uuid {
        Some(id) => seq![Reference { entity, uuid: id }],
        None => Seq::empty(),
    }
}

/// Puts a reference to each of the identifiers at the end of `references`.
pub fn push_references(references: &mut Vec<Reference>, entity: EntityKind, uuids: &Option<Vec<u128>>)
    ensures
        final(references)@ == old(references)@ + references_to(
            entity,
            crate::models::utilities::optional_elements(*uuids),
        ),
{
    match uuids {
        Some(list) => {
            let ghost before = references@;
            let mut i: usize = 0;
            while i < list.len()
                invariant
                    i <= list.len(),
                    references@ == before + references_to(entity, Some(list@.subrange(0, i as int))),
                decreases list.len() - i,
            {
                references.push(Reference { entity, uuid: list[i] });
                assert(references@ =~= before + references_to(
                    entity,
                    Some(list@.subrange(0, i + 1)),
                ));
                i += 1;
            }
            assert(list@.subrange(0, i as int) =~= list@);
        },
        None => {
            assert(references@ =~= old(references)@ + Seq::<Reference>::empty());
        },
    }
}

/// Puts a reference to the identifier, if there is one, at the end of
/// `references`.
pub fn push_reference(references: &mut Vec<Reference>, entity: EntityKind, uuid: &Option<u128>)
    ensures
        final(references)@ == old(references)@ + reference_to(entity, *uuid),
{
    match uuid {
        Some(id) => {
            references.push(Reference { entity, uuid: *id });
            assert(references@ =~= old(references)@ + seq![Reference { entity, uuid: *id }]);
        },
        None => {
            assert(references@ =~= old(references)@ + Seq::<Reference>::empty());
        },
    }
}

/// The check that each of a list of references resolves: the store is asked
/// about one after the other, and the first that it does not hold ends the
/// check. The state is the list and the place of the reference that the store
/// has been asked about.
#[derive(Debug)]
pub struct CheckReferences {
    pub pending: Vec<Reference>,
    pub next: usize,
}

/// A `CheckReferences` as specifications see it.
pub struct CheckReferencesView {
    pub pending: Seq<Reference>,
    pub next: int,
}

impl View for CheckReferences {
    type V = CheckReferencesView;

    open spec fn view(&self) -> CheckReferencesView {
        CheckReferencesView { pending: self.pending@, next: self.next as int }
    }
}

impl CheckReferencesView {
    /// The number of questions that are still open, the one that has been
    /// asked included.
    pub open spec fn steps_left(self) -> nat {
        if 0 <= self.next < self.pending.len() {
            (self.pending.len() - self.next) as nat
        } else {
            0
        }
    }

    /// The check of the references from `next` on.
    pub open spec fn from(pending: Seq<Reference>, next: int) -> TurnView<CheckReferencesView, ()> {
        if 0 <= next < pending.len() {
            TurnView::Ask {
                state: CheckReferencesView { pending, next },
                request: pending[next].question(),
            }
        } else {
            TurnView::Done { result: Ok(()) }
        }
    }

    /// The check of all the references.
    pub open spec fn begin(pending: Seq<Reference>) -> TurnView<CheckReferencesView, ()> {
        CheckReferencesView::from(pending, 0)
    }

    /// How the check goes on after an answer: with the next reference where
    /// the entity exists, and no further where it does not.
    pub open spec fn resume(self, reply: StoreReplyView) -> TurnView<CheckReferencesView, ()> {
        if 0 <= self.next < self.pending.len() {
            match reply {
                StoreReplyView::Exists { exists } => if exists {
                    CheckReferencesView::from(self.pending, self.next + 1)
                } else {
                    TurnView::Done { result: Err(self.pending[self.next].missing()) }
                },
                _ => TurnView::Done { result: Err(reply_failure(INTERNAL_ERROR@, reply)) },
            }
        } else {
            TurnView::Done { result: Err(internal_failure(UNEXPECTED_REPLY_MESSAGE@)) }
        }
    }

    /// A check that goes on has fewer questions open than before.
    pub proof fn lemma_progress(self, reply: StoreReplyView)
        ensures
            self.resume(reply) matches TurnView::Ask { state, .. } ==> state.steps_left()
                < self.steps_left(),
            CheckReferencesView::begin(self.pending) matches TurnView::Ask { state, .. }
                ==> state.steps_left() == self.pending.len(),
    {
    }
}

impl CheckReferences {
    fn from(pending: Vec<Reference>, next: usize) -> (turn: Turn<CheckReferences, ()>)
        ensures
            turn@ == CheckReferencesView::from(pending@, next as int),
    {
        if next < pending.len() {
            let request = pending[next].ask();
            Turn::Ask { state: CheckReferences { pending, next }, request }
        } else {
            Turn::Done { result: Ok(()) }
        }
    }

    /// Begins the check of the references, in their order.
    pub fn begin(pending: Vec<Reference>) -> (turn: Turn<CheckReferences, ()>)
        ensures
            turn@ == CheckReferencesView::begin(pending@),
    {
        CheckReferences::from(pending, 0)
    }

    /// Goes on after the store's answer.
    pub fn resume(self, reply: StoreReply) -> (turn: Turn<CheckReferences, ()>)
        ensures
            turn@ == self@.resume(reply@),
    {
        if self.next < self.pending.len() {
            match reply {
                StoreReply::Exists { exists } => {
                    if exists {
                        CheckReferences::from(self.pending, self.next + 1)
                    } else {
                        let reference = self.pending[self.next];
                        Turn::Done {
                            result: Err(
                                ServiceError::new(
                                    INTERNAL_ERROR,
                                    Cause::ReferenceNotFound {
                                        entity: reference.entity,
                                        uuid: format_uuid(reference.uuid),
                                    },
                                ),
                            ),
                        }
                    }
                },
                other => Turn::Done { result: Err(reply_error(INTERNAL_ERROR, other)) },
            }
        } else {
            Turn::Done { result: Err(internal_error(owned(UNEXPECTED_REPLY_MESSAGE))) }
        }
    }
}

/// The writing of a new row: the row is written, and then read back by its
/// identifier, so that what is handed on is what the store holds. The state
/// is what the store has been asked to do with the row.
#[derive(Debug)]
pub enum WriteRow {
    Inserting { entity: EntityKind, uuid: String },
    ReadingBack { entity: EntityKind, uuid: String },
}

/// A `WriteRow` as specifications see it.
pub enum WriteRowView {
    Inserting { entity: EntityKind, uuid: Seq<char> },
    ReadingBack { entity: EntityKind, uuid: Seq<char> },
}

impl View for WriteRow {
    type V = WriteRowView;

    open spec fn view(&self) -> WriteRowView {
        match self {
            WriteRow::Inserting { entity, uuid } => WriteRowView::Inserting {
                entity: *entity,
                uuid: uuid@,
            },
            WriteRow::ReadingBack { entity, uuid } => WriteRowView::ReadingBack {
                entity: *entity,
                uuid: uuid@,
            },
        }
    }
}

impl WriteRowView {
    /// The number of requests that are still open, the one that has been made
    /// included.
    pub open spec fn steps_left(self) -> nat {
        match self {
            WriteRowView::Inserting { .. } => 2,
            WriteRowView::ReadingBack { .. } => 1,
        }
    }

    /// The writing of `row`.
    pub open spec fn begin(row: RowView) -> TurnView<WriteRowView, RowView> {
        TurnView::Ask {
            state: WriteRowView::Inserting { entity: row.entity(), uuid: row.uuid() },
            request: StoreRequestView::Insert { row },
        }
    }

    /// How the writing goes on after an answer. A row that was written and is
    /// not found is the service's own fault.
    pub open spec fn resume(self, reply: StoreReplyView) -> TurnView<WriteRowView, RowView> {
        match self {
            WriteRowView::Inserting { entity, uuid } => match reply {
                StoreReplyView::Written => TurnView::Ask {
                    state: WriteRowView::ReadingBack { entity, uuid },
                    request: StoreRequestView::Find { entity, uuid },
                },
                _ => TurnView::Done { result: Err(reply_failure(INTERNAL_ERROR@, reply)) },
            },
            WriteRowView::ReadingBack { entity, uuid } => match reply {
                StoreReplyView::Found { row: Some(found) } => if found.entity() == entity {
                    TurnView::Done { result: Ok(found) }
                } else {
                    TurnView::Done { result: Err(internal_failure(UNEXPECTED_REPLY_MESSAGE@)) }
                },
                StoreReplyView::Found { row: None } => TurnView::Done {
                    result: Err(internal_failure(lost_row_message(entity, uuid))),
                },
                _ => TurnView::Done { result: Err(reply_failure(INTERNAL_ERROR@, reply)) },
            },
        }
    }

    /// The kind of the row that is written.
    pub open spec fn entity(self) -> EntityKind {
        match self {
            WriteRowView::Inserting { entity, .. } => entity,
            WriteRowView::ReadingBack { entity, .. } => entity,
        }
    }

    /// A writing that goes on has fewer requests open than before, and a row
    /// that it hands on is of the kind that was written.
    pub proof fn lemma_progress(self, reply: StoreReplyView)
        ensures
            self.resume(reply) matches TurnView::Ask { state, .. } ==> state.steps_left()
                < self.steps_left() && state.entity() == self.entity(),
            self.resume(reply) matches TurnView::Done { result: Ok(row) } ==> row.entity()
                == self.entity(),
    {
    }
}

impl WriteRow {
    /// Begins the writing of `row`.
    pub fn begin(row: Row) -> (turn: Turn<WriteRow, Row>)
        ensures
            turn@ == WriteRowView::begin(row@),
    {
        let state = WriteRow::Inserting { entity: row.entity(), uuid: row.uuid().clone() };
        Turn::Ask { state, request: StoreRequest::Insert { row } }
    }

    /// Goes on after the store's answer.
    pub fn resume(self, reply: StoreReply) -> (turn: Turn<WriteRow, Row>)
        ensures
            turn@ == self@.resume(reply@),
    {
        match self {
            WriteRow::Inserting { entity, uuid } => match reply {
                StoreReply::Written => {
                    let request = StoreRequest::Find { entity, uuid: uuid.clone() };
                    Turn::Ask { state: WriteRow::ReadingBack { entity, uuid }, request }
                },
                other => Turn::Done { result: Err(reply_error(INTERNAL_ERROR, other)) },
            },
            WriteRow::ReadingBack { entity, uuid } => match reply {
                StoreReply::Found { row: Some(found) } => {
                    if found.entity() == entity {
                        Turn::Done { result: Ok(found) }
                    } else {
                        Turn::Done { result: Err(internal_error(owned(UNEXPECTED_REPLY_MESSAGE))) }
                    }
                },
                StoreReply::Found { row: None } => Turn::Done {
                    result: Err(lost_row_error(entity, &uuid)),
                },
                other => Turn::Done { result: Err(reply_error(INTERNAL_ERROR, other)) },
            },
        }
    }
}

} // verus!
