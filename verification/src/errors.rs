//! Error values: what validation refuses, and what a service reports.

use vstd::prelude::*;
use crate::text::{frame, framed, join, owned};

verus! {

/// A malformed input: a message that says what was wrong, and the value that
/// was refused.
#[derive(Clone, Debug, PartialEq, Eq)]
pub struct ValidationError {
    message: String,
    value: String,
}

impl ValidationError {
    /// The text of the message.
    pub closed spec fn message_text(&self) -> Seq<char> {
        self.message@
    }

    /// The text of the refused value; empty where none was recorded.
    pub closed spec fn value_text(&self) -> Seq<char> {
        self.value@
    }

    /// An error that carries `msg` and no value.
    pub fn new(msg: &str) -> (err: ValidationError)
        ensures
            err.message_text() == msg@,
            err.value_text() == Seq::<char>::empty(),
    {
        ValidationError { message: owned(msg), value: String::new() }
    }

    /// An error that carries `msg` and the value that was refused.
    pub fn for_value(msg: &str, value: &str) -> (err: ValidationError)
        ensures
            err.message_text() == msg@,
            err.value_text() == value@,
    {
        ValidationError { message: owned(msg), value: owned(value) }
    }

    /// The message.
    pub fn message(&self) -> (message: String)
        ensures
            message@ == self.message_text(),
    {
        self.message.clone()
    }

    /// The refused value.
    pub fn value(&self) -> (value: String)
        ensures
            value@ == self.value_text(),
    {
        self.value.clone()
    }

    /// The error as a reader sees it: its message.
    pub fn to_text(&self) -> (text: String)
        ensures
            text@ == self.message_text(),
    {
        self.message.clone()
    }

    /// The error as a developer sees it.
    pub fn to_debug_text(&self) -> (text: String)
        ensures
            text@ == framed("ValidationError { message: "@, self.message_text(), " }"@),
    {
        frame("ValidationError { message: ", self.message.as_str(), " }")
    }
}

/// The kinds of entity that the store holds.
#[derive(Clone, Copy, Debug, PartialEq, Eq, Structural)]
pub enum EntityKind {
    User,
    CreationInformation,
    List,
    Task,
}

impl EntityKind {
    /// The kind's name in a sentence.
    pub open spec fn name_text(self) -> Seq<char> {
        match self {
            EntityKind::User => "user"@,
            EntityKind::CreationInformation => "creation information"@,
            EntityKind::List => "list"@,
            EntityKind::Task => "task"@,
        }
    }

    /// The name of the table that holds the kind's rows.
    pub open spec fn table_text(self) -> Seq<char> {
        match self {
            EntityKind::User => "users"@,
            EntityKind::CreationInformation => "creation_information"@,
            EntityKind::List => "lists"@,
            EntityKind::Task => "tasks"@,
        }
    }

    /// The name of the table that holds the kind's rows.
    pub fn table(self) -> (name: &'static str)
        ensures
            name@ == self.table_text(),
    {
        match self {
            EntityKind::User => "users",
            EntityKind::CreationInformation => "creation_information",
            EntityKind::List => "lists",
            EntityKind::Task => "tasks",
        }
    }

    /// The kind's name at the head of a sentence.
    pub open spec fn title_text(self) -> Seq<char> {
        match self {
            EntityKind::User => "User"@,
            EntityKind::CreationInformation => "Creation information"@,
            EntityKind::List => "List"@,
            EntityKind::Task => "Task"@,
        }
    }

    /// The kind's name at the head of a sentence.
    pub fn title(self) -> (name: &'static str)
        ensures
            name@ == self.title_text(),
    {
        match self {
            EntityKind::User => "User",
            EntityKind::CreationInformation => "Creation information",
            EntityKind::List => "List",
            EntityKind::Task => "Task",
        }
    }

    /// The kind's name in a sentence.
    pub fn name(self) -> (name: &'static str)
        ensures
            name@ == self.name_text(),
    {
        match self {
            EntityKind::User => "user",
            EntityKind::CreationInformation => "creation information",
            EntityKind::List => "list",
            EntityKind::Task => "task",
        }
    }
}

/// Why an operation failed.
#[derive(Clone, Debug, PartialEq, Eq)]
pub enum Cause {
    /// The input is malformed.
    Validation { details: String },
    /// The input refers to an entity that the store does not hold.
    ReferenceNotFound { entity: EntityKind, uuid: String },
    /// The entity that the operation is about is not in the store.
    NotFound { entity: EntityKind, uuid: String },
    /// The store refused to read or write.
    Persistence { details: String },
    /// The service cannot vouch for its own state: a row that was written is
    /// not found, or the store answers what it was not asked.
    Internal { details: String },
}

/// A `Cause` as specifications see it.
pub enum CauseView {
    Validation { details: Seq<char> },
    ReferenceNotFound { entity: EntityKind, uuid: Seq<char> },
    NotFound { entity: EntityKind, uuid: Seq<char> },
    Persistence { details: Seq<char> },
    Internal { details: Seq<char> },
}

impl CauseView {
    /// The cause in words.
    pub open spec fn details(self) -> Seq<char> {
        match self {
            CauseView::Validation { details } => details,
            CauseView::ReferenceNotFound { entity, uuid } => framed(
                "The "@ + entity.name_text() + " '"@,
                uuid,
                "' does not exist"@,
            ),
            CauseView::NotFound { entity, uuid } => framed(
                entity.title_text() + " '"@,
                uuid,
                "' not found"@,
            ),
            CauseView::Persistence { details } => details,
            CauseView::Internal { details } => details,
        }
    }
}

impl View for Cause {
    type V = CauseView;

    open spec fn view(&self) -> CauseView {
        match self {
            Cause::Validation { details } => CauseView::Validation { details: details@ },
            Cause::ReferenceNotFound { entity, uuid } => CauseView::ReferenceNotFound {
                entity: *entity,
                uuid: uuid@,
            },
            Cause::NotFound { entity, uuid } => CauseView::NotFound { entity: *entity, uuid: uuid@ },
            Cause::Persistence { details } => CauseView::Persistence { details: details@ },
            Cause::Internal { details } => CauseView::Internal { details: details@ },
        }
    }
}

impl Cause {
    /// The cause in words.
    pub fn details(&self) -> (details: String)
        ensures
            details@ == self@.details(),
    {
        match self {
            Cause::Validation { details } => details.clone(),
            Cause::ReferenceNotFound { entity, uuid } => {
                let before = frame("The ", entity.name(), " '");
                frame(before.as_str(), uuid.as_str(), "' does not exist")
            },
            Cause::NotFound { entity, uuid } => {
                let before = join(entity.title(), " '");
                frame(before.as_str(), uuid.as_str(), "' not found")
            },
            Cause::Persistence { details } => details.clone(),
            Cause::Internal { details } => details.clone(),
        }
    }
}

/// What a service reports to its caller: the fixed message of the operation
/// that failed, and the cause.
#[derive(Clone, Debug, PartialEq, Eq)]
pub struct ServiceError {
    pub message: String,
    pub cause: Cause,
}

/// A `ServiceError` as specifications see it.
pub struct ServiceErrorView {
    pub message: Seq<char>,
    pub cause: CauseView,
}

impl View for ServiceError {
    type V = ServiceErrorView;

    open spec fn view(&self) -> ServiceErrorView {
        ServiceErrorView { message: self.message@, cause: self.cause@ }
    }
}

impl ServiceErrorView {
    /// The same cause under the message of the operation of which the failed
    /// one was a part. A failure that is the service's own fault keeps its
    /// message.
    pub open spec fn under(self, message: Seq<char>) -> ServiceErrorView {
        match self.cause {
            CauseView::Internal { .. } => self,
            _ => ServiceErrorView { message, cause: self.cause },
        }
    }
}

impl ServiceError {
    /// The error of the operation with the given message.
    pub fn new(message: &str, cause: Cause) -> (err: ServiceError)
        ensures
            err@ == (ServiceErrorView { message: message@, cause: cause@ }),
    {
        ServiceError { message: owned(message), cause }
    }

    /// The same cause under the message of the operation of which the failed
    /// one was a part. A failure that is the service's own fault keeps its
    /// message.
    pub fn under(self, message: &str) -> (err: ServiceError)
        ensures
            err@ == self@.under(message@),
    {
        match self.cause {
            Cause::Internal { details } => ServiceError {
                message: self.message,
                cause: Cause::Internal { details },
            },
            cause => ServiceError { message: owned(message), cause },
        }
    }

    /// The cause in words, as it goes into the caller's details.
    pub fn details(&self) -> (details: String)
        ensures
            details@ == self@.cause.details(),
    {
        self.cause.details()
    }
}

} // verus!
