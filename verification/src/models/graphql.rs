//! The inputs of the operations, as the interface hands them in.

use vstd::prelude::*;
use crate::models::creation_information::CreationInformation;
use crate::models::task::{Task, TaskView};
use crate::text::optional_text;
use crate::timestamps::Timestamp;

verus! {

/// What is needed to create a user.
#[derive(Clone, Debug, PartialEq, Eq)]
pub struct CreateUserInput {
    pub username: String,
    pub password: String,
    pub nickname: String,
}

/// A `CreateUserInput` as specifications see it.
pub struct CreateUserInputView {
    pub username: Seq<char>,
    pub password: Seq<char>,
    pub nickname: Seq<char>,
}

impl View for CreateUserInput {
    type V = CreateUserInputView;

    open spec fn view(&self) -> CreateUserInputView {
        CreateUserInputView {
            username: self.username@,
            password: self.password@,
            nickname: self.nickname@,
        }
    }
}

/// Who creates an entity.
#[derive(Clone, Debug, PartialEq, Eq)]
pub struct CreateCreationInformationInput {
    pub creator_user_uuid: String,
}

impl View for CreateCreationInformationInput {
    type V = Seq<char>;

    /// The text of the creator's identifier.
    open spec fn view(&self) -> Seq<char> {
        self.creator_user_uuid@
    }
}

impl CreateCreationInformationInput {
    /// The audit record of an entity that the named user creates at `now`,
    /// under the identifier `uuid`. Fails where the creator's text stands for
    /// no identifier.
    pub fn create_creation_information(&self, uuid: u128, now: Timestamp) -> (made: Result<
        CreationInformation,
        String,
    >)
        ensures
            match made {
                Ok(information) => CreationInformation::created(self@, uuid, now) == Ok::<
                    CreationInformation,
                    Seq<char>,
                >(information),
                Err(message) => CreationInformation::created(self@, uuid, now) == Err::<
                    CreationInformation,
                    Seq<char>,
                >(message@),
            },
    {
        CreationInformation::from_creation_text(&self.creator_user_uuid, uuid, now)
    }
}

/// Who edits an entity.
#[derive(Clone, Debug, PartialEq, Eq)]
pub struct UpdateCreationInformationInput {
    pub last_updated_by_user_uuid: String,
}

impl View for UpdateCreationInformationInput {
    type V = Seq<char>;

    /// The text of the editor's identifier.
    open spec fn view(&self) -> Seq<char> {
        self.last_updated_by_user_uuid@
    }
}

impl UpdateCreationInformationInput {
    /// The audit record after the named user's edit at `now`; see
    /// `CreationInformation::updated`. Fails where the editor's text stands
    /// for no identifier.
    pub fn create_updated_creation_information(
        &self,
        creation_information: CreationInformation,
        now: Timestamp,
    ) -> (made: Result<CreationInformation, String>)
        ensures
            match made {
                Ok(information) => creation_information.edited_by(self@, now) == Ok::<
                    CreationInformation,
                    Seq<char>,
                >(information),
                Err(message) => creation_information.edited_by(self@, now) == Err::<
                    CreationInformation,
                    Seq<char>,
                >(message@),
            },
    {
        match crate::models::utilities::parse_uuid(&self.last_updated_by_user_uuid) {
            Ok(last_updated_by_user_uuid) => {
                let mut updated = creation_information;
                updated.set_last_updated(last_updated_by_user_uuid, now);
                Ok(updated)
            },
            Err(err) => Err(err),
        }
    }
}

/// What is needed to create a list. The lists of identifiers are JSON arrays
/// of their texts.
#[derive(Clone, Debug, PartialEq, Eq)]
pub struct CreateListInput {
    pub title: String,
    pub description: Option<String>,
    pub color_hex: Option<String>,
    pub task_uuids: Option<String>,
    pub parent_list_uuid: Option<String>,
    pub sub_list_uuids: Option<String>,
    pub shared_with_user_uuids: Option<String>,
}

/// A `CreateListInput` as specifications see it.
pub struct CreateListInputView {
    pub title: Seq<char>,
    pub description: Option<Seq<char>>,
    pub color_hex: Option<Seq<char>>,
    pub task_uuids: Option<Seq<char>>,
    pub parent_list_uuid: Option<Seq<char>>,
    pub sub_list_uuids: Option<Seq<char>>,
    pub shared_with_user_uuids: Option<Seq<char>>,
}

impl View for CreateListInput {
    type V = CreateListInputView;

    open spec fn view(&self) -> CreateListInputView {
        CreateListInputView {
            title: self.title@,
            description: optional_text(self.description),
            color_hex: optional_text(self.color_hex),
            task_uuids: optional_text(self.task_uuids),
            parent_list_uuid: optional_text(self.parent_list_uuid),
            sub_list_uuids: optional_text(self.sub_list_uuids),
            shared_with_user_uuids: optional_text(self.shared_with_user_uuids),
        }
    }
}

/// What is to change in a list: the title where one is given, the
/// description where one is given, the colour where one is given. What is
/// not given stays as it is.
#[derive(Clone, Debug, PartialEq, Eq)]
pub struct UpdateListInput {
    pub uuid: String,
    pub title: Option<String>,
    pub description: Option<String>,
    pub color_hex: Option<String>,
}

/// An `UpdateListInput` as specifications see it.
pub struct UpdateListInputView {
    pub uuid: Seq<char>,
    pub title: Option<Seq<char>>,
    pub description: Option<Seq<char>>,
    pub color_hex: Option<Seq<char>>,
}

impl View for UpdateListInput {
    type V = UpdateListInputView;

    open spec fn view(&self) -> UpdateListInputView {
        UpdateListInputView {
            uuid: self.uuid@,
            title: optional_text(self.title),
            description: optional_text(self.description),
            color_hex: optional_text(self.color_hex),
        }
    }
}

/// What is needed to create a task. The tags are a JSON array of strings.
#[derive(Clone, Debug, PartialEq, Eq)]
pub struct CreateTaskInput {
    pub content: String,
    pub priority: Option<i32>,
    pub tags: Option<String>,
    pub parent_list_uuid: String,
    pub is_complete: Option<bool>,
}

/// A `CreateTaskInput` as specifications see it.
pub struct CreateTaskInputView {
    pub content: Seq<char>,
    pub priority: Option<i32>,
    pub tags: Option<Seq<char>>,
    pub parent_list_uuid: Seq<char>,
    pub is_complete: Option<bool>,
}

impl View for CreateTaskInput {
    type V = CreateTaskInputView;

    open spec fn view(&self) -> CreateTaskInputView {
        CreateTaskInputView {
            content: self.content@,
            priority: self.priority,
            tags: optional_text(self.tags),
            parent_list_uuid: self.parent_list_uuid@,
            is_complete: self.is_complete,
        }
    }
}

impl CreateTaskInput {
    /// The task that the input describes, under the identifier `uuid` and
    /// with the given audit record. A priority that is absent or unknown
    /// becomes the default, an absent completion mark `false`. Fails where
    /// the tags are no JSON array of strings, then where the list's text
    /// stands for no identifier.
    pub fn create_task(&self, creation_information_uuid: &u128, uuid: u128) -> (made: Result<
        Task,
        String,
    >)
        ensures
            match made {
                Ok(task) => TaskView::created(self@, *creation_information_uuid, uuid) == Ok::<
                    TaskView,
                    Seq<char>,
                >(task@),
                Err(message) => TaskView::created(self@, *creation_information_uuid, uuid) == Err::<
                    TaskView,
                    Seq<char>,
                >(message@),
            },
    {
        Task::from_create_task_input(self, *creation_information_uuid, uuid)
    }
}

/// What is needed to put an existing task on a list.
#[derive(Clone, Debug, PartialEq, Eq)]
pub struct AddTaskInput {
    pub last_updated_by_user_uuid: String,
    pub parent_list_uuid: String,
    pub task_uuid: String,
}

/// An `AddTaskInput` as specifications see it.
pub struct AddTaskInputView {
    pub last_updated_by_user_uuid: Seq<char>,
    pub parent_list_uuid: Seq<char>,
    pub task_uuid: Seq<char>,
}

impl View for AddTaskInput {
    type V = AddTaskInputView;

    open spec fn view(&self) -> AddTaskInputView {
        AddTaskInputView {
            last_updated_by_user_uuid: self.last_updated_by_user_uuid@,
            parent_list_uuid: self.parent_list_uuid@,
            task_uuid: self.task_uuid@,
        }
    }
}

} // verus!
