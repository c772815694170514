//! The rows under which the store keeps the entities. Identifiers and times
//! are columns of text; a list of identifiers is one column that holds a JSON
//! array of their texts.

use vstd::prelude::*;
use crate::identifiers::{canonical_uuid_text, format_uuid};
use crate::json::{json_reads_back, json_text, write_string_array};
use crate::models::creation_information::CreationInformation;
use crate::models::list::{List, ListView};
use crate::models::task::{Task, TaskView};
use crate::models::user::{User, UserView};
use crate::models::utilities::{
    optional_uuid_array_text,
    optional_uuid_text,
    write_optional_json_uuid_array,
    write_optional_uuid,
};
use crate::text::{copy_optional, optional_text, owned};

verus! {

/// What is said where tags cannot be written as JSON.
pub const TAGS_NOT_WRITTEN_MESSAGE: &'static str = "Error serializing tags to json";

/// The row of a user.
#[derive(Clone, Debug, PartialEq, Eq)]
pub struct UserRow {
    pub uuid: String,
    pub username: String,
    pub password_hash: String,
    pub nickname: String,
}

/// A `UserRow` as specifications see it.
pub struct UserRowView {
    pub uuid: Seq<char>,
    pub username: Seq<char>,
    pub password_hash: Seq<char>,
    pub nickname: Seq<char>,
}

impl View for UserRow {
    type V = UserRowView;

    open spec fn view(&self) -> UserRowView {
        UserRowView {
            uuid: self.uuid@,
            username: self.username@,
            password_hash: self.password_hash@,
            nickname: self.nickname@,
        }
    }
}

impl UserRowView {
    /// The row under which a user is kept.
    pub open spec fn of(user: UserView) -> UserRowView {
        UserRowView {
            uuid: canonical_uuid_text(user.uuid),
            username: user.username,
            password_hash: user.password_hash,
            nickname: user.nickname,
        }
    }
}

impl UserRow {
    /// The row under which a user is kept: the identifier as text, the other
    /// columns as they are.
    pub fn from_user(user: User) -> (row: UserRow)
        ensures
            row@ == UserRowView::of(user@),
    {
        UserRow {
            uuid: format_uuid(user.uuid),
            username: user.username,
            password_hash: user.password_hash,
            nickname: user.nickname,
        }
    }

    /// A copy of the row.
    pub fn duplicate(&self) -> (copy: UserRow)
        ensures
            copy@ == self@,
    {
        UserRow {
            uuid: self.uuid.clone(),
            username: self.username.clone(),
            password_hash: self.password_hash.clone(),
            nickname: self.nickname.clone(),
        }
    }
}

/// The row of an audit record.
#[derive(Clone, Debug, PartialEq, Eq)]
pub struct CreationInformationRow {
    pub uuid: String,
    pub creator_user_uuid: String,
    pub creation_time: String,
    pub last_updated_by_user_uuid: String,
    pub last_updated_time: String,
}

/// A `CreationInformationRow` as specifications see it.
pub struct CreationInformationRowView {
    pub uuid: Seq<char>,
    pub creator_user_uuid: Seq<char>,
    pub creation_time: Seq<char>,
    pub last_updated_by_user_uuid: Seq<char>,
    pub last_updated_time: Seq<char>,
}

impl View for CreationInformationRow {
    type V = CreationInformationRowView;

    open spec fn view(&self) -> CreationInformationRowView {
        CreationInformationRowView {
            uuid: self.uuid@,
            creator_user_uuid: self.creator_user_uuid@,
            creation_time: self.creation_time@,
            last_updated_by_user_uuid: self.last_updated_by_user_uuid@,
            last_updated_time: self.last_updated_time@,
        }
    }
}

impl CreationInformationRowView {
    /// The row under which an audit record is kept.
    pub open spec fn of(information: CreationInformation) -> CreationInformationRowView {
        CreationInformationRowView {
            uuid: canonical_uuid_text(information.uuid),
            creator_user_uuid: canonical_uuid_text(information.creator_user_uuid),
            creation_time: information.creation_time.text(),
            last_updated_by_user_uuid: canonical_uuid_text(information.last_updated_by_user_uuid),
            last_updated_time: information.last_updated_time.text(),
        }
    }
}

impl CreationInformationRow {
    /// The row under which an audit record is kept: identifiers as text,
    /// times in RFC 3339. The row is read back as the record.
    pub fn from_creation_information(creation_information: CreationInformation) -> (row:
        CreationInformationRow)
        ensures
            row@ == CreationInformationRowView::of(creation_information),
            creation_information.reads_back(),
            CreationInformation::of_row(row@) == Ok::<CreationInformation, Seq<char>>(
                creation_information,
            ),
    {
        let row = CreationInformationRow {
            uuid: format_uuid(creation_information.uuid),
            creator_user_uuid: format_uuid(creation_information.creator_user_uuid),
            creation_time: creation_information.creation_time.to_rfc3339(),
            last_updated_by_user_uuid: format_uuid(creation_information.last_updated_by_user_uuid),
            last_updated_time: creation_information.last_updated_time.to_rfc3339(),
        };
        proof {
            creation_information.lemma_row_reads_back();
        }
        row
    }

    /// A copy of the row.
    pub fn duplicate(&self) -> (copy: CreationInformationRow)
        ensures
            copy@ == self@,
    {
        CreationInformationRow {
            uuid: self.uuid.clone(),
            creator_user_uuid: self.creator_user_uuid.clone(),
            creation_time: self.creation_time.clone(),
            last_updated_by_user_uuid: self.last_updated_by_user_uuid.clone(),
            last_updated_time: self.last_updated_time.clone(),
        }
    }
}

/// The row of a list.
#[derive(Clone, Debug, PartialEq, Eq)]
pub struct ListRow {
    pub uuid: String,
    pub title: String,
    pub description: Option<String>,
    pub color_hex: Option<String>,
    pub task_uuids: Option<String>,
    pub parent_list_uuid: Option<String>,
    pub sub_list_uuids: Option<String>,
    pub shared_with_user_uuids: Option<String>,
    pub creation_information_uuid: String,
}

/// A `ListRow` as specifications see it.
pub struct ListRowView {
    pub uuid: Seq<char>,
    pub title: Seq<char>,
    pub description: Option<Seq<char>>,
    pub color_hex: Option<Seq<char>>,
    pub task_uuids: Option<Seq<char>>,
    pub parent_list_uuid: Option<Seq<char>>,
    pub sub_list_uuids: Option<Seq<char>>,
    pub shared_with_user_uuids: Option<Seq<char>>,
    pub creation_information_uuid: Seq<char>,
}

impl View for ListRow {
    type V = ListRowView;

    open spec fn view(&self) -> ListRowView {
        ListRowView {
            uuid: self.uuid@,
            title: self.title@,
            description: optional_text(self.description),
            color_hex: optional_text(self.color_hex),
            task_uuids: optional_text(self.task_uuids),
            parent_list_uuid: optional_text(self.parent_list_uuid),
            sub_list_uuids: optional_text(self.sub_list_uuids),
            shared_with_user_uuids: optional_text(self.shared_with_user_uuids),
            creation_information_uuid: self.creation_information_uuid@,
        }
    }
}

impl ListRowView {
    /// The row under which a list is kept.
    pub open spec fn of(list: ListView) -> ListRowView {
        ListRowView {
            uuid: canonical_uuid_text(list.uuid),
            title: list.title,
            description: list.description,
            color_hex: list.color_hex,
            task_uuids: optional_uuid_array_text(list.task_uuids),
            parent_list_uuid: optional_uuid_text(list.parent_list_uuid),
            sub_list_uuids: optional_uuid_array_text(list.sub_list_uuids),
            shared_with_user_uuids: optional_uuid_array_text(list.shared_with_user_uuids),
            creation_information_uuid: canonical_uuid_text(list.creation_information_uuid),
        }
    }
}

impl ListRow {
    /// The row under which a list is kept: identifiers as text, each list of
    /// identifiers as a JSON array of their texts, the other columns as they
    /// are. A list whose colour is valid is read back from its row.
    pub fn from_list(list: List) -> (made: Result<ListRow, String>)
        ensures
            made matches Ok(row) && row@ == ListRowView::of(list@),
            list@.reads_back(),
            list@.has_valid_color() ==> ListView::of_row(ListRowView::of(list@)) == Ok::<
                ListView,
                Seq<char>,
            >(list@),
    {

        let task_uuids = match write_optional_json_uuid_array(&list.task_uuids) {
            Ok(res) => res,
            Err(err) => {
                return Err(err);
            },
        };
        let parent_list_uuid = write_optional_uuid(&list.parent_list_uuid);
        let sub_list_uuids = match write_optional_json_uuid_array(&list.sub_list_uuids) {
            Ok(res) => res,
            Err(err) => {
                return Err(err);
            },
        };
        let shared_with_user_uuids = match write_optional_json_uuid_array(
            &list.shared_with_user_uuids,
        ) {
            Ok(res) => res,
            Err(err) => {
                return Err(err);
            },
        };
        proof {
            if list@.has_valid_color() {
                list@.lemma_row_reads_back();
            }
        }
        Ok(
            ListRow {
                uuid: format_uuid(list.uuid),
                title: list.title,
                description: list.description,
                color_hex: list.color_hex,
                task_uuids,
                parent_list_uuid,
                sub_list_uuids,
                shared_with_user_uuids,
                creation_information_uuid: format_uuid(list.creation_information_uuid),
            },
        )
    }

    /// A copy of the row.
    pub fn duplicate(&self) -> (copy: ListRow)
        ensures
            copy@ == self@,
    {
        ListRow {
            uuid: self.uuid.clone(),
            title: self.title.clone(),
            description: copy_optional(&self.description),
            color_hex: copy_optional(&self.color_hex),
            task_uuids: copy_optional(&self.task_uuids),
            parent_list_uuid: copy_optional(&self.parent_list_uuid),
            sub_list_uuids: copy_optional(&self.sub_list_uuids),
            shared_with_user_uuids: copy_optional(&self.shared_with_user_uuids),
            creation_information_uuid: self.creation_information_uuid.clone(),
        }
    }
}

/// The columns of a list that refers to nothing but its audit record.
#[derive(Clone, Debug, PartialEq, Eq)]
pub struct NewListRow {
    pub uuid: String,
    pub title: String,
    pub description: Option<String>,
    pub color_hex: Option<String>,
    pub creation_information_uuid: String,
}

/// A `NewListRow` as specifications see it.
pub struct NewListRowView {
    pub uuid: Seq<char>,
    pub title: Seq<char>,
    pub description: Option<Seq<char>>,
    pub color_hex: Option<Seq<char>>,
    pub creation_information_uuid: Seq<char>,
}

impl View for NewListRow {
    type V = NewListRowView;

    open spec fn view(&self) -> NewListRowView {
        NewListRowView {
            uuid: self.uuid@,
            title: self.title@,
            description: optional_text(self.description),
            color_hex: optional_text(self.color_hex),
            creation_information_uuid: self.creation_information_uuid@,
        }
    }
}

impl NewListRowView {
    /// The columns of a list that do not refer to tasks, lists or users.
    pub open spec fn of(list: ListView) -> NewListRowView {
        NewListRowView {
            uuid: canonical_uuid_text(list.uuid),
            title: list.title,
            description: list.description,
            color_hex: list.color_hex,
            creation_information_uuid: canonical_uuid_text(list.creation_information_uuid),
        }
    }
}

impl NewListRow {
    /// The columns of a list that do not refer to tasks, lists or users.
    pub fn from_list(list: List) -> (row: NewListRow)
        ensures
            row@ == NewListRowView::of(list@),
    {
        NewListRow {
            uuid: format_uuid(list.uuid),
            title: list.title,
            description: list.description,
            color_hex: list.color_hex,
            creation_information_uuid: format_uuid(list.creation_information_uuid),
        }
    }
}

/// The row of a task.
#[derive(Clone, Debug, PartialEq, Eq)]
pub struct TaskRow {
    pub uuid: String,
    pub content: String,
    pub priority: i32,
    pub tags: Option<String>,
    pub is_complete: bool,
    pub parent_list_uuid: String,
    pub creation_information_uuid: String,
}

/// A `TaskRow` as specifications see it.
pub struct TaskRowView {
    pub uuid: Seq<char>,
    pub content: Seq<char>,
    pub priority: i32,
    pub tags: Option<Seq<char>>,
    pub is_complete: bool,
    pub parent_list_uuid: Seq<char>,
    pub creation_information_uuid: Seq<char>,
}

impl View for TaskRow {
    type V = TaskRowView;

    open spec fn view(&self) -> TaskRowView {
        TaskRowView {
            uuid: self.uuid@,
            content: self.content@,
            priority: self.priority,
            tags: optional_text(self.tags),
            is_complete: self.is_complete,
            parent_list_uuid: self.parent_list_uuid@,
            creation_information_uuid: self.creation_information_uuid@,
        }
    }
}

impl TaskRowView {
    /// The row under which a task is kept.
    pub open spec fn of(task: TaskView) -> TaskRowView {
        TaskRowView {
            uuid: canonical_uuid_text(task.uuid),
            content: task.content,
            priority: task.priority.number(),
            tags: match task.tags {
                Some(tags) => Some(json_text(tags)),
                None => None,
            },
            is_complete: task.is_complete,
            parent_list_uuid: canonical_uuid_text(task.parent_list_uuid),
            creation_information_uuid: canonical_uuid_text(task.creation_information_uuid),
        }
    }
}

impl TaskRow {
    /// The row under which a task is kept: identifiers as text, the priority
    /// as its number, the tags as a JSON array. The task is read back from
    /// its row.
    pub fn from_task(task: Task) -> (made: Result<TaskRow, String>)
        ensures
            made matches Ok(row) && row@ == TaskRowView::of(task@),
            task@.tags matches Some(tags) ==> json_reads_back(tags),
            TaskView::of_row(TaskRowView::of(task@)) == Ok::<TaskView, Seq<char>>(task@),
    {
        let json_tags = match &task.tags {
            Some(tags) => {
                match write_string_array(tags) {
                    Ok(res) => Some(res),
                    Err(_) => {
                        return Err(owned(TAGS_NOT_WRITTEN_MESSAGE));
                    },
                }
            },
            None => None,
        };
        let priority = task.priority.to_i32();
        proof {
            task@.lemma_row_reads_back();
        }
        Ok(
            TaskRow {
                uuid: format_uuid(task.uuid),
                content: task.content,
                priority,
                tags: json_tags,
                is_complete: task.is_complete,
                parent_list_uuid: format_uuid(task.parent_list_uuid),
                creation_information_uuid: format_uuid(task.creation_information_uuid),
            },
        )
    }

    /// A copy of the row.
    pub fn duplicate(&self) -> (copy: TaskRow)
        ensures
            copy@ == self@,
    {
        TaskRow {
            uuid: self.uuid.clone(),
            content: self.content.clone(),
            priority: self.priority,
            tags: copy_optional(&self.tags),
            is_complete: self.is_complete,
            parent_list_uuid: self.parent_list_uuid.clone(),
            creation_information_uuid: self.creation_information_uuid.clone(),
        }
    }
}

/// The columns of a user that is about to be written.
#[derive(Clone, Debug, PartialEq, Eq)]
pub struct NewUserRow {
    pub uuid: String,
    pub username: String,
    pub password_hash: String,
    pub nickname: String,
}

/// The columns of an audit record that is about to be written.
#[derive(Clone, Debug, PartialEq, Eq)]
pub struct NewCreationInformationRow {
    pub uuid: String,
    pub creator_user_uuid: String,
    pub creation_time: String,
    pub last_updated_by_user_uuid: String,
    pub last_updated_time: String,
}

/// The columns of a task that is about to be written.
#[derive(Clone, Debug, PartialEq, Eq)]
pub struct NewTaskRow {
    pub uuid: String,
    pub content: String,
    pub priority: i32,
    pub tags: Option<String>,
    pub is_complete: bool,
    pub parent_list_uuid: String,
    pub creation_information_uuid: String,
}

/// The row of a tag.
#[derive(Clone, Debug, PartialEq, Eq)]
pub struct TagRow {
    pub id: i32,
    pub uuid: String,
    pub title: String,
    pub creation_information_uuid: String,
}

/// The columns of a tag that is about to be written.
#[derive(Clone, Debug, PartialEq, Eq)]
pub struct NewTagRow {
    pub uuid: String,
    pub title: String,
    pub creation_information_uuid: String,
}

} // verus!
