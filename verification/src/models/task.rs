//! Tasks.

use vstd::prelude::*;
use crate::constants::{HIGH_TASK_PRIORITY, LOW_TASK_PRIORITY, MEDIUM_TASK_PRIORITY};
use crate::json::{json_string_array, read_string_array};
use crate::models::database::{TaskRow, TaskRowView};
use crate::models::graphql::{CreateTaskInput, CreateTaskInputView};
use crate::models::utilities::{parse_uuid, uuid_reading};

verus! {

/// How urgent a task is.
#[allow(non_camel_case_types)]
#[derive(Clone, Copy, Debug, PartialEq, Eq, Structural)]
pub enum TaskPriority {
    LOW,
    NORMAL,
    HIGH,
}

impl TaskPriority {
    /// The priority of a task for which none, or none that is known, is given.
    pub open spec fn fallback() -> TaskPriority {
        TaskPriority::NORMAL
    }

    /// The number under which the priority is stored.
    pub open spec fn number(self) -> i32 {
        match self {
            TaskPriority::LOW => LOW_TASK_PRIORITY,
            TaskPriority::NORMAL => MEDIUM_TASK_PRIORITY,
            TaskPriority::HIGH => HIGH_TASK_PRIORITY,
        }
    }

    /// The priority that is stored under a number, if any is.
    pub open spec fn of_number(number: i32) -> Option<TaskPriority> {
        if number == LOW_TASK_PRIORITY {
            Some(TaskPriority::LOW)
        } else if number == MEDIUM_TASK_PRIORITY {
            Some(TaskPriority::NORMAL)
        } else if number == HIGH_TASK_PRIORITY {
            Some(TaskPriority::HIGH)
        } else {
            None
        }
    }

    /// The priority that is stored under a number, or the fallback.
    pub open spec fn of_number_or_fallback(number: i32) -> TaskPriority {
        match TaskPriority::of_number(number) {
            Some(priority) => priority,
            None => TaskPriority::fallback(),
        }
    }

    /// The priority that is stored under an optional number, or the fallback.
    pub open spec fn of_optional_number(number: Option<i32>) -> TaskPriority {
        match number {
            Some(n) => TaskPriority::of_number_or_fallback(n),
            None => TaskPriority::fallback(),
        }
    }

    /// A priority is read back from its number.
    pub proof fn lemma_number_reads_back(self)
        ensures
            TaskPriority::of_number(self.number()) == Some(self),
            TaskPriority::of_number_or_fallback(self.number()) == self,
    {
    }

    /// The priority of a task for which none, or none that is known, is given.
    pub fn default_priority() -> (priority: TaskPriority)
        ensures
            priority == TaskPriority::fallback(),
    {
        TaskPriority::NORMAL
    }

    /// The priority that is stored under `number`: 0 is low, 1 normal, 2
    /// high, and no other number is a priority.
    pub fn from_i32(number: i32) -> (priority: Option<TaskPriority>)
        ensures
            priority == TaskPriority::of_number(number),
    {
        if number == LOW_TASK_PRIORITY {
            Some(TaskPriority::LOW)
        } else if number == MEDIUM_TASK_PRIORITY {
            Some(TaskPriority::NORMAL)
        } else if number == HIGH_TASK_PRIORITY {
            Some(TaskPriority::HIGH)
        } else {
            None
        }
    }

    /// The number under which the priority is stored.
    pub fn to_i32(&self) -> (number: i32)
        ensures
            number == self.number(),
    {
        match self {
            TaskPriority::LOW => LOW_TASK_PRIORITY,
            TaskPriority::NORMAL => MEDIUM_TASK_PRIORITY,
            TaskPriority::HIGH => HIGH_TASK_PRIORITY,
        }
    }
}

/// A task on a list.
#[derive(Clone, Debug, PartialEq, Eq)]
pub struct Task {
    pub uuid: u128,
    pub content: String,
    pub priority: TaskPriority,
    pub tags: Option<Vec<String>>,
    pub is_complete: bool,
    pub parent_list_uuid: u128,
    pub creation_information_uuid: u128,
}

/// A `Task` as specifications see it.
pub struct TaskView {
    pub uuid: u128,
    pub content: Seq<char>,
    pub priority: TaskPriority,
    pub tags: Option<Seq<Seq<char>>>,
    pub is_complete: bool,
    pub parent_list_uuid: u128,
    pub creation_information_uuid: u128,
}

/// The tags of an optional list, as specifications see them.
pub open spec fn optional_texts(tags: Option<Vec<String>>) -> Option<Seq<Seq<char>>> {
    match tags {
        Some(list) => Some(list.deep_view()),
        None => None,
    }
}

/// The tags that an optional JSON text stands for.
pub open spec fn optional_tags_reading(tags: Option<Seq<char>>) -> Result<
    Option<Seq<Seq<char>>>,
    Seq<char>,
> {
    match tags {
        None => Ok(None),
        Some(text) => match json_string_array(text) {
            Ok(strings) => Ok(Some(strings)),
            Err(said) => Err(said),
        },
    }
}

impl View for Task {
    type V = TaskView;

    open spec fn view(&self) -> TaskView {
        TaskView {
            uuid: self.uuid,
            content: self.content@,
            priority: self.priority,
            tags: optional_texts(self.tags),
            is_complete: self.is_complete,
            parent_list_uuid: self.parent_list_uuid,
            creation_information_uuid: self.creation_information_uuid,
        }
    }
}

impl TaskView {
    /// The task that a row stands for. The columns are read in the order
    /// identifier, priority, tags, list, audit record; the first that cannot
    /// be read is refused with the reader's words. A number that is no
    /// priority is read as the fallback.
    pub open spec fn of_row(row: TaskRowView) -> Result<TaskView, Seq<char>> {
        match uuid_reading(row.uuid) {
            Err(message) => Err(message),
            Ok(uuid) => match optional_tags_reading(row.tags) {
                Err(message) => Err(message),
                Ok(tags) => match uuid_reading(row.parent_list_uuid) {
                    Err(message) => Err(message),
                    Ok(parent_list_uuid) => match uuid_reading(row.creation_information_uuid) {
                        Err(message) => Err(message),
                        Ok(creation_information_uuid) => Ok(
                            TaskView {
                                uuid,
                                content: row.content,
                                priority: TaskPriority::of_number_or_fallback(row.priority),
                                tags,
                                is_complete: row.is_complete,
                                parent_list_uuid,
                                creation_information_uuid,
                            },
                        ),
                    },
                },
            },
        }
    }

    /// The task that an input describes.
    pub open spec fn created(
        input: CreateTaskInputView,
        creation_information_uuid: u128,
        uuid: u128,
    ) -> Result<TaskView, Seq<char>> {
        match optional_tags_reading(input.tags) {
            Err(message) => Err(message),
            Ok(tags) => match uuid_reading(input.parent_list_uuid) {
                Err(message) => Err(message),
                Ok(parent_list_uuid) => Ok(
                    TaskView {
                        uuid,
                        content: input.content,
                        priority: TaskPriority::of_optional_number(input.priority),
                        tags,
                        is_complete: match input.is_complete {
                            Some(mark) => mark,
                            None => false,
                        },
                        parent_list_uuid,
                        creation_information_uuid,
                    },
                ),
            },
        }
    }

    /// The row of a task is read back as the task, where the text of its tags
    /// is.
    pub proof fn lemma_row_reads_back(self)
        requires
            self.tags matches Some(tags) ==> crate::json::json_reads_back(tags),
        ensures
            TaskView::of_row(TaskRowView::of(self)) == Ok::<TaskView, Seq<char>>(self),
    {
        crate::identifiers::lemma_canonical_uuid_text(self.uuid);
        crate::identifiers::lemma_canonical_uuid_text(self.parent_list_uuid);
        crate::identifiers::lemma_canonical_uuid_text(self.creation_information_uuid);
        self.priority.lemma_number_reads_back();
    }
}

/// Reads optional tags: a JSON array of strings.
pub fn parse_optional_tags(tags: &Option<String>) -> (reading: Result<Option<Vec<String>>, String>)
    ensures
        match reading {
            Ok(list) => optional_tags_reading(crate::text::optional_text(*tags)) == Ok::<
                Option<Seq<Seq<char>>>,
                Seq<char>,
            >(optional_texts(list)),
            Err(message) => optional_tags_reading(crate::text::optional_text(*tags)) == Err::<
                Option<Seq<Seq<char>>>,
                Seq<char>,
            >(message@),
        },
{
    match tags {
        Some(tags_json_str) => {
            match read_string_array(tags_json_str.as_str()) {
                Ok(parsed_tags) => Ok(Some(parsed_tags)),
                Err(err) => Err(err),
            }
        },
        None => Ok(None),
    }
}

impl Task {
    /// Reads a row. See `TaskView::of_row`.
    pub fn from_task_row(task_row: TaskRow) -> (made: Result<Task, String>)
        ensures
            match made {
                Ok(task) => TaskView::of_row(task_row@) == Ok::<TaskView, Seq<char>>(task@),
                Err(message) => TaskView::of_row(task_row@) == Err::<TaskView, Seq<char>>(message@),
            },
    {
        let uuid = match parse_uuid(&task_row.uuid) {
            Ok(res) => res,
            Err(err) => {
                return Err(err);
            },
        };
        let priority = match TaskPriority::from_i32(task_row.priority) {
            Some(parsed_priority) => parsed_priority,
            None => TaskPriority::default_priority(),
        };
        let tags = match parse_optional_tags(&task_row.tags) {
            Ok(res) => res,
            Err(err) => {
                return Err(err);
            },
        };
        let parent_list_uuid = match parse_uuid(&task_row.parent_list_uuid) {
            Ok(res) => res,
            Err(err) => {
                return Err(err);
            },
        };
        let creation_information_uuid = match parse_uuid(&task_row.creation_information_uuid) {
            Ok(res) => res,
            Err(err) => {
                return Err(err);
            },
        };
        Ok(
            Task {
                uuid,
                content: task_row.content,
                priority,
                tags,
                is_complete: task_row.is_complete,
                parent_list_uuid,
                creation_information_uuid,
            },
        )
    }

    /// The task that an input describes. See `CreateTaskInput::create_task`.
    pub fn from_create_task_input(
        input: &CreateTaskInput,
        creation_information_uuid: u128,
        uuid: u128,
    ) -> (made: Result<Task, String>)
        ensures
            match made {
                Ok(task) => TaskView::created(input@, creation_information_uuid, uuid) == Ok::<
                    TaskView,
                    Seq<char>,
                >(task@),
                Err(message) => TaskView::created(input@, creation_information_uuid, uuid) == Err::<
                    TaskView,
                    Seq<char>,
                >(message@),
            },
    {
        let tags = match parse_optional_tags(&input.tags) {
            Ok(res) => res,
            Err(err) => {
                return Err(err);
            },
        };
        let priority = match input.priority {
            Some(primitive_priority) => {
                match TaskPriority::from_i32(primitive_priority) {
                    Some(parsed_priority) => parsed_priority,
                    None => TaskPriority::default_priority(),
                }
            },
            None => TaskPriority::default_priority(),
        };
        let parent_list_uuid = match parse_uuid(&input.parent_list_uuid) {
            Ok(parsed_uuid) => parsed_uuid,
            Err(err) => {
                return Err(err);
            },
        };
        let is_complete = match input.is_complete {
            Some(mark) => mark,
            None => false,
        };
        Ok(
            Task {
                uuid,
                content: input.content.clone(),
                priority,
                tags,
                is_complete,
                parent_list_uuid,
                creation_information_uuid,
            },
        )
    }
}

} // verus!
