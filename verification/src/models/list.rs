//! Lists of tasks.

use vstd::prelude::*;
use crate::models::database::{ListRow, ListRowView};
use crate::models::graphql::{CreateListInput, CreateListInputView, UpdateListInput, UpdateListInputView};
use crate::models::utilities::{
    invalid_color_hex_message,
    optional_color_hex_reading,
    optional_elements,
    optional_uuid_array_reading,
    optional_uuid_array_reads_back,
    optional_uuid_reading,
    parse_color_hex,
    parse_optional_color_hex,
    parse_optional_json_uuid_array,
    parse_optional_uuid,
    parse_uuid,
    uuid_reading,
};
use crate::pattern::is_color_hex;
use crate::text::optional_text;

verus! {

/// A list. It may hold tasks, lie under a parent list, have lists under it and
/// be shared with users; it owns one audit record.
#[derive(Clone, Debug, PartialEq, Eq)]
pub struct List {
    pub uuid: u128,
    pub title: String,
    pub description: Option<String>,
    pub color_hex: Option<String>,
    pub task_uuids: Option<Vec<u128>>,
    pub parent_list_uuid: Option<u128>,
    pub sub_list_uuids: Option<Vec<u128>>,
    pub shared_with_user_uuids: Option<Vec<u128>>,
    pub creation_information_uuid: u128,
}

/// A `List` as specifications see it.
pub struct ListView {
    pub uuid: u128,
    pub title: Seq<char>,
    pub description: Option<Seq<char>>,
    pub color_hex: Option<Seq<char>>,
    pub task_uuids: Option<Seq<u128>>,
    pub parent_list_uuid: Option<u128>,
    pub sub_list_uuids: Option<Seq<u128>>,
    pub shared_with_user_uuids: Option<Seq<u128>>,
    pub creation_information_uuid: u128,
}

impl View for List {
    type V = ListView;

    open spec fn view(&self) -> ListView {
        ListView {
            uuid: self.uuid,
            title: self.title@,
            description: optional_text(self.description),
            color_hex: optional_text(self.color_hex),
            task_uuids: optional_elements(self.task_uuids),
            parent_list_uuid: self.parent_list_uuid,
            sub_list_uuids: optional_elements(self.sub_list_uuids),
            shared_with_user_uuids: optional_elements(self.shared_with_user_uuids),
            creation_information_uuid: self.creation_information_uuid,
        }
    }
}

impl ListView {
    /// The list that a row stands for. The columns are read in the order
    /// identifier, colour, tasks, parent, lists below, users, audit record;
    /// the first that cannot be read is refused with the reader's words.
    pub open spec fn of_row(row: ListRowView) -> Result<ListView, Seq<char>> {
        match uuid_reading(row.uuid) {
            Err(message) => Err(message),
            Ok(uuid) => match optional_color_hex_reading(row.color_hex) {
                Err(message) => Err(message),
                Ok(color_hex) => match optional_uuid_array_reading(row.task_uuids) {
                    Err(message) => Err(message),
                    Ok(task_uuids) => match optional_uuid_reading(row.parent_list_uuid) {
                        Err(message) => Err(message),
                        Ok(parent_list_uuid) => match optional_uuid_array_reading(
                            row.sub_list_uuids,
                        ) {
                            Err(message) => Err(message),
                            Ok(sub_list_uuids) => match optional_uuid_array_reading(
                                row.shared_with_user_uuids,
                            ) {
                                Err(message) => Err(message),
                                Ok(shared_with_user_uuids) => match uuid_reading(
                                    row.creation_information_uuid,
                                ) {
                                    Err(message) => Err(message),
                                    Ok(creation_information_uuid) => Ok(
                                        ListView {
                                            uuid,
                                            title: row.title,
                                            description: row.description,
                                            color_hex,
                                            task_uuids,
                                            parent_list_uuid,
                                            sub_list_uuids,
                                            shared_with_user_uuids,
                                            creation_information_uuid,
                                        },
                                    ),
                                },
                            },
                        },
                    },
                },
            },
        }
    }

    /// The list that an input describes. The input is read in the order
    /// colour, tasks, parent, lists below, users; the first part that cannot
    /// be read is refused with the reader's words.
    pub open spec fn created(
        input: CreateListInputView,
        creation_information_uuid: u128,
        uuid: u128,
    ) -> Result<ListView, Seq<char>> {
        match optional_color_hex_reading(input.color_hex) {
            Err(message) => Err(message),
            Ok(color_hex) => match optional_uuid_array_reading(input.task_uuids) {
                Err(message) => Err(message),
                Ok(task_uuids) => match optional_uuid_reading(input.parent_list_uuid) {
                    Err(message) => Err(message),
                    Ok(parent_list_uuid) => match optional_uuid_array_reading(input.sub_list_uuids) {
                        Err(message) => Err(message),
                        Ok(sub_list_uuids) => match optional_uuid_array_reading(
                            input.shared_with_user_uuids,
                        ) {
                            Err(message) => Err(message),
                            Ok(shared_with_user_uuids) => Ok(
                                ListView {
                                    uuid,
                                    title: input.title,
                                    description: input.description,
                                    color_hex,
                                    task_uuids,
                                    parent_list_uuid,
                                    sub_list_uuids,
                                    shared_with_user_uuids,
                                    creation_information_uuid,
                                },
                            ),
                        },
                    },
                },
            },
        }
    }

    /// The list with another colour.
    pub open spec fn with_color(self, color_hex: Seq<char>) -> ListView {
        ListView { color_hex: Some(color_hex), ..self }
    }

    /// The list with one more task at the end of its tasks.
    pub open spec fn with_task(self, task_uuid: u128) -> ListView {
        ListView {
            task_uuids: Some(
                match self.task_uuids {
                    Some(tasks) => tasks.push(task_uuid),
                    None => seq![task_uuid],
                },
            ),
            ..self
        }
    }

    /// The list after a revision: the title is replaced where the input has
    /// one, the description where the input has one, the colour where the
    /// input has one. What the input lacks stays as it is. A colour that is
    /// none is refused by name.
    pub open spec fn revised(self, input: UpdateListInputView) -> Result<ListView, Seq<char>> {
        match optional_color_hex_reading(input.color_hex) {
            Err(message) => Err(message),
            Ok(color_hex) => Ok(
                ListView {
                    title: match input.title {
                        Some(title) => title,
                        None => self.title,
                    },
                    description: match input.description {
                        Some(description) => Some(description),
                        None => self.description,
                    },
                    color_hex: match color_hex {
                        Some(color) => Some(color),
                        None => self.color_hex,
                    },
                    ..self
                },
            ),
        }
    }

    /// Whether the list's colour, where it has one, is a colour.
    pub open spec fn has_valid_color(self) -> bool {
        self.color_hex matches Some(color) ==> is_color_hex(color)
    }

    /// Whether the stored texts of the list's three lists of identifiers are
    /// read back as those lists.
    pub open spec fn reads_back(self) -> bool {
        &&& optional_uuid_array_reads_back(self.task_uuids)
        &&& optional_uuid_array_reads_back(self.sub_list_uuids)
        &&& optional_uuid_array_reads_back(self.shared_with_user_uuids)
    }

    /// The row of a list is read back as the list, where its colour is valid
    /// and the texts of its lists of identifiers are read back.
    pub proof fn lemma_row_reads_back(self)
        requires
            self.has_valid_color(),
            self.reads_back(),
        ensures
            ListView::of_row(ListRowView::of(self)) == Ok::<ListView, Seq<char>>(self),
    {
        crate::identifiers::lemma_canonical_uuid_text(self.uuid);
        crate::identifiers::lemma_canonical_uuid_text(self.creation_information_uuid);
        if let Some(parent) = self.parent_list_uuid {
            crate::identifiers::lemma_canonical_uuid_text(parent);
        }
        if let Some(tasks) = self.task_uuids {
            crate::models::utilities::lemma_uuid_array_reads_back(tasks);
        }
        if let Some(lists) = self.sub_list_uuids {
            crate::models::utilities::lemma_uuid_array_reads_back(lists);
        }
        if let Some(users) = self.shared_with_user_uuids {
            crate::models::utilities::lemma_uuid_array_reads_back(users);
        }
    }
}

impl List {
    /// The list that the input describes, under the identifier `uuid` and
    /// with the given audit record. See `ListView::created`.
    pub fn from_create_list_input(
        input: CreateListInput,
        creation_information_uuid: u128,
        uuid: u128,
    ) -> (made: Result<List, String>)
        ensures
            match made {
                Ok(list) => ListView::created(input@, creation_information_uuid, uuid) == Ok::<
                    ListView,
                    Seq<char>,
                >(list@),
                Err(message) => ListView::created(input@, creation_information_uuid, uuid) == Err::<
                    ListView,
                    Seq<char>,
                >(message@),
            },
            made matches Ok(list) ==> list@.has_valid_color(),
    {
        let color_hex = match parse_optional_color_hex(&input.color_hex) {
            Ok(res) => res,
            Err(err) => {
                return Err(err);
            },
        };
        let task_uuids = match parse_optional_json_uuid_array(&input.task_uuids) {
            Ok(res) => res,
            Err(err) => {
                return Err(err);
            },
        };
        let parent_list_uuid = match parse_optional_uuid(&input.parent_list_uuid) {
            Ok(res) => res,
            Err(err) => {
                return Err(err);
            },
        };
        let sub_list_uuids = match parse_optional_json_uuid_array(&input.sub_list_uuids) {
            Ok(res) => res,
            Err(err) => {
                return Err(err);
            },
        };
        let shared_with_user_uuids = match parse_optional_json_uuid_array(
            &input.shared_with_user_uuids,
        ) {
            Ok(res) => res,
            Err(err) => {
                return Err(err);
            },
        };
        Ok(
            List {
                uuid,
                title: input.title,
                description: input.description,
                color_hex,
                task_uuids,
                parent_list_uuid,
                sub_list_uuids,
                shared_with_user_uuids,
                creation_information_uuid,
            },
        )
    }

    /// Reads a row. See `ListView::of_row`.
    pub fn from_list_row(list_row: ListRow) -> (made: Result<List, String>)
        ensures
            match made {
                Ok(list) => ListView::of_row(list_row@) == Ok::<ListView, Seq<char>>(list@),
                Err(message) => ListView::of_row(list_row@) == Err::<ListView, Seq<char>>(message@),
            },
            made matches Ok(list) ==> list@.has_valid_color(),
    {
        let uuid = match parse_uuid(&list_row.uuid) {
            Ok(res) => res,
            Err(err) => {
                return Err(err);
            },
        };
        let color_hex = match parse_optional_color_hex(&list_row.color_hex) {
            Ok(res) => res,
            Err(err) => {
                return Err(err);
            },
        };
        let task_uuids = match parse_optional_json_uuid_array(&list_row.task_uuids) {
            Ok(res) => res,
            Err(err) => {
                return Err(err);
            },
        };
        let parent_list_uuid = match parse_optional_uuid(&list_row.parent_list_uuid) {
            Ok(res) => res,
            Err(err) => {
                return Err(err);
            },
        };
        let sub_list_uuids = match parse_optional_json_uuid_array(&list_row.sub_list_uuids) {
            Ok(res) => res,
            Err(err) => {
                return Err(err);
            },
        };
        let shared_with_user_uuids = match parse_optional_json_uuid_array(
            &list_row.shared_with_user_uuids,
        ) {
            Ok(res) => res,
            Err(err) => {
                return Err(err);
            },
        };
        let creation_information_uuid = match parse_uuid(&list_row.creation_information_uuid) {
            Ok(res) => res,
            Err(err) => {
                return Err(err);
            },
        };
        Ok(
            List {
                uuid,
                title: list_row.title,
                description: list_row.description,
                color_hex,
                task_uuids,
                parent_list_uuid,
                sub_list_uuids,
                shared_with_user_uuids,
                creation_information_uuid,
            },
        )
    }

    /// Gives the list another colour, where the text is one; a text that is
    /// no colour is refused by name and the list keeps its colour.
    pub fn set_color_hex(&mut self, color_hex: String) -> (verdict: Result<(), String>)
        ensures
            verdict is Ok <==> is_color_hex(color_hex@),
            verdict is Ok ==> final(self)@ == old(self)@.with_color(color_hex@),
            verdict matches Err(message) ==> message@ == invalid_color_hex_message(color_hex@)
                && final(self)@ == old(self)@,
    {
        match parse_color_hex(&color_hex) {
            Ok(res) => {
                self.color_hex = Some(res);
                Ok(())
            },
            Err(err) => Err(err),
        }
    }

    /// Revises the list. See `ListView::revised`.
    pub fn revise(self, input: UpdateListInput) -> (made: Result<List, String>)
        ensures
            match made {
                Ok(list) => self@.revised(input@) == Ok::<ListView, Seq<char>>(list@),
                Err(message) => self@.revised(input@) == Err::<ListView, Seq<char>>(message@),
            },
            made matches Ok(list) ==> (self@.has_valid_color() ==> list@.has_valid_color()),
    {
        let mut list = self;
        match input.title {
            Some(title) => {
                list.title = title;
            },
            None => {},
        }
        match input.description {
            Some(description) => {
                list.description = Some(description);
            },
            None => {},
        }
        match input.color_hex {
            Some(color_hex) => {
                match list.set_color_hex(color_hex) {
                    Ok(_) => {},
                    Err(err) => {
                        return Err(err);
                    },
                }
            },
            None => {},
        }
        Ok(list)
    }

    /// Puts one more task at the end of the list's tasks.
    pub fn push_task(&mut self, task_uuid: u128)
        ensures
            final(self)@ == old(self)@.with_task(task_uuid),
    {
        let mut updated_task_uuids = match self.task_uuids.take() {
            Some(tasks) => tasks,
            None => Vec::new(),
        };
        updated_task_uuids.push(task_uuid);
        self.task_uuids = Some(updated_task_uuids);
    }
}

} // verus!
