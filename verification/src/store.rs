//! The relational store as the services see it: what they ask of it, what it
//! answers, and a store in memory that answers as a relational store does.
//!
//! The store holds rows of four kinds. A row is found by its kind and the text
//! of its identifier, and no two rows of one kind have the same identifier.

use vstd::prelude::*;
use crate::errors::EntityKind;
use crate::models::database::{
    CreationInformationRow,
    CreationInformationRowView,
    ListRow,
    ListRowView,
    TaskRow,
    TaskRowView,
    UserRow,
    UserRowView,
};
use crate::text::{copy_optional, frame, framed, optional_text};

verus! {

/// A row of any kind.
#[derive(Clone, Debug, PartialEq, Eq)]
pub enum Row {
    User(UserRow),
    CreationInformation(CreationInformationRow),
    List(ListRow),
    Task(TaskRow),
}

/// A `Row` as specifications see it.
pub enum RowView {
    User(UserRowView),
    CreationInformation(CreationInformationRowView),
    List(ListRowView),
    Task(TaskRowView),
}

impl View for Row {
    type V = RowView;

    open spec fn view(&self) -> RowView {
        match self {
            Row::User(row) => RowView::User(row@),
            Row::CreationInformation(row) => RowView::CreationInformation(row@),
            Row::List(row) => RowView::List(row@),
            Row::Task(row) => RowView::Task(row@),
        }
    }
}

impl RowView {
    /// The row's kind.
    pub open spec fn entity(self) -> EntityKind {
        match self {
            RowView::User(_) => EntityKind::User,
            RowView::CreationInformation(_) => EntityKind::CreationInformation,
            RowView::List(_) => EntityKind::List,
            RowView::Task(_) => EntityKind::Task,
        }
    }

    /// The text of the row's identifier.
    pub open spec fn uuid(self) -> Seq<char> {
        match self {
            RowView::User(row) => row.uuid,
            RowView::CreationInformation(row) => row.uuid,
            RowView::List(row) => row.uuid,
            RowView::Task(row) => row.uuid,
        }
    }

    /// Whether the row is the one of the given kind and identifier.
    pub open spec fn has_key(self, entity: EntityKind, uuid: Seq<char>) -> bool {
        self.entity() == entity && self.uuid() == uuid
    }

    /// The row after an edit of the audit record `uuid`: that record gets
    /// the editor and the time, any other row stays as it is.
    pub open spec fn with_edit(
        self,
        uuid: Seq<char>,
        last_updated_by_user_uuid: Seq<char>,
        last_updated_time: Seq<char>,
    ) -> RowView {
        match self {
            RowView::CreationInformation(row) if row.uuid == uuid => RowView::CreationInformation(
                CreationInformationRowView { last_updated_by_user_uuid, last_updated_time, ..row },
            ),
            _ => self,
        }
    }

    /// The row after the list `uuid` got a title, a description and a
    /// colour: that list gets them, any other row stays as it is.
    pub open spec fn with_list_columns(
        self,
        uuid: Seq<char>,
        title: Seq<char>,
        description: Option<Seq<char>>,
        color_hex: Option<Seq<char>>,
    ) -> RowView {
        match self {
            RowView::List(row) if row.uuid == uuid => RowView::List(
                ListRowView { title, description, color_hex, ..row },
            ),
            _ => self,
        }
    }

    /// The row after the list `uuid` got its tasks: that list gets them, any
    /// other row stays as it is.
    pub open spec fn with_list_tasks(self, uuid: Seq<char>, task_uuids: Option<Seq<char>>) -> RowView {
        match self {
            RowView::List(row) if row.uuid == uuid => RowView::List(
                ListRowView { task_uuids, ..row },
            ),
            _ => self,
        }
    }
}

impl Row {
    /// The row's kind.
    pub fn entity(&self) -> (entity: EntityKind)
        ensures
            entity == self@.entity(),
    {
        match self {
            Row::User(_) => EntityKind::User,
            Row::CreationInformation(_) => EntityKind::CreationInformation,
            Row::List(_) => EntityKind::List,
            Row::Task(_) => EntityKind::Task,
        }
    }

    /// The text of the row's identifier.
    pub fn uuid(&self) -> (uuid: &String)
        ensures
            uuid@ == self@.uuid(),
    {
        match self {
            Row::User(row) => &row.uuid,
            Row::CreationInformation(row) => &row.uuid,
            Row::List(row) => &row.uuid,
            Row::Task(row) => &row.uuid,
        }
    }

    /// Whether the row is the one of the given kind and identifier.
    pub fn has_key(&self, entity: EntityKind, uuid: &String) -> (answer: bool)
        ensures
            answer == self@.has_key(entity, uuid@),
    {
        self.entity() == entity && *self.uuid() == *uuid
    }

    /// A copy of the row.
    pub fn duplicate(&self) -> (copy: Row)
        ensures
            copy@ == self@,
    {
        match self {
            Row::User(row) => Row::User(row.duplicate()),
            Row::CreationInformation(row) => Row::CreationInformation(row.duplicate()),
            Row::List(row) => Row::List(row.duplicate()),
            Row::Task(row) => Row::Task(row.duplicate()),
        }
    }
}

/// The rows of a list, as specifications see them.
pub open spec fn row_views(rows: Seq<Row>) -> Seq<RowView> {
    Seq::new(rows.len(), |i: int| rows[i]@)
}

/// What a service asks of the store.
#[derive(Clone, Debug, PartialEq, Eq)]
pub enum StoreRequest {
    /// All rows of a kind.
    All { entity: EntityKind },
    /// Whether a row of the kind has the identifier.
    Exists { entity: EntityKind, uuid: String },
    /// The row of the kind with the identifier.
    Find { entity: EntityKind, uuid: String },
    /// Write a new row.
    Insert { row: Row },
    /// Set the last editor and the time of the last edit of an audit record.
    UpdateCreationInformation {
        uuid: String,
        last_updated_by_user_uuid: String,
        last_updated_time: String,
    },
    /// Set title, description and colour of a list.
    UpdateList {
        uuid: String,
        title: String,
        description: Option<String>,
        color_hex: Option<String>,
    },
    /// Set the tasks of a list.
    UpdateListTasks { uuid: String, task_uuids: Option<String> },
}

/// A `StoreRequest` as specifications see it.
pub enum StoreRequestView {
    All { entity: EntityKind },
    Exists { entity: EntityKind, uuid: Seq<char> },
    Find { entity: EntityKind, uuid: Seq<char> },
    Insert { row: RowView },
    UpdateCreationInformation {
        uuid: Seq<char>,
        last_updated_by_user_uuid: Seq<char>,
        last_updated_time: Seq<char>,
    },
    UpdateList {
        uuid: Seq<char>,
        title: Seq<char>,
        description: Option<Seq<char>>,
        color_hex: Option<Seq<char>>,
    },
    UpdateListTasks { uuid: Seq<char>, task_uuids: Option<Seq<char>> },
}

impl View for StoreRequest {
    type V = StoreRequestView;

    open spec fn view(&self) -> StoreRequestView {
        match self {
            StoreRequest::All { entity } => StoreRequestView::All { entity: *entity },
            StoreRequest::Exists { entity, uuid } => StoreRequestView::Exists {
                entity: *entity,
                uuid: uuid@,
            },
            StoreRequest::Find { entity, uuid } => StoreRequestView::Find {
                entity: *entity,
                uuid: uuid@,
            },
            StoreRequest::Insert { row } => StoreRequestView::Insert { row: row@ },
            StoreRequest::UpdateCreationInformation {
                uuid,
                last_updated_by_user_uuid,
                last_updated_time,
            } => StoreRequestView::UpdateCreationInformation {
                uuid: uuid@,
                last_updated_by_user_uuid: last_updated_by_user_uuid@,
                last_updated_time: last_updated_time@,
            },
            StoreRequest::UpdateList {
                uuid,
                title,
                description,
                color_hex,
            } => StoreRequestView::UpdateList {
                uuid: uuid@,
                title: title@,
                description: optional_text(*description),
                color_hex: optional_text(*color_hex),
            },
            StoreRequest::UpdateListTasks { uuid, task_uuids } => StoreRequestView::UpdateListTasks {
                uuid: uuid@,
                task_uuids: optional_text(*task_uuids),
            },
        }
    }
}

/// What the store answers.
#[derive(Clone, Debug, PartialEq, Eq)]
pub enum StoreReply {
    /// The store could not do what it was asked, for the given reason.
    Failed { details: String },
    /// The row was written, or the columns were set.
    Written,
    /// Whether the row exists.
    Exists { exists: bool },
    /// The row that was looked for, if the store holds it.
    Found { row: Option<Row> },
    /// The rows that were asked for.
    Rows { rows: Vec<Row> },
}

/// A `StoreReply` as specifications see it.
pub enum StoreReplyView {
    Failed { details: Seq<char> },
    Written,
    Exists { exists: bool },
    Found { row: Option<RowView> },
    Rows { rows: Seq<RowView> },
}

impl View for StoreReply {
    type V = StoreReplyView;

    open spec fn view(&self) -> StoreReplyView {
        match self {
            StoreReply::Failed { details } => StoreReplyView::Failed { details: details@ },
            StoreReply::Written => StoreReplyView::Written,
            StoreReply::Exists { exists } => StoreReplyView::Exists { exists: *exists },
            StoreReply::Found { row } => StoreReplyView::Found {
                row: match row {
                    Some(r) => Some(r@),
                    None => None,
                },
            },
            StoreReply::Rows { rows } => StoreReplyView::Rows { rows: row_views(rows@) },
        }
    }
}

/// What the store says of a row whose identifier another row of its kind has.
pub open spec fn duplicate_key_message(entity: EntityKind) -> Seq<char> {
    framed("UNIQUE constraint failed: "@, entity.table_text(), ".uuid"@)
}

/// The place of the first row at or after `from` with the given kind and
/// identifier; the number of rows where there is none.
pub open spec fn position_from(rows: Seq<RowView>, entity: EntityKind, uuid: Seq<char>, from: int) -> int
    decreases rows.len() - from,
{
    if from < 0 || from >= rows.len() {
        rows.len() as int
    } else if rows[from].has_key(entity, uuid) {
        from
    } else {
        position_from(rows, entity, uuid, from + 1)
    }
}

/// The rows of the given kind among the first `upto` rows, in their order.
pub open spec fn table_upto(rows: Seq<RowView>, entity: EntityKind, upto: int) -> Seq<RowView>
    decreases upto,
{
    if upto <= 0 || upto > rows.len() {
        Seq::empty()
    } else if rows[upto - 1].entity() == entity {
        table_upto(rows, entity, upto - 1).push(rows[upto - 1])
    } else {
        table_upto(rows, entity, upto - 1)
    }
}

/// The content of a store: its rows in the order in which they were written.
pub struct StoreView {
    pub rows: Seq<RowView>,
}

impl StoreView {
    /// The place of the first row with the given kind and identifier; the
    /// number of rows where there is none.
    pub open spec fn position(self, entity: EntityKind, uuid: Seq<char>) -> int {
        position_from(self.rows, entity, uuid, 0)
    }

    /// Whether the store holds a row of the given kind and identifier.
    pub open spec fn contains(self, entity: EntityKind, uuid: Seq<char>) -> bool {
        self.position(entity, uuid) < self.rows.len()
    }

    /// The row of the given kind and identifier, if the store holds one.
    pub open spec fn find(self, entity: EntityKind, uuid: Seq<char>) -> Option<RowView> {
        if self.contains(entity, uuid) {
            Some(self.rows[self.position(entity, uuid)])
        } else {
            None
        }
    }

    /// The rows of a kind, in the order in which they were written.
    pub open spec fn table(self, entity: EntityKind) -> Seq<RowView> {
        table_upto(self.rows, entity, self.rows.len() as int)
    }

    /// The store with one more row.
    pub open spec fn with_row(self, row: RowView) -> StoreView {
        StoreView { rows: self.rows.push(row) }
    }

    /// The store after an edit of an audit record.
    pub open spec fn with_edit(
        self,
        uuid: Seq<char>,
        last_updated_by_user_uuid: Seq<char>,
        last_updated_time: Seq<char>,
    ) -> StoreView {
        StoreView {
            rows: Seq::new(
                self.rows.len(),
                |i: int| self.rows[i].with_edit(uuid, last_updated_by_user_uuid, last_updated_time),
            ),
        }
    }

    /// The store after a list got a title, a description and a colour.
    pub open spec fn with_list_columns(
        self,
        uuid: Seq<char>,
        title: Seq<char>,
        description: Option<Seq<char>>,
        color_hex: Option<Seq<char>>,
    ) -> StoreView {
        StoreView {
            rows: Seq::new(
                self.rows.len(),
                |i: int| self.rows[i].with_list_columns(uuid, title, description, color_hex),
            ),
        }
    }

    /// The store after a list got its tasks.
    pub open spec fn with_list_tasks(self, uuid: Seq<char>, task_uuids: Option<Seq<char>>) -> StoreView {
        StoreView {
            rows: Seq::new(self.rows.len(), |i: int| self.rows[i].with_list_tasks(uuid, task_uuids)),
        }
    }

    /// No two rows of one kind have the same identifier.
    pub open spec fn is_keyed(self) -> bool {
        forall|i: int, j: int|
            0 <= i < j < self.rows.len() ==> !(#[trigger] self.rows[i]).has_key(
                (#[trigger] self.rows[j]).entity(),
                self.rows[j].uuid(),
            )
    }

    /// What the store answers to a request, and what it holds afterwards. A
    /// question leaves it as it is. A row is written unless its kind has a
    /// row with its identifier. Columns are set in the row that is named; a
    /// name that no row has changes nothing and is no failure.
    pub open spec fn execute(self, request: StoreRequestView) -> (StoreView, StoreReplyView) {
        match request {
            StoreRequestView::All { entity } => (
                self,
                StoreReplyView::Rows { rows: self.table(entity) },
            ),
            StoreRequestView::Exists { entity, uuid } => (
                self,
                StoreReplyView::Exists { exists: self.contains(entity, uuid) },
            ),
            StoreRequestView::Find { entity, uuid } => (
                self,
                StoreReplyView::Found { row: self.find(entity, uuid) },
            ),
            StoreRequestView::Insert { row } => if self.contains(row.entity(), row.uuid()) {
                (self, StoreReplyView::Failed { details: duplicate_key_message(row.entity()) })
            } else {
                (self.with_row(row), StoreReplyView::Written)
            },
            StoreRequestView::UpdateCreationInformation {
                uuid,
                last_updated_by_user_uuid,
                last_updated_time,
            } => (
                self.with_edit(uuid, last_updated_by_user_uuid, last_updated_time),
                StoreReplyView::Written,
            ),
            StoreRequestView::UpdateList { uuid, title, description, color_hex } => (
                self.with_list_columns(uuid, title, description, color_hex),
                StoreReplyView::Written,
            ),
            StoreRequestView::UpdateListTasks { uuid, task_uuids } => (
                self.with_list_tasks(uuid, task_uuids),
                StoreReplyView::Written,
            ),
        }
    }
}

/// The first row with a key lies at or after `from`, has the key, and no row
/// between the two has it.
pub proof fn lemma_position_from(rows: Seq<RowView>, entity: EntityKind, uuid: Seq<char>, from: int)
    requires
        0 <= from <= rows.len(),
    ensures
        from <= position_from(rows, entity, uuid, from) <= rows.len(),
        position_from(rows, entity, uuid, from) < rows.len() ==> rows[position_from(
            rows,
            entity,
            uuid,
            from,
        )].has_key(entity, uuid),
        forall|i: int|
            from <= i < position_from(rows, entity, uuid, from) ==> !(#[trigger] rows[i]).has_key(
                entity,
                uuid,
            ),
    decreases rows.len() - from,
{
    if from < rows.len() && !rows[from].has_key(entity, uuid) {
        lemma_position_from(rows, entity, uuid, from + 1);
    }
}

/// A row that is found has the key under which it was looked for, and a row
/// is found exactly where a row has the key.
pub proof fn lemma_find(store: StoreView, entity: EntityKind, uuid: Seq<char>)
    ensures
        store.find(entity, uuid) matches Some(row) ==> row.has_key(entity, uuid),
        store.contains(entity, uuid) <==> exists|i: int|
            0 <= i < store.rows.len() && (#[trigger] store.rows[i]).has_key(entity, uuid),
        store.contains(entity, uuid) <==> store.find(entity, uuid) is Some,
{
    lemma_position_from(store.rows, entity, uuid, 0);
}

/// Where the first row with a key lies once one more row is written.
pub proof fn lemma_position_after_push(
    rows: Seq<RowView>,
    row: RowView,
    entity: EntityKind,
    uuid: Seq<char>,
    from: int,
)
    requires
        0 <= from <= rows.len(),
    ensures
        position_from(rows.push(row), entity, uuid, from) == if position_from(
            rows,
            entity,
            uuid,
            from,
        ) < rows.len() {
            position_from(rows, entity, uuid, from)
        } else if row.has_key(entity, uuid) {
            rows.len() as int
        } else {
            rows.len() as int + 1
        },
    decreases rows.len() - from,
{
    let pushed = rows.push(row);
    if from < rows.len() {
        assert(pushed[from] == rows[from]);
        if !rows[from].has_key(entity, uuid) {
            lemma_position_after_push(rows, row, entity, uuid, from + 1);
        }
    } else {
        assert(pushed[from] == row);
        if !row.has_key(entity, uuid) {
            assert(position_from(pushed, entity, uuid, from + 1) == pushed.len());
        }
    }
}

/// What a store holds once one more row is written: the rows it held are
/// found as before, and the new row is found under its key unless the store
/// held a row with that key.
pub proof fn lemma_with_row(store: StoreView, row: RowView, entity: EntityKind, uuid: Seq<char>)
    ensures
        store.with_row(row).contains(entity, uuid) <==> store.contains(entity, uuid)
            || row.has_key(entity, uuid),
        store.contains(entity, uuid) ==> store.with_row(row).find(entity, uuid) == store.find(
            entity,
            uuid,
        ),
        !store.contains(entity, uuid) && row.has_key(entity, uuid) ==> store.with_row(row).find(
            entity,
            uuid,
        ) == Some(row),
{
    lemma_position_after_push(store.rows, row, entity, uuid, 0);
    lemma_position_from(store.rows, entity, uuid, 0);
}

/// Keys stay unique when a row is written whose key no row has.
pub proof fn lemma_with_row_keyed(store: StoreView, row: RowView)
    requires
        store.is_keyed(),
        !store.contains(row.entity(), row.uuid()),
    ensures
        store.with_row(row).is_keyed(),
{
    lemma_find(store, row.entity(), row.uuid());
    let after = store.with_row(row);
    assert forall|i: int, j: int| 0 <= i < j < after.rows.len() implies !(
    #[trigger] after.rows[i]).has_key((#[trigger] after.rows[j]).entity(), after.rows[j].uuid()) by {
        if j < store.rows.len() {
            assert(after.rows[i] == store.rows[i]);
            assert(after.rows[j] == store.rows[j]);
        } else {
            assert(after.rows[i] == store.rows[i]);
        }
    }
}

/// Whatever is asked of a store whose keys are unique, its keys are unique
/// afterwards.
pub proof fn lemma_execute_keyed(store: StoreView, request: StoreRequestView)
    requires
        store.is_keyed(),
    ensures
        store.execute(request).0.is_keyed(),
{
    match request {
        StoreRequestView::Insert { row } => {
            if !store.contains(row.entity(), row.uuid()) {
                lemma_with_row_keyed(store, row);
            }
        },
        _ => {
            let after = store.execute(request).0;
            assert forall|i: int, j: int| 0 <= i < j < after.rows.len() implies !(
            #[trigger] after.rows[i]).has_key(
                (#[trigger] after.rows[j]).entity(),
                after.rows[j].uuid(),
            ) by {
                assert(after.rows[i].entity() == store.rows[i].entity());
                assert(after.rows[i].uuid() == store.rows[i].uuid());
                assert(after.rows[j].entity() == store.rows[j].entity());
                assert(after.rows[j].uuid() == store.rows[j].uuid());
                assert(!store.rows[i].has_key(store.rows[j].entity(), store.rows[j].uuid()));
            }
        },
    }
}

/// Setting columns leaves every row under its key: a key is held after
/// exactly where it was held before.
pub proof fn lemma_position_after_columns(
    before: Seq<RowView>,
    after: Seq<RowView>,
    entity: EntityKind,
    uuid: Seq<char>,
    from: int,
)
    requires
        0 <= from <= before.len(),
        after.len() == before.len(),
        forall|i: int|
            0 <= i < before.len() ==> (#[trigger] after[i]).entity() == before[i].entity()
                && after[i].uuid() == before[i].uuid(),
    ensures
        position_from(after, entity, uuid, from) == position_from(before, entity, uuid, from),
    decreases before.len() - from,
{
    if from < before.len() {
        assert(after[from].has_key(entity, uuid) == before[from].has_key(entity, uuid));
        if !before[from].has_key(entity, uuid) {
            lemma_position_after_columns(before, after, entity, uuid, from + 1);
        }
    }
}

/// What a store holds once an edit of an audit record is written: the same
/// keys as before; the record that was named with its new editor and time;
/// every other row as it was.
pub proof fn lemma_with_edit(
    store: StoreView,
    edited: Seq<char>,
    last_updated_by_user_uuid: Seq<char>,
    last_updated_time: Seq<char>,
    entity: EntityKind,
    uuid: Seq<char>,
)
    ensures
        ({
            let after = store.with_edit(edited, last_updated_by_user_uuid, last_updated_time);
            &&& after.contains(entity, uuid) == store.contains(entity, uuid)
            &&& after.find(entity, uuid) == match store.find(entity, uuid) {
                Some(row) => Some(row.with_edit(edited, last_updated_by_user_uuid, last_updated_time)),
                None => None,
            }
        }),
{
    let after = store.with_edit(edited, last_updated_by_user_uuid, last_updated_time);
    lemma_position_after_columns(store.rows, after.rows, entity, uuid, 0);
    lemma_position_from(store.rows, entity, uuid, 0);
}

/// What a store holds once title, description and colour of a list are
/// written: the same keys as before; the list that was named with its new
/// columns; every other row as it was.
pub proof fn lemma_with_list_columns(
    store: StoreView,
    revised: Seq<char>,
    title: Seq<char>,
    description: Option<Seq<char>>,
    color_hex: Option<Seq<char>>,
    entity: EntityKind,
    uuid: Seq<char>,
)
    ensures
        ({
            let after = store.with_list_columns(revised, title, description, color_hex);
            &&& after.contains(entity, uuid) == store.contains(entity, uuid)
            &&& after.find(entity, uuid) == match store.find(entity, uuid) {
                Some(row) => Some(row.with_list_columns(revised, title, description, color_hex)),
                None => None,
            }
        }),
{
    let after = store.with_list_columns(revised, title, description, color_hex);
    lemma_position_after_columns(store.rows, after.rows, entity, uuid, 0);
    lemma_position_from(store.rows, entity, uuid, 0);
}

/// What a store holds once the tasks of a list are written: the same keys as
/// before; the list that was named with its new tasks; every other row as it
/// was.
pub proof fn lemma_with_list_tasks(
    store: StoreView,
    linked: Seq<char>,
    task_uuids: Option<Seq<char>>,
    entity: EntityKind,
    uuid: Seq<char>,
)
    ensures
        ({
            let after = store.with_list_tasks(linked, task_uuids);
            &&& after.contains(entity, uuid) == store.contains(entity, uuid)
            &&& after.find(entity, uuid) == match store.find(entity, uuid) {
                Some(row) => Some(row.with_list_tasks(linked, task_uuids)),
                None => None,
            }
        }),
{
    let after = store.with_list_tasks(linked, task_uuids);
    lemma_position_after_columns(store.rows, after.rows, entity, uuid, 0);
    lemma_position_from(store.rows, entity, uuid, 0);
}

/// A store in memory.
#[derive(Debug)]
pub struct MemoryStore {
    rows: Vec<Row>,
}

impl View for MemoryStore {
    type V = StoreView;

    closed spec fn view(&self) -> StoreView {
        StoreView { rows: row_views(self.rows@) }
    }
}

impl MemoryStore {
    /// A store without rows.
    pub fn new() -> (store: MemoryStore)
        ensures
            store@.rows.len() == 0,
            store@.is_keyed(),
    {
        MemoryStore { rows: Vec::new() }
    }

    /// The number of rows.
    pub fn len(&self) -> (count: usize)
        ensures
            count == self@.rows.len(),
    {
        self.rows.len()
    }

    fn position(&self, entity: EntityKind, uuid: &String) -> (at: usize)
        ensures
            at == self@.position(entity, uuid@),
            at <= self.rows.len(),
    {
        let ghost rows = self@.rows;
        let mut i: usize = 0;
        while i < self.rows.len()
            invariant
                i <= self.rows.len(),
                rows == row_views(self.rows@),
                position_from(rows, entity, uuid@, 0) == position_from(rows, entity, uuid@, i as int),
            decreases self.rows.len() - i,
        {
            if self.rows[i].has_key(entity, uuid) {
                return i;
            }
            i += 1;
        }
        i
    }

    fn table(&self, entity: EntityKind) -> (found: Vec<Row>)
        ensures
            row_views(found@) == self@.table(entity),
    {
        let ghost rows = self@.rows;
        let mut found: Vec<Row> = Vec::new();
        let mut i: usize = 0;
        while i < self.rows.len()
            invariant
                i <= self.rows.len(),
                rows == row_views(self.rows@),
                row_views(found@) == table_upto(rows, entity, i as int),
            decreases self.rows.len() - i,
        {
            let ghost before = row_views(found@);
            if self.rows[i].entity() == entity {
                found.push(self.rows[i].duplicate());
                assert(row_views(found@) =~= before.push(rows[i as int]));
            }
            i += 1;
        }
        found
    }

    fn edit(&mut self, uuid: &String, last_updated_by_user_uuid: &String, last_updated_time: &String)
        ensures
            final(self)@ == old(self)@.with_edit(
                uuid@,
                last_updated_by_user_uuid@,
                last_updated_time@,
            ),
    {
        let ghost before = self@.rows;
        let mut i: usize = 0;
        while i < self.rows.len()
            invariant
                i <= self.rows.len(),
                self.rows.len() == before.len(),
                forall|j: int|
                    0 <= j < i ==> (#[trigger] self.rows[j])@ == before[j].with_edit(
                        uuid@,
                        last_updated_by_user_uuid@,
                        last_updated_time@,
                    ),
                forall|j: int| i <= j < before.len() ==> (#[trigger] self.rows[j])@ == before[j],
            decreases self.rows.len() - i,
        {
            let edited = match &self.rows[i] {
                Row::CreationInformation(row) => {
                    if row.uuid == *uuid {
                        Some(
                            Row::CreationInformation(
                                CreationInformationRow {
                                    uuid: row.uuid.clone(),
                                    creator_user_uuid: row.creator_user_uuid.clone(),
                                    creation_time: row.creation_time.clone(),
                                    last_updated_by_user_uuid: last_updated_by_user_uuid.clone(),
                                    last_updated_time: last_updated_time.clone(),
                                },
                            ),
                        )
                    } else {
                        None
                    }
                },
                _ => None,
            };
            match edited {
                Some(row) => {
                    self.rows.set(i, row);
                },
                None => {},
            }
            i += 1;
        }
        assert(self@.rows =~= old(self)@.with_edit(
            uuid@,
            last_updated_by_user_uuid@,
            last_updated_time@,
        ).rows);
    }

    fn set_list_columns(
        &mut self,
        uuid: &String,
        title: &String,
        description: &Option<String>,
        color_hex: &Option<String>,
    )
        ensures
            final(self)@ == old(self)@.with_list_columns(
                uuid@,
                title@,
                optional_text(*description),
                optional_text(*color_hex),
            ),
    {
        let ghost before = self@.rows;
        let mut i: usize = 0;
        while i < self.rows.len()
            invariant
                i <= self.rows.len(),
                self.rows.len() == before.len(),
                forall|j: int|
                    0 <= j < i ==> (#[trigger] self.rows[j])@ == before[j].with_list_columns(
                        uuid@,
                        title@,
                        optional_text(*description),
                        optional_text(*color_hex),
                    ),
                forall|j: int| i <= j < before.len() ==> (#[trigger] self.rows[j])@ == before[j],
            decreases self.rows.len() - i,
        {
            let changed = match &self.rows[i] {
                Row::List(row) => {
                    if row.uuid == *uuid {
                        Some(
                            Row::List(
                                ListRow {
                                    uuid: row.uuid.clone(),
                                    title: title.clone(),
                                    description: copy_optional(description),
                                    color_hex: copy_optional(color_hex),
                                    task_uuids: copy_optional(&row.task_uuids),
                                    parent_list_uuid: copy_optional(&row.parent_list_uuid),
                                    sub_list_uuids: copy_optional(&row.sub_list_uuids),
                                    shared_with_user_uuids: copy_optional(
                                        &row.shared_with_user_uuids,
                                    ),
                                    creation_information_uuid: row.creation_information_uuid.clone(),
                                },
                            ),
                        )
                    } else {
                        None
                    }
                },
                _ => None,
            };
            match changed {
                Some(row) => {
                    self.rows.set(i, row);
                },
                None => {},
            }
            i += 1;
        }
        assert(self@.rows =~= old(self)@.with_list_columns(
            uuid@,
            title@,
            optional_text(*description),
            optional_text(*color_hex),
        ).rows);
    }

    fn set_list_tasks(&mut self, uuid: &String, task_uuids: &Option<String>)
        ensures
            final(self)@ == old(self)@.with_list_tasks(uuid@, optional_text(*task_uuids)),
    {
        let ghost before = self@.rows;
        let mut i: usize = 0;
        while i < self.rows.len()
            invariant
                i <= self.rows.len(),
                self.rows.len() == before.len(),
                forall|j: int|
                    0 <= j < i ==> (#[trigger] self.rows[j])@ == before[j].with_list_tasks(
                        uuid@,
                        optional_text(*task_uuids),
                    ),
                forall|j: int| i <= j < before.len() ==> (#[trigger] self.rows[j])@ == before[j],
            decreases self.rows.len() - i,
        {
            let changed = match &self.rows[i] {
                Row::List(row) => {
                    if row.uuid == *uuid {
                        Some(
                            Row::List(
                                ListRow {
                                    uuid: row.uuid.clone(),
                                    title: row.title.clone(),
                                    description: copy_optional(&row.description),
                                    color_hex: copy_optional(&row.color_hex),
                                    task_uuids: copy_optional(task_uuids),
                                    parent_list_uuid: copy_optional(&row.parent_list_uuid),
                                    sub_list_uuids: copy_optional(&row.sub_list_uuids),
                                    shared_with_user_uuids: copy_optional(
                                        &row.shared_with_user_uuids,
                                    ),
                                    creation_information_uuid: row.creation_information_uuid.clone(),
                                },
                            ),
                        )
                    } else {
                        None
                    }
                },
                _ => None,
            };
            match changed {
                Some(row) => {
                    self.rows.set(i, row);
                },
                None => {},
            }
            i += 1;
        }
        assert(self@.rows =~= old(self)@.with_list_tasks(uuid@, optional_text(*task_uuids)).rows);
    }

    /// Answers a request as `StoreView::execute` says.
    pub fn execute(&mut self, request: StoreRequest) -> (reply: StoreReply)
        ensures
            (final(self)@, reply@) == old(self)@.execute(request@),
    {
        match request {
            StoreRequest::All { entity } => StoreReply::Rows { rows: self.table(entity) },
            StoreRequest::Exists { entity, uuid } => {
                let at = self.position(entity, &uuid);
                StoreReply::Exists { exists: at < self.rows.len() }
            },
            StoreRequest::Find { entity, uuid } => {
                let at = self.position(entity, &uuid);
                if at < self.rows.len() {
                    StoreReply::Found { row: Some(self.rows[at].duplicate()) }
                } else {
                    StoreReply::Found { row: None }
                }
            },
            StoreRequest::Insert { row } => {
                let entity = row.entity();
                let at = self.position(entity, row.uuid());
                if at < self.rows.len() {
                    StoreReply::Failed {
                        details: frame("UNIQUE constraint failed: ", entity.table(), ".uuid"),
                    }
                } else {
                    let ghost before = self@.rows;
                    self.rows.push(row);
                    assert(self@.rows =~= before.push(row@));
                    StoreReply::Written
                }
            },
            StoreRequest::UpdateCreationInformation {
                uuid,
                last_updated_by_user_uuid,
                last_updated_time,
            } => {
                self.edit(&uuid, &last_updated_by_user_uuid, &last_updated_time);
                StoreReply::Written
            },
            StoreRequest::UpdateList { uuid, title, description, color_hex } => {
                self.set_list_columns(&uuid, &title, &description, &color_hex);
                StoreReply::Written
            },
            StoreRequest::UpdateListTasks { uuid, task_uuids } => {
                self.set_list_tasks(&uuid, &task_uuids);
                StoreReply::Written
            },
        }
    }
}

} // verus!
