//! What holds of the service as a whole, whatever the store holds and whatever
//! is asked.

use vstd::prelude::*;
use crate::constants::{
    CREATION_INFORMATION_NOT_UPDATED_ERROR_MESSAGE,
    LIST_NOT_CREATED_ERROR_MESSAGE,
};
use crate::errors::{CauseView, EntityKind, ServiceErrorView};
use crate::identifiers::{
    canonical_uuid_text,
    is_hex_digit,
    is_hyphenated_uuid_text,
    is_uuid_text,
    lemma_canonical_uuid_text,
    uuid_text_value,
};
use crate::models::creation_information::CreationInformation;
use crate::models::database::{CreationInformationRowView, ListRowView, TaskRowView, UserRowView};
use crate::models::graphql::{
    CreateListInputView,
    CreateTaskInputView,
    CreateUserInputView,
    UpdateListInputView,
};
use crate::models::list::ListView;
use crate::models::task::{TaskPriority, TaskView};
use crate::models::user::UserView;
use crate::models::utilities::{uuid_array_text, uuid_reading};
use crate::services::creation_information_service::UpdateCreationInformationView;
use crate::services::list_service::CreateListView;
use crate::services::operation::{
    lemma_run_done,
    lemma_run_step,
    run,
    turn_steps,
    OperationView,
    OutcomeView,
    Question,
};
use crate::services::outcomes::{
    add_new_task_outcome,
    create_list_outcome,
    create_task_outcome,
    law_create_list,
    law_create_user,
    law_update_creation_information,
    update_creation_information_outcome,
    update_list_outcome,
};
use crate::services::protocol::{failure, Reference, TurnView};
use crate::services::runs::{
    all_resolve,
    first_missing_from,
    lemma_first_missing,
    reference_failure,
    resolves,
};
use crate::services::user_service::CreateUserView;
use crate::store::{
    lemma_execute_keyed,
    lemma_find,
    lemma_with_edit,
    lemma_with_list_columns,
    lemma_with_list_tasks,
    lemma_with_row,
    RowView,
    StoreRequestView,
    StoreView,
};
use crate::timestamps::Timestamp;
verus! {

/// The text form of an identifier, which validation accepts, has thirty-six
/// characters, and each is a hexadecimal digit or a hyphen: a text of another
/// length, or with another character, is refused, and so are the digits
/// without hyphens and the form behind `urn:uuid:`. The text that is written
/// for an identifier has the form, and stands for that identifier.
///
/// A text is read as an identifier in two more forms, thirty-two digits
/// without hyphens and the text form behind `urn:uuid:`, and in no other: not
/// where its length is none of 32, 36 and 45, and not where one of its
/// characters is neither a hexadecimal digit nor a hyphen nor, in a text of
/// length 45, among the first nine.
pub proof fn law_uuid_texts(text: Seq<char>, at: int, value: u128)
    ensures
        text.len() != 36 ==> !is_hyphenated_uuid_text(text),
        0 <= at < text.len() && !is_hex_digit(text[at]) && text[at] != '-'
            ==> !is_hyphenated_uuid_text(text),
        is_hyphenated_uuid_text(text) ==> is_uuid_text(text),
        is_hyphenated_uuid_text(canonical_uuid_text(value)),
        uuid_text_value(canonical_uuid_text(value)) == Some(value),
        text.len() != 32 && text.len() != 36 && text.len() != 45 ==> !is_uuid_text(text),
        0 <= at < text.len() && !is_hex_digit(text[at]) && text[at] != '-' && !(text.len() == 45
            && at < 9) ==> !is_uuid_text(text),
{
    lemma_canonical_uuid_text(value);
    if 0 <= at < text.len() && !is_hex_digit(text[at]) && text[at] != '-' && !(text.len() == 45
        && at < 9) {
        if text.len() == 45 {
            assert(text.subrange(9, 45)[at - 9] == text[at]);
        }
    }
}

/// A question leaves the store as it is, and its answer is what the store
/// holds: whether a row exists, the row that is looked for, the rows of a
/// kind.
pub proof fn law_questions(store: StoreView, entity: EntityKind, uuid: Seq<char>)
    ensures
        run(OperationView::existence(entity, uuid), store) == (
            store,
            Ok::<OutcomeView, ServiceErrorView>(OutcomeView::Exists(store.contains(entity, uuid))),
        ),
        run(OperationView::find(entity, uuid), store) == (
            store,
            Ok::<OutcomeView, ServiceErrorView>(OutcomeView::Found(store.find(entity, uuid))),
        ),
        run(OperationView::all(entity), store) == (
            store,
            Ok::<OutcomeView, ServiceErrorView>(OutcomeView::Rows(store.table(entity))),
        ),
{
    lemma_find(store, entity, uuid);
    lemma_run_step(
        OperationView::Question(Question::Exists { entity }),
        StoreRequestView::Exists { entity, uuid },
        store,
    );
    lemma_run_done(Ok(OutcomeView::Exists(store.contains(entity, uuid))), store);
    lemma_run_step(
        OperationView::Question(Question::Find { entity }),
        StoreRequestView::Find { entity, uuid },
        store,
    );
    lemma_run_done(Ok(OutcomeView::Found(store.find(entity, uuid))), store);
    lemma_run_step(
        OperationView::Question(Question::All { entity }),
        StoreRequestView::All { entity },
        store,
    );
    lemma_run_done(Ok(OutcomeView::Rows(store.table(entity))), store);
}

/// Looking a list up twice, with nothing written in between, gives the same
/// answer twice.
pub proof fn law_get_list_by_uuid_is_idempotent(store: StoreView, uuid: Seq<char>)
    ensures
        ({
            let first = run(OperationView::find(EntityKind::List, uuid), store);
            let second = run(OperationView::find(EntityKind::List, uuid), first.0);
            first.0 == store && second == first
        }),
{
    law_questions(store, EntityKind::List, uuid);
}

/// A user that has been created is found under the identifier of the row that
/// the creation handed out, and what is found is that row.
pub proof fn law_user_is_read_after_write(
    store: StoreView,
    input: CreateUserInputView,
    uuid: u128,
    hash_salt: Seq<char>,
)
    ensures
        ({
            let created = run(
                OperationView::create_user(CreateUserView::begin(input, uuid, hash_salt)),
                store,
            );
            created.1 matches Ok(OutcomeView::User(row)) ==> run(
                OperationView::find(EntityKind::User, row.uuid),
                created.0,
            ) == (
                created.0,
                Ok::<OutcomeView, ServiceErrorView>(OutcomeView::Found(Some(RowView::User(row)))),
            )
        }),
{
    law_create_user(store, input, uuid, hash_salt);
    let row = RowView::User(UserRowView::of(UserView::created(input, uuid, hash_salt)));
    if !store.contains(row.entity(), row.uuid()) {
        lemma_with_row(store, row, row.entity(), row.uuid());
        law_questions(store.with_row(row), EntityKind::User, row.uuid());
    }
}

/// Recording an edit in an audit record that the store does not hold fails,
/// says that the record was not found, and writes nothing.
pub proof fn law_update_of_unknown_creation_information(
    store: StoreView,
    uuid: Seq<char>,
    editor: Seq<char>,
    now: Timestamp,
)
    requires
        !store.contains(EntityKind::CreationInformation, uuid),
    ensures
        run(
            OperationView::update_creation_information(
                UpdateCreationInformationView::begin(uuid, editor, now),
            ),
            store,
        ) == (
            store,
            Err::<OutcomeView, ServiceErrorView>(
                failure(
                    CREATION_INFORMATION_NOT_UPDATED_ERROR_MESSAGE@,
                    CauseView::NotFound { entity: EntityKind::CreationInformation, uuid },
                ),
            ),
        ),
{
    law_update_creation_information(store, uuid, editor, now);
    lemma_find(store, EntityKind::CreationInformation, uuid);
}

/// Whether the inputs of the creation of a list are well formed: the creator's
/// text stands for an identifier, and the list's input can be read.
pub open spec fn list_inputs_are_well_formed(
    creator: Seq<char>,
    input: CreateListInputView,
    creation_information_uuid: u128,
    list_uuid: u128,
    now: Timestamp,
) -> bool {
    &&& CreationInformation::created(creator, creation_information_uuid, now) is Ok
    &&& ListView::created(input, creation_information_uuid, list_uuid) is Ok
}

/// What a list that is about to be created refers to, in the order in which it
/// is checked.
pub open spec fn list_references(
    creator: Seq<char>,
    input: CreateListInputView,
    creation_information_uuid: u128,
    list_uuid: u128,
    now: Timestamp,
) -> Seq<Reference> {
    CreateListView::references(
        CreationInformation::created(creator, creation_information_uuid, now)->Ok_0,
        ListView::created(input, creation_information_uuid, list_uuid)->Ok_0,
    )
}

/// Creating a list that refers to a user, a list or a task that the store does
/// not hold fails: the failure names the kind and the identifier of the first
/// such reference, and nothing is written.
pub proof fn law_create_list_with_unknown_reference(
    store: StoreView,
    creator: Seq<char>,
    input: CreateListInputView,
    creation_information_uuid: u128,
    list_uuid: u128,
    now: Timestamp,
)
    requires
        list_inputs_are_well_formed(creator, input, creation_information_uuid, list_uuid, now),
        !all_resolve(
            store,
            list_references(creator, input, creation_information_uuid, list_uuid, now),
        ),
    ensures
        ({
            let references = list_references(
                creator,
                input,
                creation_information_uuid,
                list_uuid,
                now,
            );
            let missing = references[first_missing_from(store, references, 0)];
            &&& !resolves(store, missing)
            &&& run(
                OperationView::create_list(
                    CreateListView::begin(creator, input, creation_information_uuid, list_uuid, now),
                ),
                store,
            ) == (
                store,
                Err::<OutcomeView, ServiceErrorView>(
                    reference_failure(LIST_NOT_CREATED_ERROR_MESSAGE@, missing),
                ),
            )
        }),
{
    law_create_list(store, creator, input, creation_information_uuid, list_uuid, now);
    lemma_first_missing(
        store,
        list_references(creator, input, creation_information_uuid, list_uuid, now),
        0,
    );
}

/// Creating a list that is shared with a user that the store does not hold
/// fails, and the failure names that user: where the store holds the creator,
/// the list above the new one if there is one, and every user before that
/// user among those that the list is shared with. Nothing is written.
pub proof fn law_create_list_with_unknown_shared_user(
    store: StoreView,
    creator: Seq<char>,
    input: CreateListInputView,
    creation_information_uuid: u128,
    list_uuid: u128,
    now: Timestamp,
    at: int,
)
    requires
        list_inputs_are_well_formed(creator, input, creation_information_uuid, list_uuid, now),
        ({
            let information = CreationInformation::created(
                creator,
                creation_information_uuid,
                now,
            )->Ok_0;
            let list = ListView::created(input, creation_information_uuid, list_uuid)->Ok_0;
            &&& store.contains(
                EntityKind::User,
                canonical_uuid_text(information.creator_user_uuid),
            )
            &&& list.parent_list_uuid matches Some(parent) ==> store.contains(
                EntityKind::List,
                canonical_uuid_text(parent),
            )
            &&& list.shared_with_user_uuids matches Some(users) && 0 <= at < users.len()
                && !store.contains(EntityKind::User, canonical_uuid_text(users[at])) && forall|
                i: int,
            |
                0 <= i < at ==> store.contains(
                    EntityKind::User,
                    canonical_uuid_text(#[trigger] users[i]),
                )
        }),
    ensures
        ({
            let list = ListView::created(input, creation_information_uuid, list_uuid)->Ok_0;
            let user = list.shared_with_user_uuids->Some_0[at];
            run(
                OperationView::create_list(
                    CreateListView::begin(creator, input, creation_information_uuid, list_uuid, now),
                ),
                store,
            ) == (
                store,
                Err::<OutcomeView, ServiceErrorView>(
                    failure(
                        LIST_NOT_CREATED_ERROR_MESSAGE@,
                        CauseView::ReferenceNotFound {
                            entity: EntityKind::User,
                            uuid: canonical_uuid_text(user),
                        },
                    ),
                ),
            )
        }),
{
    let information = CreationInformation::created(creator, creation_information_uuid, now)->Ok_0;
    let list = ListView::created(input, creation_information_uuid, list_uuid)->Ok_0;
    let users = list.shared_with_user_uuids->Some_0;
    let references = list_references(creator, input, creation_information_uuid, list_uuid, now);
    let before = seq![Reference { entity: EntityKind::User, uuid: information.creator_user_uuid }]
        + crate::services::protocol::reference_to(EntityKind::List, list.parent_list_uuid);
    let place = before.len() + at;
    assert forall|i: int| 0 <= i < place implies resolves(store, #[trigger] references[i]) by {
        if i < before.len() {
            assert(references[i] == before[i]);
        } else {
            assert(references[i] == Reference { entity: EntityKind::User, uuid: users[i - before.len()] });
        }
    }
    assert(references[place] == Reference { entity: EntityKind::User, uuid: users[at] });
    crate::services::runs::lemma_first_missing_at(store, references, 0, place);
    law_create_list_with_unknown_reference(
        store,
        creator,
        input,
        creation_information_uuid,
        list_uuid,
        now,
    );
}

/// Creating a list succeeds where the inputs are well formed, the store holds
/// all that the list refers to, and the two fresh identifiers are fresh. The
/// store then holds two rows more: the list's audit record, whose creator is
/// the user that the input names, and the list, which refers to that record.
/// The row that is handed out is the list's row as the store holds it.
pub proof fn law_create_list_succeeds(
    store: StoreView,
    creator: Seq<char>,
    input: CreateListInputView,
    creation_information_uuid: u128,
    list_uuid: u128,
    now: Timestamp,
)
    requires
        list_inputs_are_well_formed(creator, input, creation_information_uuid, list_uuid, now),
        all_resolve(
            store,
            list_references(creator, input, creation_information_uuid, list_uuid, now),
        ),
        !store.contains(
            EntityKind::CreationInformation,
            canonical_uuid_text(creation_information_uuid),
        ),
        !store.contains(EntityKind::List, canonical_uuid_text(list_uuid)),
    ensures
        ({
            let information = CreationInformation::created(
                creator,
                creation_information_uuid,
                now,
            )->Ok_0;
            let list = ListView::created(input, creation_information_uuid, list_uuid)->Ok_0;
            let audit = RowView::CreationInformation(CreationInformationRowView::of(information));
            let row = ListRowView::of(list);
            let after = store.with_row(audit).with_row(RowView::List(row));
            &&& run(
                OperationView::create_list(
                    CreateListView::begin(creator, input, creation_information_uuid, list_uuid, now),
                ),
                store,
            ) == (after, Ok::<OutcomeView, ServiceErrorView>(OutcomeView::List(row)))
            &&& after.find(EntityKind::List, row.uuid) == Some(RowView::List(row))
            &&& after.find(EntityKind::CreationInformation, row.creation_information_uuid) == Some(
                audit,
            )
            &&& uuid_reading(creator) == Ok::<u128, Seq<char>>(information.creator_user_uuid)
            &&& CreationInformationRowView::of(information).creator_user_uuid
                == canonical_uuid_text(information.creator_user_uuid)
        }),
{
    law_create_list(store, creator, input, creation_information_uuid, list_uuid, now);
    let information = CreationInformation::created(creator, creation_information_uuid, now)->Ok_0;
    let list = ListView::created(input, creation_information_uuid, list_uuid)->Ok_0;
    let audit = RowView::CreationInformation(CreationInformationRowView::of(information));
    let row = RowView::List(ListRowView::of(list));
    lemma_with_row(store, audit, row.entity(), row.uuid());
    lemma_with_row(store, audit, audit.entity(), audit.uuid());
    lemma_with_row(store.with_row(audit), row, row.entity(), row.uuid());
    lemma_with_row(store.with_row(audit), row, audit.entity(), audit.uuid());
}

/// A list that has been created is as it was asked for. Where the creation
/// of a list succeeds, then:
/// - the store held all that the list refers to, and neither the list's
///   identifier nor that of its audit record was in use;
/// - the row that is handed out has the title, the description and the colour
///   of the input, and is found under its identifier afterwards;
/// - the store holds the list's audit record under the identifier that the
///   row names, and the record's creator is the user that the input names.
pub proof fn law_created_list_is_as_asked(
    store: StoreView,
    creator: Seq<char>,
    input: CreateListInputView,
    creation_information_uuid: u128,
    list_uuid: u128,
    now: Timestamp,
)
    requires
        create_list_outcome(
            store,
            creator,
            input,
            creation_information_uuid,
            list_uuid,
            now,
        ).1 is Ok,
    ensures
        ({
            let ran = create_list_outcome(
                store,
                creator,
                input,
                creation_information_uuid,
                list_uuid,
                now,
            );
            &&& list_inputs_are_well_formed(creator, input, creation_information_uuid, list_uuid, now)
            &&& all_resolve(
                store,
                list_references(creator, input, creation_information_uuid, list_uuid, now),
            )
            &&& ran.1 matches Ok(OutcomeView::List(row)) && row.title == input.title
                && row.description == input.description && row.color_hex == input.color_hex
                && row.uuid == canonical_uuid_text(list_uuid) && row.creation_information_uuid
                == canonical_uuid_text(creation_information_uuid) && !store.contains(
                EntityKind::List,
                row.uuid,
            ) && !store.contains(EntityKind::CreationInformation, row.creation_information_uuid)
                && run(OperationView::find(EntityKind::List, row.uuid), ran.0) == (
                ran.0,
                Ok::<OutcomeView, ServiceErrorView>(OutcomeView::Found(Some(RowView::List(row)))),
            ) && (ran.0.find(
                EntityKind::CreationInformation,
                row.creation_information_uuid,
            ) matches Some(RowView::CreationInformation(audit)) && uuid_reading(creator) matches Ok(
                creator_uuid,
            ) && audit.creator_user_uuid == canonical_uuid_text(creator_uuid)
                && audit.last_updated_by_user_uuid == audit.creator_user_uuid && audit.creation_time
                == now.text() && audit.last_updated_time == now.text())
        }),
{
    let information = CreationInformation::created(creator, creation_information_uuid, now)->Ok_0;
    let list = ListView::created(input, creation_information_uuid, list_uuid)->Ok_0;
    let audit = RowView::CreationInformation(CreationInformationRowView::of(information));
    let row = RowView::List(ListRowView::of(list));
    let after = store.with_row(audit).with_row(row);
    lemma_with_row(store, audit, row.entity(), row.uuid());
    lemma_with_row(store, audit, audit.entity(), audit.uuid());
    lemma_with_row(store.with_row(audit), row, row.entity(), row.uuid());
    lemma_with_row(store.with_row(audit), row, audit.entity(), audit.uuid());
    law_questions(after, EntityKind::List, row.uuid());
}

/// No two rows of one kind have the same identifier, whatever operation has
/// run: an operation that runs against a store whose keys are unique leaves a
/// store whose keys are unique.
pub proof fn law_keys_stay_unique(turn: TurnView<OperationView, OutcomeView>, store: StoreView)
    requires
        store.is_keyed(),
    ensures
        run(turn, store).0.is_keyed(),
    decreases turn_steps(turn),
{
    match turn {
        TurnView::Done { result } => {
            lemma_run_done(result, store);
        },
        TurnView::Ask { state, request } => {
            let answered = store.execute(request);
            lemma_run_step(state, request, store);
            lemma_execute_keyed(store, request);
            state.lemma_progress(answered.1);
            law_keys_stay_unique(state.advance(answered.1), answered.0);
        },
    }
}

/// The last edit of an audit record is never earlier than the creation: a
/// record that has just been created is consistent, and a record is
/// consistent after an edit, whatever the clock shows. The time of the last
/// edit is the time that the clock shows unless that is earlier than the
/// creation; where the clock shows a later time than the creation, the last
/// edit is later than the creation. An edit leaves the identifier, the creator
/// and the time of creation as they were.
pub proof fn law_creation_information_stays_consistent(
    information: CreationInformation,
    creator: Seq<char>,
    editor: u128,
    uuid: u128,
    now: Timestamp,
)
    ensures
        CreationInformation::created(creator, uuid, now) matches Ok(made) ==> made.is_consistent(),
        information.updated(editor, now).is_consistent(),
        information.creation_time.is_at_or_before(now) ==> information.updated(
            editor,
            now,
        ).last_updated_time == now,
        information.creation_time.is_before(now) ==> information.creation_time.is_before(
            information.updated(editor, now).last_updated_time,
        ),
        information.updated(editor, now).creation_time == information.creation_time,
        information.updated(editor, now).creator_user_uuid == information.creator_user_uuid,
        information.updated(editor, now).uuid == information.uuid,
        information.updated(editor, now).last_updated_by_user_uuid == editor,
{
}

/// Recording an edit writes the editor and the time of the edit into audit
/// records, and nothing else: the store holds the same keys afterwards, every
/// row of another kind is as it was, and every audit record has the
/// identifier, the creator and the time of creation that it had. A recording
/// that fails writes nothing.
pub proof fn law_update_creation_information_writes_editor_and_time_only(
    store: StoreView,
    uuid: Seq<char>,
    editor: Seq<char>,
    now: Timestamp,
    entity: EntityKind,
    other: Seq<char>,
)
    ensures
        ({
            let ran = update_creation_information_outcome(store, uuid, editor, now);
            &&& ran.1 is Err ==> ran.0 == store
            &&& ran.0.contains(entity, other) == store.contains(entity, other)
            &&& entity != EntityKind::CreationInformation ==> ran.0.find(entity, other)
                == store.find(entity, other)
            &&& store.find(entity, other) matches Some(RowView::CreationInformation(before)) ==> (
            ran.0.find(entity, other) matches Some(RowView::CreationInformation(after))
                && after.uuid == before.uuid && after.creator_user_uuid == before.creator_user_uuid
                && after.creation_time == before.creation_time)
        }),
{
    let ran = update_creation_information_outcome(store, uuid, editor, now);
    lemma_find(store, entity, other);
    if let Ok(OutcomeView::CreationInformation(updated)) = ran.1 {
        lemma_with_edit(
            store,
            updated.uuid,
            updated.last_updated_by_user_uuid,
            updated.last_updated_time,
            entity,
            other,
        );
    }
}

/// Revising a list writes title, description and colour of lists, and the
/// editor and the time of the edit of audit records, and nothing else: the
/// store holds the same keys afterwards, users and tasks are as they were, and
/// every list refers to the tasks, lists, users and audit record that it
/// referred to. A revision that is refused or does not find its list writes
/// nothing.
pub proof fn law_update_list_keeps_references(
    store: StoreView,
    editor: Seq<char>,
    input: UpdateListInputView,
    now: Timestamp,
    entity: EntityKind,
    other: Seq<char>,
)
    ensures
        ({
            let ran = update_list_outcome(store, editor, input, now);
            &&& ran.0.contains(entity, other) == store.contains(entity, other)
            &&& entity == EntityKind::User || entity == EntityKind::Task ==> ran.0.find(entity, other)
                == store.find(entity, other)
            &&& store.find(entity, other) matches Some(RowView::List(before)) ==> (ran.0.find(
                entity,
                other,
            ) matches Some(RowView::List(after)) && after.uuid == before.uuid && after.task_uuids
                == before.task_uuids && after.parent_list_uuid == before.parent_list_uuid
                && after.sub_list_uuids == before.sub_list_uuids && after.shared_with_user_uuids
                == before.shared_with_user_uuids && after.creation_information_uuid
                == before.creation_information_uuid)
            &&& store.find(EntityKind::List, input.uuid) is None ==> ran.0 == store
        }),
{
    lemma_find(store, entity, other);
    lemma_find(store, EntityKind::List, input.uuid);
    if let Some(RowView::List(found)) = store.find(EntityKind::List, input.uuid) {
        if let Ok(list) = ListView::of_row(found) {
            if let Ok(revised) = list.revised(input) {
                let row = ListRowView::of(revised);
                let written = store.with_list_columns(
                    row.uuid,
                    row.title,
                    row.description,
                    row.color_hex,
                );
                lemma_with_list_columns(
                    store,
                    row.uuid,
                    row.title,
                    row.description,
                    row.color_hex,
                    entity,
                    other,
                );
                law_update_creation_information_writes_editor_and_time_only(
                    written,
                    row.creation_information_uuid,
                    editor,
                    now,
                    entity,
                    other,
                );
                lemma_find(written, entity, other);
                let recorded = update_creation_information_outcome(
                    written,
                    row.creation_information_uuid,
                    editor,
                    now,
                );
                if let Ok(OutcomeView::CreationInformation(updated)) = recorded.1 {
                    lemma_with_edit(
                        written,
                        updated.uuid,
                        updated.last_updated_by_user_uuid,
                        updated.last_updated_time,
                        entity,
                        other,
                    );
                }
            }
        }
    }
}

/// The tasks of a list with one more task at their end.
pub open spec fn tasks_with(list: ListView, task_uuid: u128) -> Seq<u128> {
    match list.task_uuids {
        Some(tasks) => tasks.push(task_uuid),
        None => seq![task_uuid],
    }
}

/// Whether the store holds the list under `uuid` as the service writes lists:
/// the row can be read, it holds the list's identifier in the form in which
/// the service writes identifiers, and the store holds the list's audit
/// record.
pub open spec fn holds_list(store: StoreView, uuid: Seq<char>) -> bool {
    &&& store.find(EntityKind::List, uuid) matches Some(RowView::List(found))
    &&& ListView::of_row(found) matches Ok(list)
    &&& found.uuid == canonical_uuid_text(list.uuid)
    &&& store.contains(
        EntityKind::CreationInformation,
        canonical_uuid_text(list.creation_information_uuid),
    )
}

/// A new task is on its list afterwards. Where the addition of a new task to
/// a list succeeds, and the store held the list as the service writes lists,
/// then:
/// - the task's row is handed out under the fresh identifiers, which no task
///   and no audit record had before; it holds the content, the completion
///   mark (none is `false`) and the priority (none, or none that is known, is
///   the fallback) of the input, and refers to the list;
/// - the store holds that row, and the task's audit record names the task's
///   creator;
/// - the list's row holds the tasks that it held and the new task at their
///   end, and is otherwise as it was; where the text of the tasks is read
///   back, it is read as those tasks;
/// - the list's audit record has the identifier, the creator and the time of
///   creation that it had, names the task's creator as the last editor, and
///   has as the time of the last edit the time of the addition, or the time of
///   the creation where the clock has gone back behind it: the time of the
///   last edit is never earlier than the creation.
pub proof fn law_new_task_is_on_its_list(
    store: StoreView,
    creator: Seq<char>,
    input: CreateTaskInputView,
    creation_information_uuid: u128,
    task_uuid: u128,
    now: Timestamp,
)
    requires
        add_new_task_outcome(
            store,
            creator,
            input,
            creation_information_uuid,
            task_uuid,
            now,
        ).1 is Ok,
        holds_list(store, input.parent_list_uuid),
    ensures
        ({
            let ran = add_new_task_outcome(
                store,
                creator,
                input,
                creation_information_uuid,
                task_uuid,
                now,
            );
            let found = store.find(EntityKind::List, input.parent_list_uuid)->Some_0->List_0;
            let list = ListView::of_row(found)->Ok_0;
            let record_key = canonical_uuid_text(list.creation_information_uuid);
            let before = store.find(
                EntityKind::CreationInformation,
                record_key,
            )->Some_0->CreationInformation_0;
            let editor = uuid_reading(creator)->Ok_0;
            let tasks = tasks_with(list, task_uuid);
            &&& uuid_reading(creator) is Ok
            &&& ran.1 matches Ok(OutcomeView::Task(task_row)) && task_row.uuid == canonical_uuid_text(
                task_uuid,
            ) && task_row.content == input.content && task_row.parent_list_uuid == found.uuid
                && task_row.is_complete == (input.is_complete == Some(true)) && task_row.priority
                == TaskPriority::of_optional_number(input.priority).number()
                && task_row.creation_information_uuid == canonical_uuid_text(
                creation_information_uuid,
            ) && !store.contains(EntityKind::Task, task_row.uuid) && !store.contains(
                EntityKind::CreationInformation,
                task_row.creation_information_uuid,
            ) && ran.0.find(EntityKind::Task, task_row.uuid) == Some(RowView::Task(task_row))
            &&& ran.0.find(
                EntityKind::CreationInformation,
                canonical_uuid_text(creation_information_uuid),
            ) matches Some(RowView::CreationInformation(audit)) && audit.creator_user_uuid
                == canonical_uuid_text(editor)
            &&& ran.0.find(EntityKind::List, found.uuid) == Some(
                RowView::List(ListRowView { task_uuids: Some(uuid_array_text(tasks)), ..found }),
            )
            &&& crate::json::json_reads_back(crate::identifiers::canonical_uuid_texts(tasks))
                ==> crate::models::utilities::uuid_array_reading(uuid_array_text(tasks)) == Ok::<
                Seq<u128>,
                Seq<char>,
            >(tasks)
            &&& CreationInformation::of_row(before) matches Ok(stored) && ran.0.find(
                EntityKind::CreationInformation,
                record_key,
            ) == Some(
                RowView::CreationInformation(
                    CreationInformationRowView {
                        last_updated_by_user_uuid: canonical_uuid_text(editor),
                        last_updated_time: stored.creation_time.later(now).text(),
                        ..before
                    },
                ),
            ) && stored.updated(editor, now).is_consistent() && (stored.creation_time.is_at_or_before(
                now,
            ) ==> stored.creation_time.later(now) == now)
        }),
{
    let found = store.find(EntityKind::List, input.parent_list_uuid)->Some_0->List_0;
    let list = ListView::of_row(found)->Ok_0;
    let key = found.uuid;
    let tasks = tasks_with(list, task_uuid);
    lemma_find(store, EntityKind::List, input.parent_list_uuid);
    assert(key == input.parent_list_uuid);
    lemma_canonical_uuid_text(list.uuid);
    if crate::json::json_reads_back(crate::identifiers::canonical_uuid_texts(tasks)) {
        crate::models::utilities::lemma_uuid_array_reads_back(tasks);
    }

    // The task is created: two rows are written, and neither is a list.
    let created = create_task_outcome(
        store,
        creator,
        input,
        creation_information_uuid,
        task_uuid,
        now,
    );
    let information = CreationInformation::created(creator, creation_information_uuid, now)->Ok_0;
    let made = TaskView::created(input, creation_information_uuid, task_uuid)->Ok_0;
    let audit = RowView::CreationInformation(CreationInformationRowView::of(information));
    let task_row = TaskRowView::of(made);
    let with_audit = store.with_row(audit);
    assert(created.1 == Ok::<OutcomeView, ServiceErrorView>(OutcomeView::Task(task_row)));
    assert(created.0 == with_audit.with_row(RowView::Task(task_row)));
    lemma_canonical_uuid_text(task_uuid);
    lemma_canonical_uuid_text(made.parent_list_uuid);
    let task = TaskView::of_row(task_row)->Ok_0;
    assert(task.uuid == task_uuid);
    assert(uuid_reading(input.parent_list_uuid) == Ok::<u128, Seq<char>>(list.uuid));
    lemma_with_row(store, audit, EntityKind::List, key);
    lemma_with_row(with_audit, RowView::Task(task_row), EntityKind::List, key);
    assert(created.0.find(EntityKind::List, key) == Some(RowView::List(found)));
    lemma_with_row(store, audit, EntityKind::Task, task_row.uuid);
    lemma_with_row(with_audit, RowView::Task(task_row), EntityKind::Task, task_row.uuid);
    lemma_with_row(store, audit, EntityKind::CreationInformation, audit.uuid());
    lemma_with_row(
        with_audit,
        RowView::Task(task_row),
        EntityKind::CreationInformation,
        audit.uuid(),
    );

    // The list's tasks are written.
    let row = ListRowView::of(list.with_task(task_uuid));
    assert(row.uuid == key);
    let linked = created.0.with_list_tasks(row.uuid, row.task_uuids);
    lemma_with_list_tasks(created.0, row.uuid, row.task_uuids, EntityKind::List, key);
    lemma_with_list_tasks(created.0, row.uuid, row.task_uuids, EntityKind::Task, task_row.uuid);
    lemma_with_list_tasks(
        created.0,
        row.uuid,
        row.task_uuids,
        EntityKind::CreationInformation,
        audit.uuid(),
    );

    // The edit is recorded in the record that the store held for the list.
    let record_key = row.creation_information_uuid;
    lemma_find(store, EntityKind::CreationInformation, record_key);
    lemma_with_row(store, audit, EntityKind::CreationInformation, record_key);
    lemma_with_row(
        with_audit,
        RowView::Task(task_row),
        EntityKind::CreationInformation,
        record_key,
    );
    lemma_with_list_tasks(
        created.0,
        row.uuid,
        row.task_uuids,
        EntityKind::CreationInformation,
        record_key,
    );
    let recorded = update_creation_information_outcome(linked, record_key, creator, now);
    assert(recorded.1 is Ok);
    lemma_find(linked, EntityKind::CreationInformation, record_key);
    let before = store.find(EntityKind::CreationInformation, record_key)->Some_0->CreationInformation_0;
    assert(linked.find(EntityKind::CreationInformation, record_key) == Some(
        RowView::CreationInformation(before),
    ));
    let editor = uuid_reading(creator)->Ok_0;
    let stored = CreationInformation::of_row(before)->Ok_0;
    let updated = CreationInformationRowView::of(stored.updated(editor, now));
    lemma_canonical_uuid_text(list.creation_information_uuid);
    assert(before.uuid == record_key);
    assert(updated.uuid == record_key);
    lemma_with_edit(
        linked,
        updated.uuid,
        updated.last_updated_by_user_uuid,
        updated.last_updated_time,
        EntityKind::List,
        key,
    );
    lemma_with_edit(
        linked,
        updated.uuid,
        updated.last_updated_by_user_uuid,
        updated.last_updated_time,
        EntityKind::CreationInformation,
        record_key,
    );
    lemma_with_edit(
        linked,
        updated.uuid,
        updated.last_updated_by_user_uuid,
        updated.last_updated_time,
        EntityKind::Task,
        task_row.uuid,
    );
    lemma_with_edit(
        linked,
        updated.uuid,
        updated.last_updated_by_user_uuid,
        updated.last_updated_time,
        EntityKind::CreationInformation,
        audit.uuid(),
    );
}

} // verus!
