//! What the run of a protocol against a store comes to: the check of a list
//! of references, and the writing of a row.

use vstd::prelude::*;
use crate::errors::{CauseView, ServiceErrorView};
use crate::identifiers::canonical_uuid_text;
use crate::services::operation::{lemma_run_done, lemma_run_step, run, OperationView, OutcomeView};
use crate::services::protocol::{
    failure,
    CheckReferencesView,
    Reference,
    TurnView,
    WriteRowView,
};
use crate::store::{
    duplicate_key_message,
    lemma_with_row,
    RowView,
    StoreReplyView,
    StoreRequestView,
    StoreView,
};

verus! {

/// Whether the store holds what the reference refers to.
pub open spec fn resolves(store: StoreView, reference: Reference) -> bool {
    store.contains(reference.entity, canonical_uuid_text(reference.uuid))
}

/// The place of the first reference at or after `from` that the store does
/// not hold; the number of references where it holds them all.
pub open spec fn first_missing_from(store: StoreView, pending: Seq<Reference>, from: int) -> int
    decreases pending.len() - from,
{
    if from < 0 || from >= pending.len() {
        pending.len() as int
    } else if !resolves(store, pending[from]) {
        from
    } else {
        first_missing_from(store, pending, from + 1)
    }
}

/// Whether the store holds all that the references refer to.
pub open spec fn all_resolve(store: StoreView, pending: Seq<Reference>) -> bool {
    first_missing_from(store, pending, 0) == pending.len()
}

/// The first reference that the store does not hold lies at or after `from`,
/// and the store holds every reference between the two.
pub proof fn lemma_first_missing(store: StoreView, pending: Seq<Reference>, from: int)
    requires
        0 <= from <= pending.len(),
    ensures
        from <= first_missing_from(store, pending, from) <= pending.len(),
        forall|i: int|
            from <= i < first_missing_from(store, pending, from) ==> resolves(
                store,
                #[trigger] pending[i],
            ),
        first_missing_from(store, pending, from) < pending.len() ==> !resolves(
            store,
            pending[first_missing_from(store, pending, from)],
        ),
    decreases pending.len() - from,
{
    if from < pending.len() && resolves(store, pending[from]) {
        lemma_first_missing(store, pending, from + 1);
    }
}

/// The first reference that the store does not hold is the one at `at`, where
/// the store holds every reference from `from` up to it and does not hold it.
pub proof fn lemma_first_missing_at(store: StoreView, pending: Seq<Reference>, from: int, at: int)
    requires
        0 <= from <= at < pending.len(),
        forall|i: int| from <= i < at ==> resolves(store, #[trigger] pending[i]),
        !resolves(store, pending[at]),
    ensures
        first_missing_from(store, pending, from) == at,
    decreases at - from,
{
    if from < at {
        assert(resolves(store, pending[from]));
        lemma_first_missing_at(store, pending, from + 1, at);
    }
}

/// A turn of a check within an operation: the operation waits where the check
/// waits, goes on with `finish` once the check has ended well, and ends under
/// its own message where the check has failed.
pub open spec fn checked(
    wrap: spec_fn(CheckReferencesView) -> OperationView,
    finish: TurnView<OperationView, OutcomeView>,
    message: Seq<char>,
    turn: TurnView<CheckReferencesView, ()>,
) -> TurnView<OperationView, OutcomeView> {
    match turn {
        TurnView::Ask { state, request } => TurnView::Ask { state: wrap(state), request },
        TurnView::Done { result: Ok(_) } => finish,
        TurnView::Done { result: Err(err) } => TurnView::Done { result: Err(err.under(message)) },
    }
}

/// A turn of a writing within an operation: the operation waits where the
/// writing waits, goes on with `finish` of the row once the row is read back,
/// and ends under its own message where the writing has failed.
pub open spec fn written(
    wrap: spec_fn(WriteRowView) -> OperationView,
    finish: spec_fn(RowView) -> TurnView<OperationView, OutcomeView>,
    message: Seq<char>,
    turn: TurnView<WriteRowView, RowView>,
) -> TurnView<OperationView, OutcomeView> {
    match turn {
        TurnView::Ask { state, request } => TurnView::Ask { state: wrap(state), request },
        TurnView::Done { result: Ok(row) } => finish(row),
        TurnView::Done { result: Err(err) } => TurnView::Done { result: Err(err.under(message)) },
    }
}

/// The failure of an operation that refers to what the store does not hold.
pub open spec fn reference_failure(message: Seq<char>, reference: Reference) -> ServiceErrorView {
    failure(
        message,
        CauseView::ReferenceNotFound {
            entity: reference.entity,
            uuid: canonical_uuid_text(reference.uuid),
        },
    )
}

/// The failure of an operation that writes a row whose key a row has.
pub open spec fn duplicate_failure(message: Seq<char>, row: RowView) -> ServiceErrorView {
    failure(message, CauseView::Persistence { details: duplicate_key_message(row.entity()) })
}

/// The run of a check within an operation: where the store holds all the
/// references, the operation goes on and the store is as before; otherwise
/// the operation ends with the first reference that the store does not hold,
/// and nothing has been written.
pub proof fn lemma_run_check(
    wrap: spec_fn(CheckReferencesView) -> OperationView,
    finish: TurnView<OperationView, OutcomeView>,
    message: Seq<char>,
    pending: Seq<Reference>,
    from: int,
    store: StoreView,
)
    requires
        0 <= from <= pending.len(),
        forall|inner: CheckReferencesView, reply: StoreReplyView|
            (#[trigger] wrap(inner).advance(reply)) == checked(
                wrap,
                finish,
                message,
                inner.resume(reply),
            ),
    ensures
        run(checked(wrap, finish, message, CheckReferencesView::from(pending, from)), store) == if
            first_missing_from(store, pending, from) == pending.len() {
            run(finish, store)
        } else {
            (
                store,
                Err::<OutcomeView, ServiceErrorView>(
                    reference_failure(message, pending[first_missing_from(store, pending, from)]),
                ),
            )
        },
    decreases pending.len() - from,
{
    if from < pending.len() {
        let state = CheckReferencesView { pending, next: from };
        let request = pending[from].question();
        let turn = checked(wrap, finish, message, CheckReferencesView::from(pending, from));
        assert(turn == TurnView::<OperationView, OutcomeView>::Ask { state: wrap(state), request });
        let answered = store.execute(request);
        assert(answered.0 == store);
        assert(answered.1 == StoreReplyView::Exists { exists: resolves(store, pending[from]) });
        lemma_run_step(wrap(state), request, store);
        assert(run(turn, store) == run(wrap(state).advance(answered.1), store));
        if resolves(store, pending[from]) {
            assert(state.resume(answered.1) == CheckReferencesView::from(pending, from + 1));
            lemma_run_check(wrap, finish, message, pending, from + 1, store);
        } else {
            assert(wrap(state).advance(answered.1) == TurnView::<
                OperationView,
                OutcomeView,
            >::Done { result: Err(reference_failure(message, pending[from])) });
            lemma_run_done(Err(reference_failure(message, pending[from])), store);
        }
    }
}

/// The run of a writing within an operation: where no row has the key of the
/// new row, the row is written and the operation goes on with the row as the
/// store holds it; otherwise the operation ends with the store's refusal, and
/// nothing has been written.
pub proof fn lemma_run_write(
    wrap: spec_fn(WriteRowView) -> OperationView,
    finish: spec_fn(RowView) -> TurnView<OperationView, OutcomeView>,
    message: Seq<char>,
    row: RowView,
    store: StoreView,
)
    requires
        forall|inner: WriteRowView, reply: StoreReplyView|
            (#[trigger] wrap(inner).advance(reply)) == written(
                wrap,
                finish,
                message,
                inner.resume(reply),
            ),
    ensures
        run(written(wrap, finish, message, WriteRowView::begin(row)), store) == if store.contains(
            row.entity(),
            row.uuid(),
        ) {
            (store, Err::<OutcomeView, ServiceErrorView>(duplicate_failure(message, row)))
        } else {
            run(finish(row), store.with_row(row))
        },
{
    let inserting = WriteRowView::Inserting { entity: row.entity(), uuid: row.uuid() };
    let turn = written(wrap, finish, message, WriteRowView::begin(row));
    let request = StoreRequestView::Insert { row };
    assert(turn == TurnView::<OperationView, OutcomeView>::Ask { state: wrap(inserting), request });
    let answered = store.execute(request);
    lemma_run_step(wrap(inserting), request, store);
    assert(run(turn, store) == run(wrap(inserting).advance(answered.1), answered.0));
    if store.contains(row.entity(), row.uuid()) {
        assert(wrap(inserting).advance(answered.1) == TurnView::<
            OperationView,
            OutcomeView,
        >::Done { result: Err(duplicate_failure(message, row)) });
        lemma_run_done(Err(duplicate_failure(message, row)), store);
    } else {
        let after = store.with_row(row);
        let reading = WriteRowView::ReadingBack { entity: row.entity(), uuid: row.uuid() };
        let find = StoreRequestView::Find { entity: row.entity(), uuid: row.uuid() };
        let second = TurnView::<OperationView, OutcomeView>::Ask {
            state: wrap(reading),
            request: find,
        };
        assert(wrap(inserting).advance(answered.1) == second);
        lemma_with_row(store, row, row.entity(), row.uuid());
        let found = after.execute(find);
        assert(found.0 == after);
        assert(found.1 == StoreReplyView::Found { row: Some(row) });
        lemma_run_step(wrap(reading), find, after);
        assert(run(second, after) == run(wrap(reading).advance(found.1), after));
        assert(wrap(reading).advance(found.1) == finish(row));
    }
}

} // verus!
