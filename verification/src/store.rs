//! What the engine takes the datastore to do with what it sends: a model
//! of one table's rows, of an insert-or-ignore, and of a flush.
//!
//! The datastore itself is outside this library. The model fixes the
//! meaning that the restore relies on: a row is kept under its primary
//! key, an insert never replaces a row that is there, and a flush removes
//! the rows within its scope and no others. What is proved here is proved
//! of this model.

use crate::records::{ParamView, SqlValueView};
use crate::tables::{DomainType, TableKind};
use vstd::prelude::*;

verus! {

/// A row as the table keeps it: the values that were bound when it was
/// inserted, and, in the domain-list table, the list that it belongs to.
pub struct Row {
    pub list: Option<DomainType>,
    pub values: Seq<ParamView>,
}

/// The list that rows written for `kind` belong to.
pub open spec fn list_of(kind: TableKind) -> Option<DomainType> {
    match kind {
        TableKind::DomainList(t) => Some(t),
        _ => None,
    }
}

/// Whether `kind` is a table of links, whose rows are nothing but a pair
/// of references.
pub open spec fn is_link_table(kind: TableKind) -> bool {
    kind is ClientByGroup || kind is DomainListByGroup || kind is AdListByGroup
}

/// The primary key of the row that `params` describes: the pair of
/// references in a table of links, the first value (the id) elsewhere.
pub open spec fn row_key(kind: TableKind, params: Seq<ParamView>) -> Seq<SqlValueView> {
    let width: int = if is_link_table(kind) {
        2
    } else {
        1
    };
    Seq::new(
        if params.len() < width {
            params.len()
        } else {
            width as nat
        },
        |i: int| params[i].value,
    )
}

/// The table after one insert-or-ignore: the row is added where no row has
/// its key, and nothing changes where one has.
pub open spec fn insert_or_ignore(
    rows: Map<Seq<SqlValueView>, Row>,
    kind: TableKind,
    params: Seq<ParamView>,
) -> Map<Seq<SqlValueView>, Row> {
    let key = row_key(kind, params);
    if rows.dom().contains(key) {
        rows
    } else {
        rows.insert(key, Row { list: list_of(kind), values: params })
    }
}

/// The table after the records of `batch` have been inserted one by one,
/// in order.
pub open spec fn restored(
    rows: Map<Seq<SqlValueView>, Row>,
    kind: TableKind,
    batch: Seq<Seq<ParamView>>,
) -> Map<Seq<SqlValueView>, Row>
    decreases batch.len(),
{
    if batch.len() == 0 {
        rows
    } else {
        insert_or_ignore(restored(rows, kind, batch.drop_last()), kind, batch.last())
    }
}

/// Whether the flush for `kind` removes `row`: in the domain-list table
/// the rows of the list that is restored, in any other table every row.
pub open spec fn in_flush_scope(kind: TableKind, row: Row) -> bool {
    match kind {
        TableKind::DomainList(t) => row.list == Some(t),
        _ => true,
    }
}

/// The table after the flush for `kind`.
pub open spec fn flushed(rows: Map<Seq<SqlValueView>, Row>, kind: TableKind) -> Map<
    Seq<SqlValueView>,
    Row,
> {
    rows.remove_keys(Set::new(|key: Seq<SqlValueView>| in_flush_scope(kind, rows[key])))
}

/// Inserting a batch keeps every row that was there, and leaves a row under
/// the key of each record of the batch.
pub proof fn lemma_restored_keeps_rows(
    rows: Map<Seq<SqlValueView>, Row>,
    kind: TableKind,
    batch: Seq<Seq<ParamView>>,
)
    ensures
        forall|key: Seq<SqlValueView>| #[trigger]
            rows.dom().contains(key) ==> restored(rows, kind, batch).dom().contains(key)
                && restored(rows, kind, batch)[key] == rows[key],
        forall|i: int|
            0 <= i < batch.len() ==> restored(rows, kind, batch).dom().contains(
                row_key(kind, #[trigger] batch[i]),
            ),
    decreases batch.len(),
{
    if batch.len() > 0 {
        let front = batch.drop_last();
        lemma_restored_keeps_rows(rows, kind, front);
        assert forall|i: int| 0 <= i < batch.len() implies restored(
            rows,
            kind,
            batch,
        ).dom().contains(row_key(kind, #[trigger] batch[i])) by {
            if i < front.len() {
                assert(front[i] == batch[i]);
            }
        }
    }
}

/// Inserting a batch whose keys are all taken changes nothing.
pub proof fn lemma_restored_over_taken_keys(
    rows: Map<Seq<SqlValueView>, Row>,
    kind: TableKind,
    batch: Seq<Seq<ParamView>>,
)
    requires
        forall|i: int|
            0 <= i < batch.len() ==> rows.dom().contains(row_key(kind, #[trigger] batch[i])),
    ensures
        restored(rows, kind, batch) == rows,
    decreases batch.len(),
{
    if batch.len() > 0 {
        let front = batch.drop_last();
        assert forall|i: int| 0 <= i < front.len() implies rows.dom().contains(
            row_key(kind, #[trigger] front[i]),
        ) by {
            assert(front[i] == batch[i]);
        }
        lemma_restored_over_taken_keys(rows, kind, front);
        assert(rows.dom().contains(row_key(kind, batch[batch.len() - 1])));
    }
}

/// Restoring a batch twice in a row leaves the same rows as restoring it
/// once: the second time every key is taken, so every insert is ignored.
pub proof fn law_restore_is_idempotent(
    rows: Map<Seq<SqlValueView>, Row>,
    kind: TableKind,
    batch: Seq<Seq<ParamView>>,
)
    ensures
        restored(restored(rows, kind, batch), kind, batch) == restored(rows, kind, batch),
{
    lemma_restored_keeps_rows(rows, kind, batch);
    lemma_restored_over_taken_keys(restored(rows, kind, batch), kind, batch);
}

/// A restore never replaces a row: whatever was stored under a key before
/// is stored under it afterwards.
pub proof fn law_restore_keeps_first_row(
    rows: Map<Seq<SqlValueView>, Row>,
    kind: TableKind,
    batch: Seq<Seq<ParamView>>,
    key: Seq<SqlValueView>,
)
    requires
        rows.dom().contains(key),
    ensures
        restored(rows, kind, batch).dom().contains(key),
        restored(rows, kind, batch)[key] == rows[key],
{
    lemma_restored_keeps_rows(rows, kind, batch);
}

/// The flush of one list of the domain-list table removes the rows of that
/// list and leaves every row of another list as it was.
pub proof fn law_flush_is_scoped(
    rows: Map<Seq<SqlValueView>, Row>,
    list: DomainType,
    key: Seq<SqlValueView>,
)
    requires
        rows.dom().contains(key),
    ensures
        rows[key].list == Some(list) ==> !flushed(rows, TableKind::DomainList(list)).dom().contains(
            key,
        ),
        rows[key].list != Some(list) ==> flushed(rows, TableKind::DomainList(list)).dom().contains(
            key,
        ) && flushed(rows, TableKind::DomainList(list))[key] == rows[key],
{
}

} // verus!
