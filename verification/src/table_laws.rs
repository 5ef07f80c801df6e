//! What follows from the contracts: properties of whole runs of a restore,
//! and of the line formats, each stated for every input and proved.

use crate::action::{ActionView, Event};
use crate::gravity::{
    batch_plan, table_restore_action, table_restore_next, table_restore_start, Stage,
    TableRestoreView,
};
use crate::error::RestoreError;
use crate::gravity::{flush_text, kind_condition};
use crate::records::{
    ad_column_names, ad_list_group_assignment_column_names, client_column_names,
    client_group_assignment_column_names, domain_audit_entry_column_names,
    domain_column_names, domain_list_group_assignment_column_names, given_values,
    group_column_names, insert_text, plan_of, Batch, ParamView, Restorable, SqlValueView,
};
use crate::tables::{code_text, kind_table};
use crate::store::{
    flushed, insert_or_ignore, law_flush_is_scoped, law_restore_is_idempotent,
    law_restore_keeps_first_row, restored, Row,
};
use crate::tables::{DomainType, TableKind};
use vstd::prelude::*;

verus! {

/// In what a batch sends to the datastore, every row binds one value under
/// each placeholder of the statement, in the order in which the statement
/// gives them.
pub proof fn law_rows_match_statement<R: Restorable>(batch: &R, i: int, j: int)
    requires
        plan_of(batch) is Ok,
        0 <= i < batch.records().len(),
        0 <= j < batch.columns().len(),
    ensures
        ({
            let plan = plan_of(batch)->Ok_0;
            let fixed = batch.fixed_column()->Ok_0;
            &&& plan.statement == insert_text(batch.table_name(), batch.columns(), fixed)
            &&& plan.rows[i].len() == batch.columns().len()
            &&& plan.rows[i][j].name == given_values(batch.columns(), fixed)[j]
            &&& plan.rows[i][j].value == batch.values(i)[j]
            &&& batch.values(i).len() == batch.columns().len()
        }),
{
    batch.lemma_one_value_per_column(i);
}

/// The columns that the records of `kind` fill.
pub open spec fn kind_columns(kind: TableKind) -> Seq<Seq<char>> {
    match kind {
        TableKind::DomainList(_) => domain_column_names(),
        TableKind::AdList => ad_column_names(),
        TableKind::DomainAudit => domain_audit_entry_column_names(),
        TableKind::Group => group_column_names(),
        TableKind::Client => client_column_names(),
        TableKind::ClientByGroup => client_group_assignment_column_names(),
        TableKind::DomainListByGroup => domain_list_group_assignment_column_names(),
        TableKind::AdListByGroup => ad_list_group_assignment_column_names(),
    }
}

/// The column of `kind` that has one value for a whole entry: the list
/// type, in the domain-list table.
pub open spec fn kind_fixed_column(kind: TableKind) -> Option<(Seq<char>, Seq<char>)> {
    match kind {
        TableKind::DomainList(list) => Some(("type"@, code_text(list.code()))),
        _ => None,
    }
}

/// The statement of a restore is settled by the table alone, whatever the
/// records are: it inserts into the table of `kind`, the same table that a
/// flush for `kind` deletes from, and for a domain list it carries the
/// list type that the flush is confined to.
pub proof fn law_statement_goes_to_the_table_of_its_kind(kind: TableKind, batch: Batch)
    requires
        batch_plan(kind, batch) is Ok,
    ensures
        batch_plan(kind, batch)->Ok_0.statement == insert_text(
            kind_table(kind),
            kind_columns(kind),
            kind_fixed_column(kind),
        ),
        table_restore_action(
            TableRestoreView { stage: Stage::Delete, ..table_restore_start(kind, true, true) },
        ) == (ActionView::Execute { sql: flush_text(kind_table(kind), kind_condition(kind)) }),
{
}

/// A restore that was given up stays given up: all that is asked for is to
/// finish with the reason, whatever the caller answers.
pub proof fn law_failed_restore_is_final(s: TableRestoreView, e: RestoreError, event: Event)
    requires
        s.stage == Stage::Failed(e),
    ensures
        table_restore_action(s) == (ActionView::Finish { result: Err(e) }),
        table_restore_next(s, event) == s,
{
}

/// Nothing is inserted before the statement has been prepared: whenever
/// the caller is asked to insert, every preparation has gone well.
pub proof fn law_insert_comes_after_preparation(s: TableRestoreView)
    requires
        table_restore_action(s) is Insert,
    ensures
        s.stage == Stage::Rows,
        s.next < s.plan.rows.len(),
{
}

/// A flush for a table that the catalog does not list ends the restore
/// with `TableMissing`: what follows the catalog's answer is nothing but
/// the end, so nothing is deleted and nothing inserted.
pub proof fn law_missing_table_ends_restore(kind: TableKind, connect_first: bool)
    ensures
        ({
            let start = table_restore_start(kind, true, connect_first);
            let asked = if connect_first {
                table_restore_next(start, Event::Done)
            } else {
                start
            };
            &&& table_restore_action(asked) is CheckTable
            &&& table_restore_action(table_restore_next(asked, Event::Found(false)))
                == (ActionView::Finish { result: Err(RestoreError::TableMissing) })
        }),
{
}

/// The state that a table restore reaches from `s` when the caller's
/// answers are `events`, in order.
pub open spec fn table_run(s: TableRestoreView, events: Seq<Event>) -> TableRestoreView
    decreases events.len(),
{
    if events.len() == 0 {
        s
    } else {
        table_run(table_restore_next(s, events[0]), events.skip(1))
    }
}

/// The table's rows after the caller has carried out the action of state
/// `s` and answered with `event`. An action that was carried out has done
/// to the rows what the model says; one that failed has changed nothing.
pub open spec fn rows_after(
    s: TableRestoreView,
    event: Event,
    rows: Map<Seq<SqlValueView>, Row>,
) -> Map<Seq<SqlValueView>, Row> {
    match s.stage {
        Stage::Delete => if event is Done {
            flushed(rows, s.kind)
        } else {
            rows
        },
        Stage::Rows => if s.next < s.plan.rows.len() && event is Done {
            insert_or_ignore(rows, s.kind, s.plan.rows[s.next as int])
        } else {
            rows
        },
        _ => rows,
    }
}

/// The table's rows after a run from state `s` with the answers `events`.
pub open spec fn table_run_rows(
    s: TableRestoreView,
    events: Seq<Event>,
    rows: Map<Seq<SqlValueView>, Row>,
) -> Map<Seq<SqlValueView>, Row>
    decreases events.len(),
{
    if events.len() == 0 {
        rows
    } else {
        table_run_rows(
            table_restore_next(s, events[0]),
            events.skip(1),
            rows_after(s, events[0], rows),
        )
    }
}

/// The answers of a run in which everything up to the decoding goes well:
/// the datastore opens, and with a flush the catalog lists the table and
/// the delete is carried out.
pub open spec fn opening(flush: bool, connect_first: bool) -> Seq<Event> {
    if !flush {
        seq![Event::Done]
    } else if connect_first {
        seq![Event::Done, Event::Found(true), Event::Done]
    } else {
        seq![Event::Found(true), Event::Done, Event::Done]
    }
}

/// A run can be cut in two: the second part starts where the first ended.
pub proof fn lemma_table_run_split(
    s: TableRestoreView,
    a: Seq<Event>,
    b: Seq<Event>,
    rows: Map<Seq<SqlValueView>, Row>,
)
    ensures
        table_run(s, a + b) == table_run(table_run(s, a), b),
        table_run_rows(s, a + b, rows) == table_run_rows(
            table_run(s, a),
            b,
            table_run_rows(s, a, rows),
        ),
    decreases a.len(),
{
    if a.len() == 0 {
        assert(a + b =~= b);
    } else {
        assert((a + b)[0] == a[0]);
        assert((a + b).skip(1) =~= a.skip(1) + b);
        lemma_table_run_split(
            table_restore_next(s, a[0]),
            a.skip(1),
            b,
            rows_after(s, a[0], rows),
        );
    }
}

/// A run of one answer is one step.
pub proof fn lemma_table_run_one(
    s: TableRestoreView,
    event: Event,
    rows: Map<Seq<SqlValueView>, Row>,
)
    ensures
        table_run(s, seq![event]) == table_restore_next(s, event),
        table_run_rows(s, seq![event], rows) == rows_after(s, event, rows),
{
    let events = seq![event];
    assert(events.skip(1).len() == 0);
    assert(table_run(table_restore_next(s, event), events.skip(1)) == table_restore_next(
        s,
        event,
    ));
    assert(table_run_rows(
        table_restore_next(s, event),
        events.skip(1),
        rows_after(s, event, rows),
    ) == rows_after(s, event, rows));
}

/// Inserting a batch can start with its first record as well as end with
/// its last.
pub proof fn lemma_restored_from_front(
    rows: Map<Seq<SqlValueView>, Row>,
    kind: TableKind,
    batch: Seq<Seq<ParamView>>,
)
    requires
        batch.len() > 0,
    ensures
        restored(rows, kind, batch) == restored(
            insert_or_ignore(rows, kind, batch[0]),
            kind,
            batch.skip(1),
        ),
    decreases batch.len(),
{
    let first = insert_or_ignore(rows, kind, batch[0]);
    let front = batch.drop_last();
    let back = batch.skip(1);
    if batch.len() == 1 {
        assert(restored(rows, kind, front) == rows);
        assert(restored(first, kind, back) == first);
    } else {
        lemma_restored_from_front(rows, kind, front);
        assert(back.drop_last() =~= front.skip(1));
        assert(back.last() == batch.last());
        assert(front[0] == batch[0]);
        assert(restored(first, kind, back) == insert_or_ignore(
            restored(first, kind, back.drop_last()),
            kind,
            back.last(),
        ));
    }
}

/// While the records are written, every answer moves on to the next
/// record, whatever the answer is; and where every record is accepted, the
/// rows are those of the batch inserted in order.
pub proof fn lemma_rows_stage(
    s: TableRestoreView,
    answers: Seq<Event>,
    rows: Map<Seq<SqlValueView>, Row>,
)
    requires
        s.stage == Stage::Rows,
        s.plan.rows.len() <= usize::MAX,
        s.next + answers.len() <= s.plan.rows.len(),
    ensures
        table_run(s, answers) == (TableRestoreView {
            next: (s.next + answers.len()) as usize,
            ..s
        }),
        (forall|i: int| 0 <= i < answers.len() ==> #[trigger] answers[i] is Done)
            ==> table_run_rows(s, answers, rows) == restored(
            rows,
            s.kind,
            s.plan.rows.subrange(s.next as int, s.next + answers.len()),
        ),
    decreases answers.len(),
{
    if answers.len() == 0 {
        assert(s.plan.rows.subrange(s.next as int, s.next as int).len() == 0);
    } else {
        let after = table_restore_next(s, answers[0]);
        let rest = answers.skip(1);
        lemma_rows_stage(after, rest, rows_after(s, answers[0], rows));
        if forall|i: int| 0 <= i < answers.len() ==> #[trigger] answers[i] is Done {
            assert(answers[0] is Done);
            assert forall|i: int| 0 <= i < rest.len() implies #[trigger] rest[i] is Done by {
                assert(rest[i] == answers[i + 1]);
            }
            let part = s.plan.rows.subrange(s.next as int, s.next + answers.len());
            lemma_restored_from_front(rows, s.kind, part);
            assert(part.skip(1) =~= s.plan.rows.subrange(
                after.next as int,
                after.next + rest.len(),
            ));
            assert(part[0] == s.plan.rows[s.next as int]);
        }
    }
}

/// A restore whose preparations go well hands every record of the entry to
/// the datastore, in order, and then ends with their count. This holds
/// whatever the datastore answers to the records: a refused record never
/// ends the restore, and it is counted like the others.
pub proof fn law_restore_attempts_every_record(
    kind: TableKind,
    flush: bool,
    connect_first: bool,
    batch: Batch,
    answers: Seq<Event>,
    i: int,
)
    requires
        batch_plan(kind, batch) is Ok,
        batch_plan(kind, batch)->Ok_0.rows.len() <= usize::MAX,
        answers.len() == batch_plan(kind, batch)->Ok_0.rows.len(),
        0 <= i < answers.len(),
    ensures
        ({
            let plan = batch_plan(kind, batch)->Ok_0;
            let start = table_restore_start(kind, flush, connect_first);
            let before = opening(flush, connect_first) + seq![Event::Records(batch), Event::Done];
            &&& table_restore_action(table_run(start, before + answers.take(i)))
                == ActionView::Insert { params: plan.rows[i] }
            &&& table_restore_action(table_run(start, before + answers)) == ActionView::Finish {
                result: Ok(plan.rows.len() as usize),
            }
        }),
{
    let plan = batch_plan(kind, batch)->Ok_0;
    let start = table_restore_start(kind, flush, connect_first);
    let before = opening(flush, connect_first) + seq![Event::Records(batch), Event::Done];
    let rows = Map::<Seq<SqlValueView>, Row>::empty();
    lemma_prepared(kind, flush, connect_first, batch, rows);
    let ready = table_run(start, before);
    lemma_table_run_split(start, before, answers.take(i), rows);
    lemma_table_run_split(start, before, answers, rows);
    lemma_rows_stage(ready, answers.take(i), rows);
    lemma_rows_stage(ready, answers, rows);
}

/// After the preparations of a run have gone well, the first record is
/// about to be written, and the rows are those from before the run, less
/// what a flush removed.
pub proof fn lemma_prepared(
    kind: TableKind,
    flush: bool,
    connect_first: bool,
    batch: Batch,
    rows: Map<Seq<SqlValueView>, Row>,
)
    requires
        batch_plan(kind, batch) is Ok,
    ensures
        ({
            let start = table_restore_start(kind, flush, connect_first);
            let before = opening(flush, connect_first) + seq![Event::Records(batch), Event::Done];
            &&& table_run(start, before) == (TableRestoreView {
                stage: Stage::Rows,
                plan: batch_plan(kind, batch)->Ok_0,
                next: 0,
                ..start
            })
            &&& table_run_rows(start, before, rows) == if flush {
                flushed(rows, kind)
            } else {
                rows
            }
        }),
{
    let start = table_restore_start(kind, flush, connect_first);
    let open = opening(flush, connect_first);
    let tail = seq![Event::Records(batch), Event::Done];
    lemma_table_run_split(start, open, tail, rows);
    // The opening, one answer at a time.
    let decode = TableRestoreView { stage: Stage::Decode, ..start };
    if !flush {
        lemma_table_run_one(start, Event::Done, rows);
    } else {
        let e0 = open[0];
        let e1 = open[1];
        let e2 = open[2];
        assert(open =~= seq![e0] + (seq![e1] + seq![e2]));
        let s1 = table_restore_next(start, e0);
        let s2 = table_restore_next(s1, e1);
        lemma_table_run_split(start, seq![e0], seq![e1] + seq![e2], rows);
        lemma_table_run_one(start, e0, rows);
        let r1 = rows_after(start, e0, rows);
        lemma_table_run_split(s1, seq![e1], seq![e2], r1);
        lemma_table_run_one(s1, e1, r1);
        let r2 = rows_after(s1, e1, r1);
        lemma_table_run_one(s2, e2, r2);
    }
    assert(table_run(start, open) == decode);
    let opened = table_run_rows(start, open, rows);
    // The decoding and the preparing of the statement.
    let records = Event::Records(batch);
    assert(tail =~= seq![records] + seq![Event::Done]);
    lemma_table_run_split(decode, seq![records], seq![Event::Done], opened);
    lemma_table_run_one(decode, records, opened);
    let prepare = table_restore_next(decode, records);
    lemma_table_run_one(prepare, Event::Done, opened);
}

/// Where the datastore accepts every record, a restore leaves the rows of
/// the model: those from before the run, less what a flush removed, with
/// the entry's records inserted in order.
pub proof fn law_restore_inserts_batch(
    kind: TableKind,
    flush: bool,
    connect_first: bool,
    batch: Batch,
    rows: Map<Seq<SqlValueView>, Row>,
)
    requires
        batch_plan(kind, batch) is Ok,
        batch_plan(kind, batch)->Ok_0.rows.len() <= usize::MAX,
    ensures
        table_run_rows(
            table_restore_start(kind, flush, connect_first),
            successful_run(kind, flush, connect_first, batch),
            rows,
        ) == restored(
            if flush {
                flushed(rows, kind)
            } else {
                rows
            },
            kind,
            batch_plan(kind, batch)->Ok_0.rows,
        ),
{
    let plan = batch_plan(kind, batch)->Ok_0;
    let start = table_restore_start(kind, flush, connect_first);
    let before = opening(flush, connect_first) + seq![Event::Records(batch), Event::Done];
    let answers = Seq::new(plan.rows.len(), |i: int| Event::Done);
    lemma_prepared(kind, flush, connect_first, batch, rows);
    lemma_table_run_split(start, before, answers, rows);
    lemma_rows_stage(table_run(start, before), answers, table_run_rows(start, before, rows));
    assert(plan.rows.subrange(0, plan.rows.len() as int) =~= plan.rows);
}

/// The answers of a run in which everything goes well and the datastore
/// accepts every record of `batch`.
pub open spec fn successful_run(
    kind: TableKind,
    flush: bool,
    connect_first: bool,
    batch: Batch,
) -> Seq<Event> {
    opening(flush, connect_first) + seq![Event::Records(batch), Event::Done] + Seq::new(
        batch_plan(kind, batch)->Ok_0.rows.len(),
        |i: int| Event::Done,
    )
}

/// Restoring an entry twice in a row, without a flush, leaves the same
/// rows as restoring it once.
pub proof fn law_second_restore_changes_nothing(
    kind: TableKind,
    connect_first: bool,
    batch: Batch,
    rows: Map<Seq<SqlValueView>, Row>,
)
    requires
        batch_plan(kind, batch) is Ok,
        batch_plan(kind, batch)->Ok_0.rows.len() <= usize::MAX,
    ensures
        ({
            let start = table_restore_start(kind, false, connect_first);
            let run = successful_run(kind, false, connect_first, batch);
            let once = table_run_rows(start, run, rows);
            table_run_rows(start, run, once) == once
        }),
{
    let plan = batch_plan(kind, batch)->Ok_0;
    law_restore_inserts_batch(kind, false, connect_first, batch, rows);
    let once = restored(rows, kind, plan.rows);
    law_restore_inserts_batch(kind, false, connect_first, batch, once);
    law_restore_is_idempotent(rows, kind, plan.rows);
}

/// A restore of one list of the domain-list table with a flush leaves
/// every row of another list as it was before the run.
pub proof fn law_flush_spares_other_lists(
    list: DomainType,
    batch: Batch,
    rows: Map<Seq<SqlValueView>, Row>,
    key: Seq<SqlValueView>,
)
    requires
        batch_plan(TableKind::DomainList(list), batch) is Ok,
        batch_plan(TableKind::DomainList(list), batch)->Ok_0.rows.len() <= usize::MAX,
        rows.dom().contains(key),
        rows[key].list != Some(list),
    ensures
        ({
            let kind = TableKind::DomainList(list);
            let after = table_run_rows(
                table_restore_start(kind, true, false),
                successful_run(kind, true, false, batch),
                rows,
            );
            after.dom().contains(key) && after[key] == rows[key]
        }),
{
    let kind = TableKind::DomainList(list);
    law_restore_inserts_batch(kind, true, false, batch, rows);
    law_flush_is_scoped(rows, list, key);
    law_restore_keeps_first_row(
        flushed(rows, kind),
        kind,
        batch_plan(kind, batch)->Ok_0.rows,
        key,
    );
}

} // verus!
