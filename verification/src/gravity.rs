//! Restore of the datastore's tables: the list-type discriminant, the
//! flush of a table before it is restored, and the sequence of datastore
//! operations that restores one archive entry.

use crate::action::{Action, ActionView, Event};
use crate::error::RestoreError;
use crate::records::{
    copy_params, plan_of, AdList, AdListGroupAssignmentList, Batch, ClientGroupAssignmentList,
    ClientList, DomainAuditList, DomainList, DomainListGroupAssignmentList, GroupList,
    Restorable, RestorePlan, RestorePlanView,
};
use crate::tables::{
    code_text, kind_table, named_kind, table_kind, table_name, DomainType, TableKind,
};
use vstd::prelude::*;
use vstd::string::StringExecFns;

verus! {

/// The query that asks the schema catalog for a table; the table's name is
/// bound to its one placeholder.
pub const TABLE_EXISTS_SQL: &'static str =
    "SELECT name FROM sqlite_master WHERE type='table' AND name=?";

/// The condition as it is appended to a statement: a condition that is not
/// empty and does not begin with a space gets one space in front.
pub open spec fn spaced_condition(condition: Seq<char>) -> Seq<char> {
    if condition.len() > 0 && condition[0] != ' ' {
        seq![' '] + condition
    } else {
        condition
    }
}

/// The statement that deletes the rows of `table` which meet `condition`;
/// all rows where `condition` is empty.
pub open spec fn flush_text(table: Seq<char>, condition: Seq<char>) -> Seq<char> {
    "DELETE FROM \""@ + table + "\""@ + spaced_condition(condition)
}

/// The condition that confines a flush of the domain-list table to the
/// rows of one list type.
pub open spec fn list_condition(code: int) -> Seq<char> {
    "WHERE type = "@ + code_text(code)
}

/// The condition under which the rows of `kind` are flushed: the list type
/// for a domain list, none for the other tables.
pub open spec fn kind_condition(kind: TableKind) -> Seq<char> {
    match kind {
        TableKind::DomainList(t) => list_condition(t.code()),
        _ => Seq::empty(),
    }
}

/// Writes the statement that deletes the rows of `table` which meet
/// `condition`.
pub fn flush_statement(table: &str, condition: &str) -> (sql: String)
    ensures
        sql@ == flush_text(table@, condition@),
{
    let mut sql = String::from_str("DELETE FROM \"");
    sql.append(table);
    sql.append("\"");
    if !condition.is_empty() && condition.get_char(0) != ' ' {
        sql.append(" ");
        proof {
            reveal_strlit(" ");
            assert(" "@ =~= seq![' ']);
            assert(sql@ =~= "DELETE FROM \""@ + table@ + "\""@ + seq![' ']);
        }
    }
    sql.append(condition);
    assert(sql@ =~= flush_text(table@, condition@));
    sql
}

/// Writes the condition under which the rows of `kind` are flushed.
pub fn flush_condition(kind: TableKind) -> (condition: String)
    ensures
        condition@ == kind_condition(kind),
{
    match kind {
        TableKind::DomainList(t) => {
            let mut condition = String::from_str("WHERE type = ");
            condition.append(t.digit());
            condition
        },
        _ => String::new(),
    }
}

/// The two statements of a flush.
#[derive(Debug, PartialEq, Eq)]
pub struct FlushPlan {
    /// The catalog query; `table` is bound to its placeholder.
    pub check: String,
    pub table: String,
    /// The delete, to be executed only where the catalog lists the table.
    pub delete: String,
}

/// Plans the flush of `table`, confined to the rows that meet `condition`.
pub fn flush_table(table: &str, condition: &str) -> (plan: FlushPlan)
    ensures
        plan.check@ == TABLE_EXISTS_SQL@,
        plan.table@ == table@,
        plan.delete@ == flush_text(table@, condition@),
{
    FlushPlan {
        check: String::from_str(TABLE_EXISTS_SQL),
        table: String::from_str(table),
        delete: flush_statement(table, condition),
    }
}

/// What a flush comes to once the catalog has answered: the delete goes
/// ahead where the table exists, and the flush fails where it does not.
pub fn flush_outcome(table_found: bool) -> (outcome: Result<(), RestoreError>)
    ensures
        outcome == if table_found {
            Ok::<(), RestoreError>(())
        } else {
            Err::<(), RestoreError>(RestoreError::TableMissing)
        },
{
    if table_found {
        Ok(())
    } else {
        Err(RestoreError::TableMissing)
    }
}

/// The plan that restores `batch` into the table of `kind`. A batch of
/// another kind than the table's is malformed.
pub open spec fn batch_plan(kind: TableKind, batch: Batch) -> Result<
    RestorePlanView,
    RestoreError,
> {
    match (kind, batch) {
        (TableKind::DomainList(t), Batch::Domains(list)) => plan_of(
            &DomainList { domain_type: t.code() as i32, list },
        ),
        (TableKind::AdList, Batch::Ads(list)) => plan_of(&AdList { list }),
        (TableKind::DomainAudit, Batch::Audits(list)) => plan_of(&DomainAuditList { list }),
        (TableKind::Group, Batch::Groups(list)) => plan_of(&GroupList { list }),
        (TableKind::Client, Batch::Clients(list)) => plan_of(&ClientList { list }),
        (TableKind::ClientByGroup, Batch::ClientGroups(list)) => plan_of(
            &ClientGroupAssignmentList { list },
        ),
        (TableKind::DomainListByGroup, Batch::DomainListGroups(list)) => plan_of(
            &DomainListGroupAssignmentList { list },
        ),
        (TableKind::AdListByGroup, Batch::AdListGroups(list)) => plan_of(
            &AdListGroupAssignmentList { list },
        ),
        _ => Err(RestoreError::MalformedBatch),
    }
}

/// Plans the restore of `batch` into the table of `kind`.
pub fn plan_batch(kind: TableKind, batch: Batch) -> (plan: Result<RestorePlan, RestoreError>)
    ensures
        match batch_plan(kind, batch) {
            Ok(view) => plan is Ok && plan->Ok_0.deep_view() == view,
            Err(e) => plan == Err::<RestorePlan, RestoreError>(e),
        },
{
    match (kind, batch) {
        (TableKind::DomainList(t), Batch::Domains(list)) => {
            (DomainList { domain_type: t.discriminant(), list }).restore_table()
        },
        (TableKind::AdList, Batch::Ads(list)) => (AdList { list }).restore_table(),
        (TableKind::DomainAudit, Batch::Audits(list)) => (DomainAuditList {
            list,
        }).restore_table(),
        (TableKind::Group, Batch::Groups(list)) => (GroupList { list }).restore_table(),
        (TableKind::Client, Batch::Clients(list)) => (ClientList { list }).restore_table(),
        (TableKind::ClientByGroup, Batch::ClientGroups(list)) => (ClientGroupAssignmentList {
            list,
        }).restore_table(),
        (TableKind::DomainListByGroup, Batch::DomainListGroups(list)) => (
        DomainListGroupAssignmentList { list }).restore_table(),
        (TableKind::AdListByGroup, Batch::AdListGroups(list)) => (AdListGroupAssignmentList {
            list,
        }).restore_table(),
        _ => Err(RestoreError::MalformedBatch),
    }
}

/// Where the restore of a table stands.
#[derive(Clone, Copy, Debug, PartialEq, Eq, Structural)]
pub enum Stage {
    /// The datastore is to be opened.
    Open,
    /// The catalog is to be asked for the table that is to be flushed.
    CheckTable,
    /// The rows to be flushed are to be deleted.
    Delete,
    /// The entry's content is to be decoded.
    Decode,
    /// The insert-or-ignore statement is to be prepared.
    Prepare,
    /// The records are written one by one; the restore has ended with their
    /// count once none is left.
    Rows,
    /// The restore was given up.
    Failed(RestoreError),
}

/// The restore of one table from one archive entry.
///
/// With a flush, the rows that the entry replaces are deleted before any
/// record is written; the flush fails where the table does not exist. The
/// statement is prepared once and executed once per record, in the order
/// of the entry. A record that the datastore refuses does not end the
/// restore: the next record is still written, and the count that the
/// restore ends with is the number of records handed to the datastore,
/// refused ones included.
#[derive(Debug, PartialEq, Eq)]
pub struct TableRestore {
    pub kind: TableKind,
    pub flush: bool,
    /// Whether the datastore is opened before the flush, or after it.
    pub connect_first: bool,
    pub stage: Stage,
    /// What the decoded records send to the datastore; empty until then.
    pub plan: RestorePlan,
    /// Index of the record that is written next.
    pub next: usize,
}

/// A table restore as the contracts see it.
pub struct TableRestoreView {
    pub kind: TableKind,
    pub flush: bool,
    pub connect_first: bool,
    pub stage: Stage,
    pub plan: RestorePlanView,
    pub next: usize,
}

impl DeepView for TableRestore {
    type V = TableRestoreView;

    open spec fn deep_view(&self) -> TableRestoreView {
        TableRestoreView {
            kind: self.kind,
            flush: self.flush,
            connect_first: self.connect_first,
            stage: self.stage,
            plan: self.plan.deep_view(),
            next: self.next,
        }
    }
}

/// The restore of `kind` before anything has been done.
pub open spec fn table_restore_start(
    kind: TableKind,
    flush: bool,
    connect_first: bool,
) -> TableRestoreView {
    TableRestoreView {
        kind,
        flush,
        connect_first,
        stage: if flush && !connect_first {
            Stage::CheckTable
        } else {
            Stage::Open
        },
        plan: RestorePlanView { statement: Seq::empty(), rows: Seq::empty() },
        next: 0,
    }
}

/// What the caller is asked to do in state `s`.
pub open spec fn table_restore_action(s: TableRestoreView) -> ActionView {
    match s.stage {
        Stage::Open => ActionView::OpenDatastore,
        Stage::CheckTable => ActionView::CheckTable {
            sql: TABLE_EXISTS_SQL@,
            table: kind_table(s.kind),
        },
        Stage::Delete => ActionView::Execute {
            sql: flush_text(kind_table(s.kind), kind_condition(s.kind)),
        },
        Stage::Decode => ActionView::Decode { kind: s.kind },
        Stage::Prepare => ActionView::Prepare { sql: s.plan.statement },
        Stage::Rows => if s.next < s.plan.rows.len() {
            ActionView::Insert { params: s.plan.rows[s.next as int] }
        } else {
            ActionView::Finish { result: Ok(s.plan.rows.len() as usize) }
        },
        Stage::Failed(e) => ActionView::Finish { result: Err(e) },
    }
}

/// The state after the caller has answered the action of state `s` with
/// `event`.
pub open spec fn table_restore_next(s: TableRestoreView, event: Event) -> TableRestoreView {
    match s.stage {
        Stage::Open => if event is Done {
            TableRestoreView {
                stage: if s.flush && s.connect_first {
                    Stage::CheckTable
                } else {
                    Stage::Decode
                },
                ..s
            }
        } else {
            TableRestoreView { stage: Stage::Failed(RestoreError::Datastore), ..s }
        },
        Stage::CheckTable => match event {
            Event::Found(true) => TableRestoreView { stage: Stage::Delete, ..s },
            Event::Found(false) => TableRestoreView {
                stage: Stage::Failed(RestoreError::TableMissing),
                ..s
            },
            _ => TableRestoreView { stage: Stage::Failed(RestoreError::Datastore), ..s },
        },
        Stage::Delete => if event is Done {
            TableRestoreView {
                stage: if s.connect_first {
                    Stage::Decode
                } else {
                    Stage::Open
                },
                ..s
            }
        } else {
            TableRestoreView { stage: Stage::Failed(RestoreError::Datastore), ..s }
        },
        Stage::Decode => match event {
            Event::Records(batch) => match batch_plan(s.kind, batch) {
                Ok(plan) => TableRestoreView { stage: Stage::Prepare, plan, next: 0, ..s },
                Err(e) => TableRestoreView { stage: Stage::Failed(e), ..s },
            },
            _ => TableRestoreView { stage: Stage::Failed(RestoreError::MalformedBatch), ..s },
        },
        Stage::Prepare => if event is Done {
            TableRestoreView { stage: Stage::Rows, next: 0, ..s }
        } else {
            TableRestoreView { stage: Stage::Failed(RestoreError::Datastore), ..s }
        },
        Stage::Rows => if s.next < s.plan.rows.len() {
            TableRestoreView { next: (s.next + 1) as usize, ..s }
        } else {
            s
        },
        Stage::Failed(_) => s,
    }
}

/// The restore of `kind` before anything has been done.
pub(crate) fn new_restore(kind: TableKind, flush: bool, connect_first: bool) -> (restore: TableRestore)
    ensures
        restore.deep_view() == table_restore_start(kind, flush, connect_first),
{
    let restore = TableRestore {
        kind,
        flush,
        connect_first,
        stage: if flush && !connect_first {
            Stage::CheckTable
        } else {
            Stage::Open
        },
        plan: RestorePlan { statement: String::new(), rows: Vec::new() },
        next: 0,
    };
    assert(restore.plan.rows.deep_view() =~= Seq::empty());
    restore
}

/// Starts the restore of one list of the domain-list table. A flush is
/// confined to the rows of that list and comes before the datastore is
/// opened for the records.
pub fn restore_domainlist(domain_type: DomainType, flush: bool) -> (restore: TableRestore)
    ensures
        restore.deep_view() == table_restore_start(
            TableKind::DomainList(domain_type),
            flush,
            false,
        ),
{
    new_restore(TableKind::DomainList(domain_type), flush, false)
}

/// Starts the restore of the table called `table`; `InvalidTable` where the
/// name is none of the tables that are restored by name. The datastore is
/// opened first, and a flush empties the whole table.
pub fn load_table(table: &str, flush: bool) -> (restore: Result<TableRestore, RestoreError>)
    ensures
        match named_kind(table@) {
            Some(kind) => restore is Ok && restore->Ok_0.deep_view() == table_restore_start(
                kind,
                flush,
                true,
            ),
            None => restore == Err::<TableRestore, RestoreError>(RestoreError::InvalidTable),
        },
{
    match table_kind(table) {
        Some(kind) => Ok(new_restore(kind, flush, true)),
        None => Err(RestoreError::InvalidTable),
    }
}

impl TableRestore {
    /// What the caller is asked to do now.
    pub fn action(&self) -> (action: Action)
        ensures
            action.deep_view() == table_restore_action(self.deep_view()),
    {
        match self.stage {
            Stage::Open => Action::OpenDatastore,
            Stage::CheckTable => {
                let plan = flush_table(table_name(self.kind), "");
                Action::CheckTable { sql: plan.check, table: plan.table }
            },
            Stage::Delete => {
                let condition = flush_condition(self.kind);
                Action::Execute {
                    sql: flush_statement(table_name(self.kind), condition.as_str()),
                }
            },
            Stage::Decode => Action::Decode { kind: self.kind },
            Stage::Prepare => Action::Prepare { sql: self.plan.statement.clone() },
            Stage::Rows => {
                if self.next < self.plan.rows.len() {
                    Action::Insert { params: copy_params(&self.plan.rows[self.next]) }
                } else {
                    Action::Finish { result: Ok(self.plan.rows.len()) }
                }
            },
            Stage::Failed(e) => Action::Finish { result: Err(e) },
        }
    }

    /// Takes the caller's answer to the current action and moves on.
    pub fn advance(&mut self, event: Event)
        ensures
            final(self).deep_view() == table_restore_next(old(self).deep_view(), event),
    {
        match self.stage {
            Stage::Open => {
                self.stage = match event {
                    Event::Done => if self.flush && self.connect_first {
                        Stage::CheckTable
                    } else {
                        Stage::Decode
                    },
                    _ => Stage::Failed(RestoreError::Datastore),
                };
            },
            Stage::CheckTable => {
                self.stage = match event {
                    Event::Found(found) => match flush_outcome(found) {
                        Ok(_) => Stage::Delete,
                        Err(e) => Stage::Failed(e),
                    },
                    _ => Stage::Failed(RestoreError::Datastore),
                };
            },
            Stage::Delete => {
                self.stage = match event {
                    Event::Done => if self.connect_first {
                        Stage::Decode
                    } else {
                        Stage::Open
                    },
                    _ => Stage::Failed(RestoreError::Datastore),
                };
            },
            Stage::Decode => {
                match event {
                    Event::Records(batch) => match plan_batch(self.kind, batch) {
                        Ok(plan) => {
                            self.plan = plan;
                            self.next = 0;
                            self.stage = Stage::Prepare;
                        },
                        Err(e) => {
                            self.stage = Stage::Failed(e);
                        },
                    },
                    _ => {
                        self.stage = Stage::Failed(RestoreError::MalformedBatch);
                    },
                }
            },
            Stage::Prepare => {
                match event {
                    Event::Done => {
                        self.next = 0;
                        self.stage = Stage::Rows;
                    },
                    _ => {
                        self.stage = Stage::Failed(RestoreError::Datastore);
                    },
                }
            },
            Stage::Rows => {
                if self.next < self.plan.rows.len() {
                    self.next = self.next + 1;
                }
            },
            Stage::Failed(_) => {},
        }
    }
}

} // verus!
