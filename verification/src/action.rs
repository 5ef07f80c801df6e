//! The protocol between the engine and its caller. The engine decides; the
//! caller does the outside work. A restore hands out one [`Action`] at a
//! time, the caller carries it out and reports what happened as an
//! [`Event`], and the restore moves on.

use crate::error::RestoreError;
use crate::records::{Batch, Param, ParamView};
use crate::tables::TableKind;
use vstd::prelude::*;

verus! {

/// What the caller is asked to do next.
#[derive(Debug, PartialEq, Eq)]
pub enum Action {
    /// Open the datastore. Answer: `Done` or `Failed`.
    OpenDatastore,
    /// Ask the schema catalog for `table`: run the query `sql` with `table`
    /// bound to its one placeholder. Answer: `Found`, or `Failed`.
    CheckTable { sql: String, table: String },
    /// Execute the statement `sql`, which takes no values. Answer: `Done`
    /// or `Failed`.
    Execute { sql: String },
    /// Decode the entry's content as an array of records for `kind`.
    /// Answer: `Records`, or `Failed`.
    Decode { kind: TableKind },
    /// Prepare the statement `sql`. Answer: `Done` or `Failed`.
    Prepare { sql: String },
    /// Execute the prepared statement with these bindings. Answer: `Done`
    /// or `Failed`.
    Insert { params: Vec<Param> },
    /// Cut the file at `path` down to nothing if it exists. Answer: `Done`
    /// or `Failed`.
    Truncate { path: String },
    /// Read the file at `path`. Answer: `Content`, or `Failed`.
    Read { path: String },
    /// Run the resolver's command with these arguments. Answer: `Done` or
    /// `Failed`.
    Run { args: Vec<String> },
    /// Nothing is left to do: the entry's restore ended with `result`.
    Finish { result: Result<usize, RestoreError> },
}

/// An action as the contracts see it.
pub enum ActionView {
    OpenDatastore,
    CheckTable { sql: Seq<char>, table: Seq<char> },
    Execute { sql: Seq<char> },
    Decode { kind: TableKind },
    Prepare { sql: Seq<char> },
    Insert { params: Seq<ParamView> },
    Truncate { path: Seq<char> },
    Read { path: Seq<char> },
    Run { args: Seq<Seq<char>> },
    Finish { result: Result<usize, RestoreError> },
}

impl DeepView for Action {
    type V = ActionView;

    open spec fn deep_view(&self) -> ActionView {
        match self {
            Action::OpenDatastore => ActionView::OpenDatastore,
            Action::CheckTable { sql, table } => ActionView::CheckTable {
                sql: sql@,
                table: table@,
            },
            Action::Execute { sql } => ActionView::Execute { sql: sql@ },
            Action::Decode { kind } => ActionView::Decode { kind: *kind },
            Action::Prepare { sql } => ActionView::Prepare { sql: sql@ },
            Action::Insert { params } => ActionView::Insert { params: params.deep_view() },
            Action::Truncate { path } => ActionView::Truncate { path: path@ },
            Action::Read { path } => ActionView::Read { path: path@ },
            Action::Run { args } => ActionView::Run { args: args.deep_view() },
            Action::Finish { result } => ActionView::Finish { result: *result },
        }
    }
}

/// What happened when the caller carried out an action.
#[derive(Debug, PartialEq, Eq)]
pub enum Event {
    /// The action was carried out.
    Done,
    /// The action could not be carried out.
    Failed,
    /// Whether the schema catalog lists the table.
    Found(bool),
    /// The text of the file, or `None` where there is no such file.
    Content(Option<String>),
    /// The decoded records.
    Records(Batch),
}

} // verus!
