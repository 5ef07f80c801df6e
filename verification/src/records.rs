//! Record kinds of the datastore and what each one sends to it: the table,
//! the insert-or-ignore statement, and the values bound for one record.
//!
//! A statement is written from the names of its columns, and so are the
//! names under which a record's values are bound: every placeholder of a
//! statement has its binding, under its name and in its place.

use crate::error::RestoreError;
use crate::tables::{code_text, is_list_code, DomainType};
use crate::text::same_text;
use vstd::prelude::*;
use vstd::string::StringExecFns;

verus! {

/// A value bound to a placeholder of a statement.
#[derive(Debug, PartialEq, Eq)]
pub enum SqlValue {
    Integer(i64),
    Text(String),
}

/// A bound value as the contracts see it.
pub enum SqlValueView {
    Integer(int),
    Text(Seq<char>),
}

impl DeepView for SqlValue {
    type V = SqlValueView;

    open spec fn deep_view(&self) -> SqlValueView {
        match self {
            SqlValue::Integer(i) => SqlValueView::Integer(*i as int),
            SqlValue::Text(s) => SqlValueView::Text(s@),
        }
    }
}

/// One named placeholder together with the value bound to it.
#[derive(Debug, PartialEq, Eq)]
pub struct Param {
    pub name: String,
    pub value: SqlValue,
}

/// A binding as the contracts see it.
pub struct ParamView {
    pub name: Seq<char>,
    pub value: SqlValueView,
}

impl DeepView for Param {
    type V = ParamView;

    open spec fn deep_view(&self) -> ParamView {
        ParamView { name: self.name@, value: self.value.deep_view() }
    }
}

/// The placeholder that stands for the value of `column` in a statement,
/// and the name under which that value is bound: a colon and the column's
/// name.
pub open spec fn placeholder(column: Seq<char>) -> Seq<char> {
    seq![':'] + column
}

/// The placeholders of `columns`, in order.
pub open spec fn placeholders(columns: Seq<Seq<char>>) -> Seq<Seq<char>> {
    Seq::new(columns.len(), |i: int| placeholder(columns[i]))
}

/// The bindings of `values` to the placeholders of `columns`, one by one
/// and in order.
pub open spec fn bindings(columns: Seq<Seq<char>>, values: Seq<SqlValueView>) -> Seq<ParamView> {
    Seq::new(columns.len(), |i: int| ParamView { name: placeholder(columns[i]), value: values[i] })
}

/// The texts of `items` with a comma between neighbours.
pub open spec fn comma_list(items: Seq<Seq<char>>) -> Seq<char>
    decreases items.len(),
{
    if items.len() == 0 {
        Seq::empty()
    } else if items.len() == 1 {
        items[0]
    } else {
        comma_list(items.drop_last()) + seq![','] + items.last()
    }
}

/// How a statement refers to `table`: by its name, in double quotes where
/// the name is the keyword `group`.
pub open spec fn table_reference(table: Seq<char>) -> Seq<char> {
    if table == "group"@ {
        "\"group\""@
    } else {
        table
    }
}

/// The columns that a statement names: those of `columns`, and after them
/// the fixed column where there is one.
pub open spec fn named_columns(
    columns: Seq<Seq<char>>,
    fixed: Option<(Seq<char>, Seq<char>)>,
) -> Seq<Seq<char>> {
    match fixed {
        Some((column, _)) => columns.push(column),
        None => columns,
    }
}

/// What a statement gives for its columns: a placeholder for each of
/// `columns`, and after them the value of the fixed column as it stands.
pub open spec fn given_values(
    columns: Seq<Seq<char>>,
    fixed: Option<(Seq<char>, Seq<char>)>,
) -> Seq<Seq<char>> {
    match fixed {
        Some((_, value)) => placeholders(columns).push(value),
        None => placeholders(columns),
    }
}

/// The statement that inserts one row into `table` unless a row with its
/// key is there already. The row's values for `columns` are bound to
/// placeholders; `fixed` is a column whose value is part of the text.
pub open spec fn insert_text(
    table: Seq<char>,
    columns: Seq<Seq<char>>,
    fixed: Option<(Seq<char>, Seq<char>)>,
) -> Seq<char> {
    "INSERT OR IGNORE INTO "@ + table_reference(table) + " ("@ + comma_list(
        named_columns(columns, fixed),
    ) + ") VALUES ("@ + comma_list(given_values(columns, fixed)) + ");"@
}

/// Joins `items` with commas.
pub fn join_with_commas(items: &Vec<String>) -> (list: String)
    ensures
        list@ == comma_list(items.deep_view()),
{
    let mut list = String::new();
    let mut i: usize = 0;
    assert(items.deep_view().take(0).len() == 0);
    while i < items.len()
        invariant
            i <= items.len(),
            list@ == comma_list(items.deep_view().take(i as int)),
        decreases items.len() - i,
    {
        if i > 0 {
            list.push(',');
        }
        list.append(items[i].as_str());
        proof {
            let upto = items.deep_view().take(i + 1);
            assert(upto.drop_last() =~= items.deep_view().take(i as int));
            assert(upto.last() == items@[i as int]@);
            if i == 0 {
                assert(list@ =~= items@[0]@);
                assert(upto[0] == items@[0]@);
            }
        }
        i += 1;
    }
    assert(items.deep_view().take(items.len() as int) =~= items.deep_view());
    list
}

/// Writes the placeholder of `column`.
pub fn placeholder_of(column: &str) -> (name: String)
    ensures
        name@ == placeholder(column@),
{
    let mut name = String::new();
    name.push(':');
    name.append(column);
    assert(name@ =~= placeholder(column@));
    name
}

/// Writes the insert-or-ignore statement for `table` and `columns`, with
/// the column `fixed.0` set to the text `fixed.1` where `fixed` is given.
pub fn insert_statement(
    table: &str,
    columns: &Vec<&'static str>,
    fixed: Option<(&'static str, &'static str)>,
) -> (sql: String)
    ensures
        sql@ == insert_text(
            table@,
            columns.deep_view(),
            match fixed {
                Some((column, value)) => Some((column@, value@)),
                None => None,
            },
        ),
{
    let ghost fixed_view: Option<(Seq<char>, Seq<char>)> = match fixed {
        Some((column, value)) => Some((column@, value@)),
        None => None,
    };
    let mut names: Vec<String> = Vec::new();
    let mut values: Vec<String> = Vec::new();
    let mut i: usize = 0;
    while i < columns.len()
        invariant
            i <= columns.len(),
            names.len() == i,
            values.len() == i,
            forall|j: int| 0 <= j < i ==> names@[j]@ == columns@[j]@,
            forall|j: int| 0 <= j < i ==> values@[j]@ == placeholder(columns@[j]@),
        decreases columns.len() - i,
    {
        names.push(String::from_str(columns[i]));
        values.push(placeholder_of(columns[i]));
        i += 1;
    }
    assert(names.deep_view() =~= columns.deep_view());
    assert(values.deep_view() =~= placeholders(columns.deep_view()));
    match fixed {
        Some((column, value)) => {
            names.push(String::from_str(column));
            values.push(String::from_str(value));
        },
        None => {},
    }
    assert(names.deep_view() =~= named_columns(columns.deep_view(), fixed_view));
    assert(values.deep_view() =~= given_values(columns.deep_view(), fixed_view));
    let mut sql = String::from_str("INSERT OR IGNORE INTO ");
    if same_text(table, "group") {
        sql.append("\"group\"");
    } else {
        sql.append(table);
    }
    sql.append(" (");
    sql.append(join_with_commas(&names).as_str());
    sql.append(") VALUES (");
    sql.append(join_with_commas(&values).as_str());
    sql.append(");");
    sql
}

fn bind_int(column: &'static str, value: i64) -> (p: Param)
    ensures
        p.deep_view() == (ParamView {
            name: placeholder(column@),
            value: SqlValueView::Integer(value as int),
        }),
{
    Param { name: placeholder_of(column), value: SqlValue::Integer(value) }
}

fn bind_text(column: &'static str, value: &String) -> (p: Param)
    ensures
        p.deep_view() == (ParamView {
            name: placeholder(column@),
            value: SqlValueView::Text(value@),
        }),
{
    Param { name: placeholder_of(column), value: SqlValue::Text(value.clone()) }
}

/// A copy of `params`.
pub fn copy_params(params: &Vec<Param>) -> (out: Vec<Param>)
    ensures
        out.deep_view() == params.deep_view(),
{
    let mut out: Vec<Param> = Vec::new();
    let mut i: usize = 0;
    while i < params.len()
        invariant
            i <= params.len(),
            out.len() == i,
            forall|j: int| 0 <= j < i ==> out@[j].deep_view() == params@[j].deep_view(),
        decreases params.len() - i,
    {
        let value = match &params[i].value {
            SqlValue::Integer(n) => SqlValue::Integer(*n),
            SqlValue::Text(s) => SqlValue::Text(s.clone()),
        };
        out.push(Param { name: params[i].name.clone(), value });
        i += 1;
    }
    assert(out.deep_view() =~= params.deep_view());
    out
}

/// What a restore sends to the datastore: one statement, prepared once, and
/// the bindings of each record in the order of the batch.
#[derive(Debug, PartialEq, Eq)]
pub struct RestorePlan {
    pub statement: String,
    pub rows: Vec<Vec<Param>>,
}

/// A restore plan as the contracts see it.
pub struct RestorePlanView {
    pub statement: Seq<char>,
    pub rows: Seq<Seq<ParamView>>,
}

impl DeepView for RestorePlan {
    type V = RestorePlanView;

    open spec fn deep_view(&self) -> RestorePlanView {
        RestorePlanView { statement: self.statement@, rows: self.rows.deep_view() }
    }
}

/// A batch of records of one kind that can be written to its table.
///
/// The statement of a batch and the bindings of its records are both
/// settled by the batch's columns: the statement has one placeholder per
/// column, and a record binds one value under the name of each.
pub trait Restorable {
    type ListType;

    /// Name of the table that holds the records.
    spec fn table_name(&self) -> Seq<char>;

    /// The records of the batch, in order.
    spec fn records(&self) -> Seq<Self::ListType>;

    /// The columns that take their value from a record, in the order of the
    /// statement.
    spec fn columns(&self) -> Seq<Seq<char>>;

    /// A column that has one value for the whole batch, with that value as
    /// it stands in the statement; or the reason for which the batch has no
    /// statement and cannot be written.
    spec fn fixed_column(&self) -> Result<Option<(Seq<char>, Seq<char>)>, RestoreError>;

    /// The values of record `idx`, in the order of the columns.
    spec fn values(&self, idx: int) -> Seq<SqlValueView>;

    /// A record has one value for each column.
    proof fn lemma_one_value_per_column(&self, idx: int)
        requires
            0 <= idx < self.records().len(),
        ensures
            self.values(idx).len() == self.columns().len(),
    ;

    /// Name of the table that holds the records.
    fn get_table_name(&self) -> (name: &'static str)
        ensures
            name@ == self.table_name(),
    ;

    /// The records of the batch, in order.
    fn get_list(&self) -> (list: &Vec<Self::ListType>)
        ensures
            list@ == self.records(),
    ;

    /// The insert-or-ignore statement for this batch, or the reason for
    /// which the batch cannot be written.
    fn get_store_statement(&self) -> (sql: Result<String, RestoreError>)
        ensures
            match sql {
                Ok(text) => self.fixed_column() is Ok && text@ == insert_text(
                    self.table_name(),
                    self.columns(),
                    self.fixed_column()->Ok_0,
                ),
                Err(e) => self.fixed_column() == Err::<Option<(Seq<char>, Seq<char>)>, RestoreError>(
                    e,
                ),
            },
    ;

    /// The bindings of record `idx`: its values under the placeholders of
    /// the columns. `NoSuchRecord` exactly when the batch has no such
    /// record.
    fn get_store_parameters(&self, idx: usize) -> (params: Result<Vec<Param>, RestoreError>)
        ensures
            idx < self.records().len() ==> params is Ok && params->Ok_0.deep_view() == bindings(
                self.columns(),
                self.values(idx as int),
            ),
            idx >= self.records().len() ==> params == Err::<Vec<Param>, RestoreError>(
                RestoreError::NoSuchRecord,
            ),
    ;

    /// The statement and the bindings of every record, in the order of the
    /// batch. Fails exactly when the batch has no statement, with the reason
    /// for that.
    fn restore_table(&self) -> (plan: Result<RestorePlan, RestoreError>)
        ensures
            match self.fixed_column() {
                Ok(fixed) => plan is Ok && plan->Ok_0.deep_view() == (RestorePlanView {
                    statement: insert_text(self.table_name(), self.columns(), fixed),
                    rows: Seq::new(
                        self.records().len(),
                        |i: int| bindings(self.columns(), self.values(i)),
                    ),
                }),
                Err(e) => plan == Err::<RestorePlan, RestoreError>(e),
            },
    {
        let statement = match self.get_store_statement() {
            Ok(sql) => sql,
            Err(e) => {
                return Err(e);
            },
        };
        let n: usize = self.get_list().len();
        let mut rows: Vec<Vec<Param>> = Vec::new();
        let mut idx: usize = 0;
        while idx < n
            invariant
                idx <= n,
                n == self.records().len(),
                rows.deep_view() == Seq::new(
                    idx as nat,
                    |i: int| bindings(self.columns(), self.values(i)),
                ),
            decreases n - idx,
        {
            match self.get_store_parameters(idx) {
                Ok(params) => {
                    let ghost before = rows.deep_view();
                    rows.push(params);
                    assert(rows.deep_view() =~= before.push(params.deep_view()));
                    assert(rows.deep_view() =~= Seq::new(
                        (idx + 1) as nat,
                        |i: int| bindings(self.columns(), self.values(i)),
                    ));
                },
                Err(e) => {
                    return Err(e);
                },
            }
            idx += 1;
        }
        Ok(RestorePlan { statement, rows })
    }
}

/// What restoring `batch` sends to the datastore: its statement, and the
/// bindings of each of its records in order. A batch without a statement
/// sends nothing.
pub open spec fn plan_of<R: Restorable + ?Sized>(batch: &R) -> Result<
    RestorePlanView,
    RestoreError,
> {
    match batch.fixed_column() {
        Ok(fixed) => Ok(
            RestorePlanView {
                statement: insert_text(batch.table_name(), batch.columns(), fixed),
                rows: Seq::new(
                    batch.records().len(),
                    |i: int| bindings(batch.columns(), batch.values(i)),
                ),
            },
        ),
        Err(e) => Err(e),
    }
}

/// A domain entry. Its list type is not part of the record.
#[derive(Debug, PartialEq, Eq)]
pub struct Domain {
    pub id: i32,
    pub domain: String,
    pub enabled: i32,
    pub date_added: i64,
    pub comment: String,
}

/// A batch of domain entries, all of the list type `domain_type`.
#[derive(Debug, PartialEq, Eq)]
pub struct DomainList {
    pub domain_type: i32,
    pub list: Vec<Domain>,
}

/// The columns that a record of this kind fills, in the order of the
/// statement.
pub open spec fn domain_column_names() -> Seq<Seq<char>> {
    seq!["id"@, "domain"@, "enabled"@, "date_added"@, "comment"@]
}

/// The values of one record, in the order of its columns.
pub open spec fn domain_values(r: Domain) -> Seq<SqlValueView> {
    seq![
        SqlValueView::Integer(r.id as int),
        SqlValueView::Text(r.domain@),
        SqlValueView::Integer(r.enabled as int),
        SqlValueView::Integer(r.date_added as int),
        SqlValueView::Text(r.comment@),
    ]
}

fn domain_columns() -> (columns: Vec<&'static str>)
    ensures
        columns.deep_view() == domain_column_names(),
{
    let mut columns: Vec<&'static str> = Vec::new();
    columns.push("id");
    columns.push("domain");
    columns.push("enabled");
    columns.push("date_added");
    columns.push("comment");
    assert(columns.deep_view() =~= domain_column_names());
    columns
}

impl Restorable for DomainList {
    type ListType = Domain;

    open spec fn table_name(&self) -> Seq<char> {
        "domainlist"@
    }

    open spec fn records(&self) -> Seq<Domain> {
        self.list@
    }

    open spec fn columns(&self) -> Seq<Seq<char>> {
        domain_column_names()
    }

    /// The list type stands in the statement itself. A batch whose
    /// discriminant is none of the four list types has no statement:
    /// nothing is written under a made-up type.
    open spec fn fixed_column(&self) -> Result<Option<(Seq<char>, Seq<char>)>, RestoreError> {
        if is_list_code(self.domain_type as int) {
            Ok(Some(("type"@, code_text(self.domain_type as int))))
        } else {
            Err(RestoreError::InvalidDomainType)
        }
    }

    open spec fn values(&self, idx: int) -> Seq<SqlValueView> {
        domain_values(self.list@[idx])
    }

    proof fn lemma_one_value_per_column(&self, idx: int) {
    }

    fn get_table_name(&self) -> (name: &'static str) {
        "domainlist"
    }

    fn get_list(&self) -> (list: &Vec<Domain>) {
        &self.list
    }

    fn get_store_statement(&self) -> (sql: Result<String, RestoreError>) {
        match DomainType::from_code(self.domain_type) {
            Some(list) => Ok(
                insert_statement("domainlist", &domain_columns(), Some(("type", list.digit()))),
            ),
            None => Err(RestoreError::InvalidDomainType),
        }
    }

    fn get_store_parameters(&self, idx: usize) -> (params: Result<Vec<Param>, RestoreError>) {
        if idx >= self.list.len() {
            return Err(RestoreError::NoSuchRecord);
        }
        let record = &self.list[idx];
        let mut params: Vec<Param> = Vec::new();
        params.push(bind_int("id", record.id as i64));
        params.push(bind_text("domain", &record.domain));
        params.push(bind_int("enabled", record.enabled as i64));
        params.push(bind_int("date_added", record.date_added));
        params.push(bind_text("comment", &record.comment));
        assert(params.deep_view() =~= bindings(domain_column_names(), domain_values(*record)));
        Ok(params)
    }
}

/// An ad-source entry.
#[derive(Debug, PartialEq, Eq)]
pub struct Ad {
    pub id: i32,
    pub address: String,
    pub enabled: i32,
    pub date_added: i64,
    pub comment: String,
}

/// A batch of ad-source entries.
#[derive(Debug, PartialEq, Eq)]
pub struct AdList {
    pub list: Vec<Ad>,
}

/// The columns that a record of this kind fills, in the order of the
/// statement.
pub open spec fn ad_column_names() -> Seq<Seq<char>> {
    seq!["id"@, "address"@, "enabled"@, "date_added"@, "comment"@]
}

/// The values of one record, in the order of its columns.
pub open spec fn ad_values(r: Ad) -> Seq<SqlValueView> {
    seq![
        SqlValueView::Integer(r.id as int),
        SqlValueView::Text(r.address@),
        SqlValueView::Integer(r.enabled as int),
        SqlValueView::Integer(r.date_added as int),
        SqlValueView::Text(r.comment@),
    ]
}

fn ad_columns() -> (columns: Vec<&'static str>)
    ensures
        columns.deep_view() == ad_column_names(),
{
    let mut columns: Vec<&'static str> = Vec::new();
    columns.push("id");
    columns.push("address");
    columns.push("enabled");
    columns.push("date_added");
    columns.push("comment");
    assert(columns.deep_view() =~= ad_column_names());
    columns
}

impl Restorable for AdList {
    type ListType = Ad;

    open spec fn table_name(&self) -> Seq<char> {
        "adlist"@
    }

    open spec fn records(&self) -> Seq<Ad> {
        self.list@
    }

    open spec fn columns(&self) -> Seq<Seq<char>> {
        ad_column_names()
    }

    open spec fn fixed_column(&self) -> Result<Option<(Seq<char>, Seq<char>)>, RestoreError> {
        Ok(None)
    }

    open spec fn values(&self, idx: int) -> Seq<SqlValueView> {
        ad_values(self.list@[idx])
    }

    proof fn lemma_one_value_per_column(&self, idx: int) {
    }

    fn get_table_name(&self) -> (name: &'static str) {
        "adlist"
    }

    fn get_list(&self) -> (list: &Vec<Ad>) {
        &self.list
    }

    fn get_store_statement(&self) -> (sql: Result<String, RestoreError>) {
        Ok(insert_statement("adlist", &ad_columns(), None))
    }

    fn get_store_parameters(&self, idx: usize) -> (params: Result<Vec<Param>, RestoreError>) {
        if idx >= self.list.len() {
            return Err(RestoreError::NoSuchRecord);
        }
        let record = &self.list[idx];
        let mut params: Vec<Param> = Vec::new();
        params.push(bind_int("id", record.id as i64));
        params.push(bind_text("address", &record.address));
        params.push(bind_int("enabled", record.enabled as i64));
        params.push(bind_int("date_added", record.date_added));
        params.push(bind_text("comment", &record.comment));
        assert(params.deep_view() =~= bindings(ad_column_names(), ad_values(*record)));
        Ok(params)
    }
}

/// An audit entry.
#[derive(Debug, PartialEq, Eq)]
pub struct DomainAuditEntry {
    pub id: i32,
    pub domain: String,
    pub date_added: i64,
}

/// A batch of audit entries.
#[derive(Debug, PartialEq, Eq)]
pub struct DomainAuditList {
    pub list: Vec<DomainAuditEntry>,
}

/// The columns that a record of this kind fills, in the order of the
/// statement.
pub open spec fn domain_audit_entry_column_names() -> Seq<Seq<char>> {
    seq!["id"@, "domain"@, "date_added"@]
}

/// The values of one record, in the order of its columns.
pub open spec fn domain_audit_entry_values(r: DomainAuditEntry) -> Seq<SqlValueView> {
    seq![
        SqlValueView::Integer(r.id as int),
        SqlValueView::Text(r.domain@),
        SqlValueView::Integer(r.date_added as int),
    ]
}

fn domain_audit_entry_columns() -> (columns: Vec<&'static str>)
    ensures
        columns.deep_view() == domain_audit_entry_column_names(),
{
    let mut columns: Vec<&'static str> = Vec::new();
    columns.push("id");
    columns.push("domain");
    columns.push("date_added");
    assert(columns.deep_view() =~= domain_audit_entry_column_names());
    columns
}

impl Restorable for DomainAuditList {
    type ListType = DomainAuditEntry;

    open spec fn table_name(&self) -> Seq<char> {
        "domain_audit"@
    }

    open spec fn records(&self) -> Seq<DomainAuditEntry> {
        self.list@
    }

    open spec fn columns(&self) -> Seq<Seq<char>> {
        domain_audit_entry_column_names()
    }

    open spec fn fixed_column(&self) -> Result<Option<(Seq<char>, Seq<char>)>, RestoreError> {
        Ok(None)
    }

    open spec fn values(&self, idx: int) -> Seq<SqlValueView> {
        domain_audit_entry_values(self.list@[idx])
    }

    proof fn lemma_one_value_per_column(&self, idx: int) {
    }

    fn get_table_name(&self) -> (name: &'static str) {
        "domain_audit"
    }

    fn get_list(&self) -> (list: &Vec<DomainAuditEntry>) {
        &self.list
    }

    fn get_store_statement(&self) -> (sql: Result<String, RestoreError>) {
        Ok(insert_statement("domain_audit", &domain_audit_entry_columns(), None))
    }

    fn get_store_parameters(&self, idx: usize) -> (params: Result<Vec<Param>, RestoreError>) {
        if idx >= self.list.len() {
            return Err(RestoreError::NoSuchRecord);
        }
        let record = &self.list[idx];
        let mut params: Vec<Param> = Vec::new();
        params.push(bind_int("id", record.id as i64));
        params.push(bind_text("domain", &record.domain));
        params.push(bind_int("date_added", record.date_added));
        assert(params.deep_view() =~= bindings(domain_audit_entry_column_names(), domain_audit_entry_values(*record)));
        Ok(params)
    }
}

/// A group entry.
#[derive(Debug, PartialEq, Eq)]
pub struct Group {
    pub id: i32,
    pub name: String,
    pub date_added: i64,
    pub description: String,
}

/// A batch of group entries.
#[derive(Debug, PartialEq, Eq)]
pub struct GroupList {
    pub list: Vec<Group>,
}

/// The columns that a record of this kind fills, in the order of the
/// statement.
pub open spec fn group_column_names() -> Seq<Seq<char>> {
    seq!["id"@, "name"@, "date_added"@, "description"@]
}

/// The values of one record, in the order of its columns.
pub open spec fn group_values(r: Group) -> Seq<SqlValueView> {
    seq![
        SqlValueView::Integer(r.id as int),
        SqlValueView::Text(r.name@),
        SqlValueView::Integer(r.date_added as int),
        SqlValueView::Text(r.description@),
    ]
}

fn group_columns() -> (columns: Vec<&'static str>)
    ensures
        columns.deep_view() == group_column_names(),
{
    let mut columns: Vec<&'static str> = Vec::new();
    columns.push("id");
    columns.push("name");
    columns.push("date_added");
    columns.push("description");
    assert(columns.deep_view() =~= group_column_names());
    columns
}

impl Restorable for GroupList {
    type ListType = Group;

    open spec fn table_name(&self) -> Seq<char> {
        "group"@
    }

    open spec fn records(&self) -> Seq<Group> {
        self.list@
    }

    open spec fn columns(&self) -> Seq<Seq<char>> {
        group_column_names()
    }

    open spec fn fixed_column(&self) -> Result<Option<(Seq<char>, Seq<char>)>, RestoreError> {
        Ok(None)
    }

    open spec fn values(&self, idx: int) -> Seq<SqlValueView> {
        group_values(self.list@[idx])
    }

    proof fn lemma_one_value_per_column(&self, idx: int) {
    }

    fn get_table_name(&self) -> (name: &'static str) {
        "group"
    }

    fn get_list(&self) -> (list: &Vec<Group>) {
        &self.list
    }

    fn get_store_statement(&self) -> (sql: Result<String, RestoreError>) {
        Ok(insert_statement("group", &group_columns(), None))
    }

    fn get_store_parameters(&self, idx: usize) -> (params: Result<Vec<Param>, RestoreError>) {
        if idx >= self.list.len() {
            return Err(RestoreError::NoSuchRecord);
        }
        let record = &self.list[idx];
        let mut params: Vec<Param> = Vec::new();
        params.push(bind_int("id", record.id as i64));
        params.push(bind_text("name", &record.name));
        params.push(bind_int("date_added", record.date_added));
        params.push(bind_text("description", &record.description));
        assert(params.deep_view() =~= bindings(group_column_names(), group_values(*record)));
        Ok(params)
    }
}

/// A client entry.
#[derive(Debug, PartialEq, Eq)]
pub struct Client {
    pub id: i32,
    pub ip: String,
    pub date_added: i64,
    pub comment: String,
}

/// A batch of client entries.
#[derive(Debug, PartialEq, Eq)]
pub struct ClientList {
    pub list: Vec<Client>,
}

/// The columns that a record of this kind fills, in the order of the
/// statement.
pub open spec fn client_column_names() -> Seq<Seq<char>> {
    seq!["id"@, "ip"@, "date_added"@, "comment"@]
}

/// The values of one record, in the order of its columns.
pub open spec fn client_values(r: Client) -> Seq<SqlValueView> {
    seq![
        SqlValueView::Integer(r.id as int),
        SqlValueView::Text(r.ip@),
        SqlValueView::Integer(r.date_added as int),
        SqlValueView::Text(r.comment@),
    ]
}

fn client_columns() -> (columns: Vec<&'static str>)
    ensures
        columns.deep_view() == client_column_names(),
{
    let mut columns: Vec<&'static str> = Vec::new();
    columns.push("id");
    columns.push("ip");
    columns.push("date_added");
    columns.push("comment");
    assert(columns.deep_view() =~= client_column_names());
    columns
}

impl Restorable for ClientList {
    type ListType = Client;

    open spec fn table_name(&self) -> Seq<char> {
        "client"@
    }

    open spec fn records(&self) -> Seq<Client> {
        self.list@
    }

    open spec fn columns(&self) -> Seq<Seq<char>> {
        client_column_names()
    }

    open spec fn fixed_column(&self) -> Result<Option<(Seq<char>, Seq<char>)>, RestoreError> {
        Ok(None)
    }

    open spec fn values(&self, idx: int) -> Seq<SqlValueView> {
        client_values(self.list@[idx])
    }

    proof fn lemma_one_value_per_column(&self, idx: int) {
    }

    fn get_table_name(&self) -> (name: &'static str) {
        "client"
    }

    fn get_list(&self) -> (list: &Vec<Client>) {
        &self.list
    }

    fn get_store_statement(&self) -> (sql: Result<String, RestoreError>) {
        Ok(insert_statement("client", &client_columns(), None))
    }

    fn get_store_parameters(&self, idx: usize) -> (params: Result<Vec<Param>, RestoreError>) {
        if idx >= self.list.len() {
            return Err(RestoreError::NoSuchRecord);
        }
        let record = &self.list[idx];
        let mut params: Vec<Param> = Vec::new();
        params.push(bind_int("id", record.id as i64));
        params.push(bind_text("ip", &record.ip));
        params.push(bind_int("date_added", record.date_added));
        params.push(bind_text("comment", &record.comment));
        assert(params.deep_view() =~= bindings(client_column_names(), client_values(*record)));
        Ok(params)
    }
}

/// A link between a client and a group.
#[derive(Debug, PartialEq, Eq)]
pub struct ClientGroupAssignment {
    pub client_id: i32,
    pub group_id: i32,
}

/// A batch of client-group links.
#[derive(Debug, PartialEq, Eq)]
pub struct ClientGroupAssignmentList {
    pub list: Vec<ClientGroupAssignment>,
}

/// The columns that a record of this kind fills, in the order of the
/// statement.
pub open spec fn client_group_assignment_column_names() -> Seq<Seq<char>> {
    seq!["client_id"@, "group_id"@]
}

/// The values of one record, in the order of its columns.
pub open spec fn client_group_assignment_values(r: ClientGroupAssignment) -> Seq<SqlValueView> {
    seq![
        SqlValueView::Integer(r.client_id as int),
        SqlValueView::Integer(r.group_id as int),
    ]
}

fn client_group_assignment_columns() -> (columns: Vec<&'static str>)
    ensures
        columns.deep_view() == client_group_assignment_column_names(),
{
    let mut columns: Vec<&'static str> = Vec::new();
    columns.push("client_id");
    columns.push("group_id");
    assert(columns.deep_view() =~= client_group_assignment_column_names());
    columns
}

impl Restorable for ClientGroupAssignmentList {
    type ListType = ClientGroupAssignment;

    open spec fn table_name(&self) -> Seq<char> {
        "client_by_group"@
    }

    open spec fn records(&self) -> Seq<ClientGroupAssignment> {
        self.list@
    }

    open spec fn columns(&self) -> Seq<Seq<char>> {
        client_group_assignment_column_names()
    }

    open spec fn fixed_column(&self) -> Result<Option<(Seq<char>, Seq<char>)>, RestoreError> {
        Ok(None)
    }

    open spec fn values(&self, idx: int) -> Seq<SqlValueView> {
        client_group_assignment_values(self.list@[idx])
    }

    proof fn lemma_one_value_per_column(&self, idx: int) {
    }

    fn get_table_name(&self) -> (name: &'static str) {
        "client_by_group"
    }

    fn get_list(&self) -> (list: &Vec<ClientGroupAssignment>) {
        &self.list
    }

    fn get_store_statement(&self) -> (sql: Result<String, RestoreError>) {
        Ok(insert_statement("client_by_group", &client_group_assignment_columns(), None))
    }

    fn get_store_parameters(&self, idx: usize) -> (params: Result<Vec<Param>, RestoreError>) {
        if idx >= self.list.len() {
            return Err(RestoreError::NoSuchRecord);
        }
        let record = &self.list[idx];
        let mut params: Vec<Param> = Vec::new();
        params.push(bind_int("client_id", record.client_id as i64));
        params.push(bind_int("group_id", record.group_id as i64));
        assert(params.deep_view() =~= bindings(client_group_assignment_column_names(), client_group_assignment_values(*record)));
        Ok(params)
    }
}

/// A link between a domain-list entry and a group.
#[derive(Debug, PartialEq, Eq)]
pub struct DomainListGroupAssignment {
    pub domainlist_id: i32,
    pub group_id: i32,
}

/// A batch of domain-list-group links.
#[derive(Debug, PartialEq, Eq)]
pub struct DomainListGroupAssignmentList {
    pub list: Vec<DomainListGroupAssignment>,
}

/// The columns that a record of this kind fills, in the order of the
/// statement.
pub open spec fn domain_list_group_assignment_column_names() -> Seq<Seq<char>> {
    seq!["domainlist_id"@, "group_id"@]
}

/// The values of one record, in the order of its columns.
pub open spec fn domain_list_group_assignment_values(r: DomainListGroupAssignment) -> Seq<SqlValueView> {
    seq![
        SqlValueView::Integer(r.domainlist_id as int),
        SqlValueView::Integer(r.group_id as int),
    ]
}

fn domain_list_group_assignment_columns() -> (columns: Vec<&'static str>)
    ensures
        columns.deep_view() == domain_list_group_assignment_column_names(),
{
    let mut columns: Vec<&'static str> = Vec::new();
    columns.push("domainlist_id");
    columns.push("group_id");
    assert(columns.deep_view() =~= domain_list_group_assignment_column_names());
    columns
}

impl Restorable for DomainListGroupAssignmentList {
    type ListType = DomainListGroupAssignment;

    open spec fn table_name(&self) -> Seq<char> {
        "domainlist_by_group"@
    }

    open spec fn records(&self) -> Seq<DomainListGroupAssignment> {
        self.list@
    }

    open spec fn columns(&self) -> Seq<Seq<char>> {
        domain_list_group_assignment_column_names()
    }

    open spec fn fixed_column(&self) -> Result<Option<(Seq<char>, Seq<char>)>, RestoreError> {
        Ok(None)
    }

    open spec fn values(&self, idx: int) -> Seq<SqlValueView> {
        domain_list_group_assignment_values(self.list@[idx])
    }

    proof fn lemma_one_value_per_column(&self, idx: int) {
    }

    fn get_table_name(&self) -> (name: &'static str) {
        "domainlist_by_group"
    }

    fn get_list(&self) -> (list: &Vec<DomainListGroupAssignment>) {
        &self.list
    }

    fn get_store_statement(&self) -> (sql: Result<String, RestoreError>) {
        Ok(insert_statement("domainlist_by_group", &domain_list_group_assignment_columns(), None))
    }

    fn get_store_parameters(&self, idx: usize) -> (params: Result<Vec<Param>, RestoreError>) {
        if idx >= self.list.len() {
            return Err(RestoreError::NoSuchRecord);
        }
        let record = &self.list[idx];
        let mut params: Vec<Param> = Vec::new();
        params.push(bind_int("domainlist_id", record.domainlist_id as i64));
        params.push(bind_int("group_id", record.group_id as i64));
        assert(params.deep_view() =~= bindings(domain_list_group_assignment_column_names(), domain_list_group_assignment_values(*record)));
        Ok(params)
    }
}

/// A link between an ad-source entry and a group.
#[derive(Debug, PartialEq, Eq)]
pub struct AdListGroupAssignment {
    pub adlist_id: i32,
    pub group_id: i32,
}

/// A batch of ad-source-group links.
#[derive(Debug, PartialEq, Eq)]
pub struct AdListGroupAssignmentList {
    pub list: Vec<AdListGroupAssignment>,
}

/// The columns that a record of this kind fills, in the order of the
/// statement.
pub open spec fn ad_list_group_assignment_column_names() -> Seq<Seq<char>> {
    seq!["adlist_id"@, "group_id"@]
}

/// The values of one record, in the order of its columns.
pub open spec fn ad_list_group_assignment_values(r: AdListGroupAssignment) -> Seq<SqlValueView> {
    seq![
        SqlValueView::Integer(r.adlist_id as int),
        SqlValueView::Integer(r.group_id as int),
    ]
}

fn ad_list_group_assignment_columns() -> (columns: Vec<&'static str>)
    ensures
        columns.deep_view() == ad_list_group_assignment_column_names(),
{
    let mut columns: Vec<&'static str> = Vec::new();
    columns.push("adlist_id");
    columns.push("group_id");
    assert(columns.deep_view() =~= ad_list_group_assignment_column_names());
    columns
}

impl Restorable for AdListGroupAssignmentList {
    type ListType = AdListGroupAssignment;

    open spec fn table_name(&self) -> Seq<char> {
        "adlist_by_group"@
    }

    open spec fn records(&self) -> Seq<AdListGroupAssignment> {
        self.list@
    }

    open spec fn columns(&self) -> Seq<Seq<char>> {
        ad_list_group_assignment_column_names()
    }

    open spec fn fixed_column(&self) -> Result<Option<(Seq<char>, Seq<char>)>, RestoreError> {
        Ok(None)
    }

    open spec fn values(&self, idx: int) -> Seq<SqlValueView> {
        ad_list_group_assignment_values(self.list@[idx])
    }

    proof fn lemma_one_value_per_column(&self, idx: int) {
    }

    fn get_table_name(&self) -> (name: &'static str) {
        "adlist_by_group"
    }

    fn get_list(&self) -> (list: &Vec<AdListGroupAssignment>) {
        &self.list
    }

    fn get_store_statement(&self) -> (sql: Result<String, RestoreError>) {
        Ok(insert_statement("adlist_by_group", &ad_list_group_assignment_columns(), None))
    }

    fn get_store_parameters(&self, idx: usize) -> (params: Result<Vec<Param>, RestoreError>) {
        if idx >= self.list.len() {
            return Err(RestoreError::NoSuchRecord);
        }
        let record = &self.list[idx];
        let mut params: Vec<Param> = Vec::new();
        params.push(bind_int("adlist_id", record.adlist_id as i64));
        params.push(bind_int("group_id", record.group_id as i64));
        assert(params.deep_view() =~= bindings(ad_list_group_assignment_column_names(), ad_list_group_assignment_values(*record)));
        Ok(params)
    }
}

/// The decoded content of one archive entry: the records of one kind, in
/// the order of the entry.
#[derive(Debug, PartialEq, Eq)]
pub enum Batch {
    Domains(Vec<Domain>),
    Ads(Vec<Ad>),
    Audits(Vec<DomainAuditEntry>),
    Groups(Vec<Group>),
    Clients(Vec<Client>),
    ClientGroups(Vec<ClientGroupAssignment>),
    DomainListGroups(Vec<DomainListGroupAssignment>),
    AdListGroups(Vec<AdListGroupAssignment>),
}

} // verus!
