//! The tables of the datastore, and the four lists that share the
//! domain-list table under one discriminant each.

use crate::text::same_text;
use vstd::prelude::*;

verus! {

/// The discriminant that stands for "no such list".
pub const NO_LIST: i32 = -1;

/// The discriminant is one of the four list types.
pub open spec fn is_list_code(code: int) -> bool {
    0 <= code <= 3
}

/// The decimal digit that stands for a list type in statement text.
pub open spec fn code_text(code: int) -> Seq<char> {
    if code == 0 {
        "0"@
    } else if code == 1 {
        "1"@
    } else if code == 2 {
        "2"@
    } else {
        "3"@
    }
}

/// The four logical lists that share the domain-list table.
#[derive(Clone, Copy, Debug, PartialEq, Eq, Structural)]
pub enum DomainType {
    Whitelist,
    Blacklist,
    WhitelistRegex,
    BlacklistRegex,
}

impl DomainType {
    /// The value of the `type` column that marks the rows of this list.
    pub open spec fn code(self) -> int {
        match self {
            DomainType::Whitelist => 0,
            DomainType::Blacklist => 1,
            DomainType::WhitelistRegex => 2,
            DomainType::BlacklistRegex => 3,
        }
    }

    /// The discriminant of this list.
    pub fn discriminant(self) -> (code: i32)
        ensures
            code == self.code(),
    {
        match self {
            DomainType::Whitelist => 0,
            DomainType::Blacklist => 1,
            DomainType::WhitelistRegex => 2,
            DomainType::BlacklistRegex => 3,
        }
    }

    /// The list type with this discriminant; `None` for every value that is
    /// not the discriminant of a list, the sentinel among them.
    pub fn from_code(code: i32) -> (list: Option<DomainType>)
        ensures
            match list {
                Some(t) => t.code() == code,
                None => !is_list_code(code as int),
            },
    {
        if code == 0 {
            Some(DomainType::Whitelist)
        } else if code == 1 {
            Some(DomainType::Blacklist)
        } else if code == 2 {
            Some(DomainType::WhitelistRegex)
        } else if code == 3 {
            Some(DomainType::BlacklistRegex)
        } else {
            None
        }
    }

    /// The decimal digit that stands for this list in statement text.
    pub fn digit(self) -> (digit: &'static str)
        ensures
            digit@ == code_text(self.code()),
    {
        match self {
            DomainType::Whitelist => "0",
            DomainType::Blacklist => "1",
            DomainType::WhitelistRegex => "2",
            DomainType::BlacklistRegex => "3",
        }
    }
}

/// The tables that the engine restores. The domain-list table is restored
/// one list type at a time.
#[derive(Clone, Copy, Debug, PartialEq, Eq, Structural)]
pub enum TableKind {
    DomainList(DomainType),
    AdList,
    DomainAudit,
    Group,
    Client,
    ClientByGroup,
    DomainListByGroup,
    AdListByGroup,
}

/// The discriminant of the list called `name`, or `NO_LIST` where `name` is
/// none of the four list names.
pub open spec fn list_code_of(name: Seq<char>) -> int {
    if name == "whitelist"@ {
        0
    } else if name == "blacklist"@ {
        1
    } else if name == "regex_whitelist"@ {
        2
    } else if name == "regex_blacklist"@ {
        3
    } else {
        NO_LIST as int
    }
}

/// Looks up the discriminant of the list called `name`. An unknown name
/// gives the sentinel `NO_LIST`, which no statement accepts.
pub fn domain_type_code(name: &str) -> (code: i32)
    ensures
        code == list_code_of(name@),
{
    if same_text(name, "whitelist") {
        0
    } else if same_text(name, "blacklist") {
        1
    } else if same_text(name, "regex_whitelist") {
        2
    } else if same_text(name, "regex_blacklist") {
        3
    } else {
        NO_LIST
    }
}

/// Name of the table that holds the records of `kind`.
pub open spec fn kind_table(kind: TableKind) -> Seq<char> {
    match kind {
        TableKind::DomainList(_) => "domainlist"@,
        TableKind::AdList => "adlist"@,
        TableKind::DomainAudit => "domain_audit"@,
        TableKind::Group => "group"@,
        TableKind::Client => "client"@,
        TableKind::ClientByGroup => "client_by_group"@,
        TableKind::DomainListByGroup => "domainlist_by_group"@,
        TableKind::AdListByGroup => "adlist_by_group"@,
    }
}

/// Name of the table that holds the records of `kind`.
pub fn table_name(kind: TableKind) -> (name: &'static str)
    ensures
        name@ == kind_table(kind),
{
    match kind {
        TableKind::DomainList(_) => "domainlist",
        TableKind::AdList => "adlist",
        TableKind::DomainAudit => "domain_audit",
        TableKind::Group => "group",
        TableKind::Client => "client",
        TableKind::ClientByGroup => "client_by_group",
        TableKind::DomainListByGroup => "domainlist_by_group",
        TableKind::AdListByGroup => "adlist_by_group",
    }
}

/// The table that is restored under the name `table`. The domain-list
/// table is not among them: it is restored per list type.
pub open spec fn named_kind(table: Seq<char>) -> Option<TableKind> {
    if table == "adlist"@ {
        Some(TableKind::AdList)
    } else if table == "domain_audit"@ {
        Some(TableKind::DomainAudit)
    } else if table == "group"@ {
        Some(TableKind::Group)
    } else if table == "client"@ {
        Some(TableKind::Client)
    } else if table == "client_by_group"@ {
        Some(TableKind::ClientByGroup)
    } else if table == "domainlist_by_group"@ {
        Some(TableKind::DomainListByGroup)
    } else if table == "adlist_by_group"@ {
        Some(TableKind::AdListByGroup)
    } else {
        None
    }
}

/// Looks up the table that is restored under the name `table`.
pub fn table_kind(table: &str) -> (kind: Option<TableKind>)
    ensures
        kind == named_kind(table@),
{
    if same_text(table, "adlist") {
        Some(TableKind::AdList)
    } else if same_text(table, "domain_audit") {
        Some(TableKind::DomainAudit)
    } else if same_text(table, "group") {
        Some(TableKind::Group)
    } else if same_text(table, "client") {
        Some(TableKind::Client)
    } else if same_text(table, "client_by_group") {
        Some(TableKind::ClientByGroup)
    } else if same_text(table, "domainlist_by_group") {
        Some(TableKind::DomainListByGroup)
    } else if same_text(table, "adlist_by_group") {
        Some(TableKind::AdListByGroup)
    } else {
        None
    }
}

/// Each table that is restored by name is found under its own name: the
/// name that `table_name` gives for a kind leads `table_kind` back to that
/// kind.
pub proof fn law_table_is_found_by_name(kind: TableKind)
    requires
        !(kind is DomainList),
    ensures
        named_kind(kind_table(kind)) == Some(kind),
{
    reveal_strlit("adlist");
    reveal_strlit("domain_audit");
    reveal_strlit("group");
    reveal_strlit("client");
    reveal_strlit("client_by_group");
    reveal_strlit("domainlist_by_group");
    reveal_strlit("adlist_by_group");
    assert("adlist"@.len() == 6 && "adlist"@[0] == 'a');
    assert("domain_audit"@.len() == 12);
    assert("group"@.len() == 5);
    assert("client"@.len() == 6 && "client"@[0] == 'c');
    assert("client_by_group"@.len() == 15 && "client_by_group"@[0] == 'c');
    assert("domainlist_by_group"@.len() == 19);
    assert("adlist_by_group"@.len() == 15 && "adlist_by_group"@[0] == 'a');
}

} // verus!
