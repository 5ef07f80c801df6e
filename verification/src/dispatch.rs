//! Routing of archive entries: which entry restores what, which filter
//! keywords select it, and the restore that an entry starts.

use crate::action::{Action, ActionView, Event};
use crate::dhcp::{
    dhcp_action, dhcp_next, dhcp_start, process_static_dhcp, StaticDhcpRestore,
    StaticDhcpRestoreView,
};
use crate::dns::{
    process_local_cname_entries, process_local_dns_entries, reconcile_action, reconcile_next,
    reconcile_start, MappingStore, Reconcile, ReconcileView,
};
use crate::gravity::{
    new_restore, restore_domainlist, table_restore_action, table_restore_next,
    table_restore_start, TableRestore, TableRestoreView,
};
use crate::tables::{DomainType, TableKind};
use crate::text::{same_text, split, split_on};
use vstd::prelude::*;

verus! {

/// What one archive entry restores.
#[derive(Clone, Copy, Debug, PartialEq, Eq, Structural)]
pub enum Target {
    /// The records of a table.
    Table(TableKind),
    /// The static address reservations.
    StaticDhcp,
    /// The custom name mappings.
    LocalDns,
    /// The custom alias mappings.
    LocalCname,
}

/// The categories that a run can be confined to.
#[derive(Clone, Copy, Debug, PartialEq, Eq, Structural)]
pub enum Category {
    Blacklist,
    BlacklistRegex,
    Whitelist,
    WhitelistRegex,
    AdList,
    AuditLog,
    Group,
    Client,
    StaticDhcp,
    LocalDns,
    LocalCname,
}

/// What becomes of an archive entry.
#[derive(Clone, Copy, Debug, PartialEq, Eq, Structural)]
pub enum Dispatch {
    /// The entry is restored.
    Restore(Target),
    /// The entry is known, but no selected category owns it.
    Skipped(Target),
    /// The entry's name is not known: nothing is done for it, and that is
    /// no error.
    Ignored,
}

/// What the entry called `name` restores; `None` for a name that is not
/// known.
pub open spec fn entry_target(name: Seq<char>) -> Option<Target> {
    if name == "blacklist.exact.json"@ {
        Some(Target::Table(TableKind::DomainList(DomainType::Blacklist)))
    } else if name == "blacklist.regex.json"@ {
        Some(Target::Table(TableKind::DomainList(DomainType::BlacklistRegex)))
    } else if name == "whitelist.exact.json"@ {
        Some(Target::Table(TableKind::DomainList(DomainType::Whitelist)))
    } else if name == "whitelist.regex.json"@ {
        Some(Target::Table(TableKind::DomainList(DomainType::WhitelistRegex)))
    } else if name == "adlist.json"@ {
        Some(Target::Table(TableKind::AdList))
    } else if name == "domain_audit.json"@ {
        Some(Target::Table(TableKind::DomainAudit))
    } else if name == "group.json"@ {
        Some(Target::Table(TableKind::Group))
    } else if name == "client.json"@ {
        Some(Target::Table(TableKind::Client))
    } else if name == "client_by_group.json"@ {
        Some(Target::Table(TableKind::ClientByGroup))
    } else if name == "domainlist_by_group.json"@ {
        Some(Target::Table(TableKind::DomainListByGroup))
    } else if name == "adlist_by_group.json"@ {
        Some(Target::Table(TableKind::AdListByGroup))
    } else if name == "dnsmasq.d/04-pihole-static-dhcp.conf"@ {
        Some(Target::StaticDhcp)
    } else if name == "custom.list"@ {
        Some(Target::LocalDns)
    } else if name == "dnsmasq.d/05-pihole-custom-cname.conf"@ {
        Some(Target::LocalCname)
    } else {
        None
    }
}

/// The category that owns the list `t`.
pub open spec fn list_category(t: DomainType) -> Category {
    match t {
        DomainType::Whitelist => Category::Whitelist,
        DomainType::Blacklist => Category::Blacklist,
        DomainType::WhitelistRegex => Category::WhitelistRegex,
        DomainType::BlacklistRegex => Category::BlacklistRegex,
    }
}

/// Whether `category` is one of the four domain lists.
pub open spec fn is_list_category(category: Category) -> bool {
    category == Category::Blacklist || category == Category::BlacklistRegex || category
        == Category::Whitelist || category == Category::WhitelistRegex
}

/// Whether `category` owns `target`. The links between domain-list entries
/// and groups belong to each of the four domain lists; every other target
/// has one owner.
pub open spec fn owns(category: Category, target: Target) -> bool {
    match target {
        Target::Table(TableKind::DomainList(t)) => category == list_category(t),
        Target::Table(TableKind::AdList) => category == Category::AdList,
        Target::Table(TableKind::DomainAudit) => category == Category::AuditLog,
        Target::Table(TableKind::Group) => category == Category::Group,
        Target::Table(TableKind::Client) => category == Category::Client,
        Target::Table(TableKind::ClientByGroup) => category == Category::Client,
        Target::Table(TableKind::DomainListByGroup) => is_list_category(category),
        Target::Table(TableKind::AdListByGroup) => category == Category::AdList,
        Target::StaticDhcp => category == Category::StaticDhcp,
        Target::LocalDns => category == Category::LocalDns,
        Target::LocalCname => category == Category::LocalCname,
    }
}

/// Whether one of the categories in `filters` owns `target`.
pub open spec fn selects(filters: Seq<Category>, target: Target) -> bool {
    exists|i: int| 0 <= i < filters.len() && owns(#[trigger] filters[i], target)
}

/// What becomes of the entry called `name` under `filters`.
pub open spec fn dispatch_of(name: Seq<char>, filters: Seq<Category>) -> Dispatch {
    match entry_target(name) {
        Some(target) => if selects(filters, target) {
            Dispatch::Restore(target)
        } else {
            Dispatch::Skipped(target)
        },
        None => Dispatch::Ignored,
    }
}

/// The category that the filter keyword `keyword` stands for.
pub open spec fn keyword_category(keyword: Seq<char>) -> Option<Category> {
    if keyword == "blacklist"@ {
        Some(Category::Blacklist)
    } else if keyword == "blacklistregex"@ {
        Some(Category::BlacklistRegex)
    } else if keyword == "whitelist"@ {
        Some(Category::Whitelist)
    } else if keyword == "whitelistregex"@ {
        Some(Category::WhitelistRegex)
    } else if keyword == "adlist"@ {
        Some(Category::AdList)
    } else if keyword == "auditlog"@ {
        Some(Category::AuditLog)
    } else if keyword == "group"@ {
        Some(Category::Group)
    } else if keyword == "client"@ {
        Some(Category::Client)
    } else if keyword == "staticdhcp"@ {
        Some(Category::StaticDhcp)
    } else if keyword == "localdns"@ {
        Some(Category::LocalDns)
    } else if keyword == "localcname"@ {
        Some(Category::LocalCname)
    } else {
        None
    }
}

/// Every category, in the order of the keywords.
pub open spec fn every_category() -> Seq<Category> {
    seq![
        Category::Blacklist,
        Category::BlacklistRegex,
        Category::Whitelist,
        Category::WhitelistRegex,
        Category::AdList,
        Category::AuditLog,
        Category::Group,
        Category::Client,
        Category::StaticDhcp,
        Category::LocalDns,
        Category::LocalCname,
    ]
}

/// The lowercase form of a text, as `str::to_lowercase` gives it.
pub uninterp spec fn lowercase_of(text: Seq<char>) -> Seq<char>;

/// The categories that `words` stand for once each word is put into lower
/// case; the first word that is no keyword, in lower case, where there is
/// one.
pub open spec fn categories_of(words: Seq<Seq<char>>) -> Result<Seq<Category>, Seq<char>>
    decreases words.len(),
{
    if words.len() == 0 {
        Ok(Seq::empty())
    } else {
        match categories_of(words.drop_last()) {
            Ok(front) => match keyword_category(lowercase_of(words.last())) {
                Some(category) => Ok(front.push(category)),
                None => Err(lowercase_of(words.last())),
            },
            Err(word) => Err(word),
        }
    }
}

/// The categories that the filter argument `arg` selects: every category
/// for the word `all`, else those of its comma-separated keywords.
pub open spec fn filters_of(arg: Seq<char>) -> Result<Seq<Category>, Seq<char>> {
    if arg == "all"@ {
        Ok(every_category())
    } else {
        categories_of(split_on(arg, ','))
    }
}

/// Calls `str::to_lowercase`, which returns the text in lower case as
/// Unicode defines it. The contract only names that result.
#[verifier::external_body]
fn lowercase(text: &str) -> (lower: String)
    ensures
        lower@ == lowercase_of(text@),
{
    text.to_lowercase()
}

/// Looks up the category of a filter keyword.
pub fn category_of(keyword: &str) -> (category: Option<Category>)
    ensures
        category == keyword_category(keyword@),
{
    if same_text(keyword, "blacklist") {
        Some(Category::Blacklist)
    } else if same_text(keyword, "blacklistregex") {
        Some(Category::BlacklistRegex)
    } else if same_text(keyword, "whitelist") {
        Some(Category::Whitelist)
    } else if same_text(keyword, "whitelistregex") {
        Some(Category::WhitelistRegex)
    } else if same_text(keyword, "adlist") {
        Some(Category::AdList)
    } else if same_text(keyword, "auditlog") {
        Some(Category::AuditLog)
    } else if same_text(keyword, "group") {
        Some(Category::Group)
    } else if same_text(keyword, "client") {
        Some(Category::Client)
    } else if same_text(keyword, "staticdhcp") {
        Some(Category::StaticDhcp)
    } else if same_text(keyword, "localdns") {
        Some(Category::LocalDns)
    } else if same_text(keyword, "localcname") {
        Some(Category::LocalCname)
    } else {
        None
    }
}

/// Every category.
pub fn all_filters() -> (filters: Vec<Category>)
    ensures
        filters@ == every_category(),
{
    let mut filters: Vec<Category> = Vec::new();
    filters.push(Category::Blacklist);
    filters.push(Category::BlacklistRegex);
    filters.push(Category::Whitelist);
    filters.push(Category::WhitelistRegex);
    filters.push(Category::AdList);
    filters.push(Category::AuditLog);
    filters.push(Category::Group);
    filters.push(Category::Client);
    filters.push(Category::StaticDhcp);
    filters.push(Category::LocalDns);
    filters.push(Category::LocalCname);
    assert(filters@ =~= every_category());
    filters
}

/// Reads the filter argument. The word `all` selects every category. Any
/// other argument is a list of keywords with commas between them, in
/// upper or lower case; the first word that is no keyword is handed back
/// as the error, in lower case.
pub fn parse_filters(arg: &str) -> (filters: Result<Vec<Category>, String>)
    ensures
        match filters {
            Ok(list) => filters_of(arg@) == Ok::<Seq<Category>, Seq<char>>(list@),
            Err(word) => filters_of(arg@) == Err::<Seq<Category>, Seq<char>>(word@),
        },
{
    if same_text(arg, "all") {
        return Ok(all_filters());
    }
    let words = split(arg, ',');
    let mut list: Vec<Category> = Vec::new();
    let mut i: usize = 0;
    assert(words.deep_view().take(0) =~= Seq::empty());
    while i < words.len()
        invariant
            i <= words.len(),
            arg@ != "all"@,
            words.deep_view() == split_on(arg@, ','),
            categories_of(words.deep_view().take(i as int)) == Ok::<Seq<Category>, Seq<char>>(
                list@,
            ),
        decreases words.len() - i,
    {
        proof {
            let upto = words.deep_view().take(i + 1);
            assert(upto.drop_last() =~= words.deep_view().take(i as int));
            assert(upto.last() == words@[i as int]@);
        }
        let word = lowercase(words[i].as_str());
        match category_of(word.as_str()) {
            Some(category) => {
                list.push(category);
            },
            None => {
                proof {
                    let upto = words.deep_view().take(i + 1);
                    assert(categories_of(upto) == Err::<Seq<Category>, Seq<char>>(word@));
                    lemma_invalid_word_stays(words.deep_view(), i + 1);
                }
                return Err(word);
            },
        }
        i += 1;
    }
    assert(words.deep_view().take(words.len() as int) =~= words.deep_view());
    Ok(list)
}

/// Once a word is found to be no keyword, the words after it do not
/// matter.
proof fn lemma_invalid_word_stays(words: Seq<Seq<char>>, upto: int)
    requires
        0 <= upto <= words.len(),
        categories_of(words.take(upto)) is Err,
    ensures
        categories_of(words) == categories_of(words.take(upto)),
    decreases words.len() - upto,
{
    if upto < words.len() {
        let longer = words.take(upto + 1);
        assert(longer.drop_last() =~= words.take(upto));
        lemma_invalid_word_stays(words, upto + 1);
    } else {
        assert(words.take(upto) =~= words);
    }
}

/// Looks up what the entry called `name` restores.
pub fn target_of(name: &str) -> (target: Option<Target>)
    ensures
        target == entry_target(name@),
{
    if same_text(name, "blacklist.exact.json") {
        Some(Target::Table(TableKind::DomainList(DomainType::Blacklist)))
    } else if same_text(name, "blacklist.regex.json") {
        Some(Target::Table(TableKind::DomainList(DomainType::BlacklistRegex)))
    } else if same_text(name, "whitelist.exact.json") {
        Some(Target::Table(TableKind::DomainList(DomainType::Whitelist)))
    } else if same_text(name, "whitelist.regex.json") {
        Some(Target::Table(TableKind::DomainList(DomainType::WhitelistRegex)))
    } else if same_text(name, "adlist.json") {
        Some(Target::Table(TableKind::AdList))
    } else if same_text(name, "domain_audit.json") {
        Some(Target::Table(TableKind::DomainAudit))
    } else if same_text(name, "group.json") {
        Some(Target::Table(TableKind::Group))
    } else if same_text(name, "client.json") {
        Some(Target::Table(TableKind::Client))
    } else if same_text(name, "client_by_group.json") {
        Some(Target::Table(TableKind::ClientByGroup))
    } else if same_text(name, "domainlist_by_group.json") {
        Some(Target::Table(TableKind::DomainListByGroup))
    } else if same_text(name, "adlist_by_group.json") {
        Some(Target::Table(TableKind::AdListByGroup))
    } else if same_text(name, "dnsmasq.d/04-pihole-static-dhcp.conf") {
        Some(Target::StaticDhcp)
    } else if same_text(name, "custom.list") {
        Some(Target::LocalDns)
    } else if same_text(name, "dnsmasq.d/05-pihole-custom-cname.conf") {
        Some(Target::LocalCname)
    } else {
        None
    }
}

/// Whether `category` owns `target`.
pub fn category_owns(category: Category, target: Target) -> (yes: bool)
    ensures
        yes == owns(category, target),
{
    match target {
        Target::Table(TableKind::DomainList(t)) => match t {
            DomainType::Whitelist => category == Category::Whitelist,
            DomainType::Blacklist => category == Category::Blacklist,
            DomainType::WhitelistRegex => category == Category::WhitelistRegex,
            DomainType::BlacklistRegex => category == Category::BlacklistRegex,
        },
        Target::Table(TableKind::AdList) => category == Category::AdList,
        Target::Table(TableKind::DomainAudit) => category == Category::AuditLog,
        Target::Table(TableKind::Group) => category == Category::Group,
        Target::Table(TableKind::Client) => category == Category::Client,
        Target::Table(TableKind::ClientByGroup) => category == Category::Client,
        Target::Table(TableKind::DomainListByGroup) => category == Category::Blacklist
            || category == Category::BlacklistRegex || category == Category::Whitelist
            || category == Category::WhitelistRegex,
        Target::Table(TableKind::AdListByGroup) => category == Category::AdList,
        Target::StaticDhcp => category == Category::StaticDhcp,
        Target::LocalDns => category == Category::LocalDns,
        Target::LocalCname => category == Category::LocalCname,
    }
}

/// Whether one of `filters` owns `target`.
pub fn is_selected(filters: &Vec<Category>, target: Target) -> (yes: bool)
    ensures
        yes == selects(filters@, target),
{
    let mut i: usize = 0;
    while i < filters.len()
        invariant
            i <= filters.len(),
            forall|j: int| 0 <= j < i ==> !owns(#[trigger] filters@[j], target),
        decreases filters.len() - i,
    {
        if category_owns(filters[i], target) {
            return true;
        }
        i += 1;
    }
    false
}

/// Decides what becomes of the archive entry called `name`: an entry whose
/// name is not known is ignored, a known one is restored where a selected
/// category owns it, and skipped where none does.
pub fn dispatch(name: &str, filters: &Vec<Category>) -> (outcome: Dispatch)
    ensures
        outcome == dispatch_of(name@, filters@),
{
    match target_of(name) {
        Some(target) => {
            if is_selected(filters, target) {
                Dispatch::Restore(target)
            } else {
                Dispatch::Skipped(target)
            }
        },
        None => Dispatch::Ignored,
    }
}

/// The restore that an archive entry has started: of a table, of the
/// reservations, or of a mapping store.
#[derive(Debug, PartialEq, Eq)]
pub enum EntryRestore {
    Table(TableRestore),
    Reservations(StaticDhcpRestore),
    Mappings(Reconcile),
}

/// An entry's restore as the contracts see it.
pub enum EntryRestoreView {
    Table(TableRestoreView),
    Reservations(StaticDhcpRestoreView),
    Mappings(ReconcileView),
}

impl DeepView for EntryRestore {
    type V = EntryRestoreView;

    open spec fn deep_view(&self) -> EntryRestoreView {
        match self {
            EntryRestore::Table(r) => EntryRestoreView::Table(r.deep_view()),
            EntryRestore::Reservations(r) => EntryRestoreView::Reservations(r.deep_view()),
            EntryRestore::Mappings(r) => EntryRestoreView::Mappings(r.deep_view()),
        }
    }
}

/// The restore of `target` from an entry with the text `content`, before
/// anything has been done. A table's records are decoded later, when the
/// restore asks for them.
pub open spec fn entry_start(target: Target, content: Seq<char>, flush: bool) -> EntryRestoreView {
    match target {
        Target::Table(TableKind::DomainList(t)) => EntryRestoreView::Table(
            table_restore_start(TableKind::DomainList(t), flush, false),
        ),
        Target::Table(kind) => EntryRestoreView::Table(table_restore_start(kind, flush, true)),
        Target::StaticDhcp => EntryRestoreView::Reservations(dhcp_start(content, flush)),
        Target::LocalDns => EntryRestoreView::Mappings(
            reconcile_start(MappingStore::LocalDns, content, flush),
        ),
        Target::LocalCname => EntryRestoreView::Mappings(
            reconcile_start(MappingStore::LocalCname, content, flush),
        ),
    }
}

/// What the caller is asked to do in state `s`.
pub open spec fn entry_action(s: EntryRestoreView) -> ActionView {
    match s {
        EntryRestoreView::Table(r) => table_restore_action(r),
        EntryRestoreView::Reservations(r) => dhcp_action(r),
        EntryRestoreView::Mappings(r) => reconcile_action(r),
    }
}

/// The state after the caller has answered the action of state `s` with
/// `event`.
pub open spec fn entry_next(s: EntryRestoreView, event: Event) -> EntryRestoreView {
    match s {
        EntryRestoreView::Table(r) => EntryRestoreView::Table(table_restore_next(r, event)),
        EntryRestoreView::Reservations(r) => EntryRestoreView::Reservations(
            dhcp_next(r, event),
        ),
        EntryRestoreView::Mappings(r) => EntryRestoreView::Mappings(reconcile_next(r, event)),
    }
}

/// The restore that the entry called `name` starts: one for an entry that
/// is restored, none for an entry that is skipped or ignored.
pub open spec fn entry_restore_of(
    name: Seq<char>,
    filters: Seq<Category>,
    content: Seq<char>,
    flush: bool,
) -> Option<EntryRestoreView> {
    match dispatch_of(name, filters) {
        Dispatch::Restore(target) => Some(entry_start(target, content, flush)),
        _ => None,
    }
}

/// Starts the restore of `target` from an entry with the text `content`.
pub fn start_restore(target: Target, content: &str, flush: bool) -> (restore: EntryRestore)
    ensures
        restore.deep_view() == entry_start(target, content@, flush),
{
    match target {
        Target::Table(TableKind::DomainList(t)) => EntryRestore::Table(
            restore_domainlist(t, flush),
        ),
        Target::Table(kind) => EntryRestore::Table(new_restore(kind, flush, true)),
        Target::StaticDhcp => EntryRestore::Reservations(process_static_dhcp(content, flush)),
        Target::LocalDns => EntryRestore::Mappings(process_local_dns_entries(content, flush)),
        Target::LocalCname => EntryRestore::Mappings(
            process_local_cname_entries(content, flush),
        ),
    }
}

/// Routes one archive entry: starts its restore where the entry is known
/// and selected, and starts nothing where it is not.
pub fn restore_entry(name: &str, filters: &Vec<Category>, content: &str, flush: bool) -> (restore:
    Option<EntryRestore>)
    ensures
        restore.deep_view() == entry_restore_of(name@, filters@, content@, flush),
{
    match dispatch(name, filters) {
        Dispatch::Restore(target) => Some(start_restore(target, content, flush)),
        _ => None,
    }
}

impl EntryRestore {
    /// What the caller is asked to do now.
    pub fn action(&self) -> (action: Action)
        ensures
            action.deep_view() == entry_action(self.deep_view()),
    {
        match self {
            EntryRestore::Table(r) => r.action(),
            EntryRestore::Reservations(r) => r.action(),
            EntryRestore::Mappings(r) => r.action(),
        }
    }

    /// Takes the caller's answer to the current action and moves on.
    pub fn advance(&mut self, event: Event)
        ensures
            final(self).deep_view() == entry_next(old(self).deep_view(), event),
    {
        match self {
            EntryRestore::Table(r) => r.advance(event),
            EntryRestore::Reservations(r) => r.advance(event),
            EntryRestore::Mappings(r) => r.advance(event),
        }
    }
}

} // verus!
