//! Reconciliation of the two mapping stores: custom name mappings (an
//! address and a domain per line) and custom alias mappings (a domain and
//! its target per line).

use crate::action::{Action, ActionView, Event};
use crate::cli::{copy_args, entry_args, entry_command, reload_args, restart_dns};
use crate::error::RestoreError;
use crate::text::{
    chars_of, lines, lines_of, matches_at, split, split_on, starts_with, strip_prefix, substring,
};
use vstd::prelude::*;
use vstd::string::StringExecFns;

verus! {

/// The file that holds the custom name mappings.
pub const CUSTOM_DNS_FILE: &'static str = "/etc/pihole/custom.list";

/// The file that holds the custom alias mappings.
pub const CNAME_CONFIG_FILE: &'static str = "/etc/dnsmasq.d/05-pihole-custom-cname.conf";

/// The key token in front of an alias mapping.
pub const CNAME_PREFIX: &'static str = "cname=";

/// A custom name mapping.
#[derive(Debug, PartialEq, Eq)]
pub struct CustomDNSEntry {
    pub ip: String,
    pub domain: String,
}

/// A name mapping as the contracts see it.
pub struct CustomDNSEntryView {
    pub ip: Seq<char>,
    pub domain: Seq<char>,
}

impl DeepView for CustomDNSEntry {
    type V = CustomDNSEntryView;

    open spec fn deep_view(&self) -> CustomDNSEntryView {
        CustomDNSEntryView { ip: self.ip@, domain: self.domain@ }
    }
}

/// A custom alias mapping.
#[derive(Debug, PartialEq, Eq)]
pub struct CNameConfigEntry {
    pub domain: String,
    pub target: String,
}

/// An alias mapping as the contracts see it.
pub struct CNameConfigEntryView {
    pub domain: Seq<char>,
    pub target: Seq<char>,
}

impl DeepView for CNameConfigEntry {
    type V = CNameConfigEntryView;

    open spec fn deep_view(&self) -> CNameConfigEntryView {
        CNameConfigEntryView { domain: self.domain@, target: self.target@ }
    }
}

/// The name mapping that `line` holds: its two fields, where it has exactly
/// two fields with one space between them.
pub open spec fn dns_entry_of(line: Seq<char>) -> Option<CustomDNSEntryView> {
    let fields = split_on(line, ' ');
    if fields.len() == 2 {
        Some(CustomDNSEntryView { ip: fields[0], domain: fields[1] })
    } else {
        None
    }
}

/// The name mappings of `lines`, in order; lines of another shape are
/// passed over.
pub open spec fn dns_entries_in(lines: Seq<Seq<char>>) -> Seq<CustomDNSEntryView>
    decreases lines.len(),
{
    if lines.len() == 0 {
        Seq::empty()
    } else {
        let before = dns_entries_in(lines.drop_last());
        match dns_entry_of(lines.last()) {
            Some(entry) => before.push(entry),
            None => before,
        }
    }
}

/// The name mappings that the text `contents` holds.
pub open spec fn local_dns_entries(contents: Seq<char>) -> Seq<CustomDNSEntryView> {
    dns_entries_in(lines_of(contents))
}

/// The line that holds the name mapping `entry`.
pub open spec fn dns_line_of(entry: CustomDNSEntryView) -> Seq<char> {
    entry.ip + seq![' '] + entry.domain
}

/// The alias mapping that `line` holds: the two fields of what follows the
/// key token, where that has exactly two fields with one comma between
/// them. A line without the key token is read as if it had one.
pub open spec fn cname_entry_of(line: Seq<char>) -> Option<CNameConfigEntryView> {
    let fields = split_on(strip_prefix(line, CNAME_PREFIX@), ',');
    if fields.len() == 2 {
        Some(CNameConfigEntryView { domain: fields[0], target: fields[1] })
    } else {
        None
    }
}

/// The alias mappings of `lines`, in order; lines of another shape are
/// passed over.
pub open spec fn cname_entries_in(lines: Seq<Seq<char>>) -> Seq<CNameConfigEntryView>
    decreases lines.len(),
{
    if lines.len() == 0 {
        Seq::empty()
    } else {
        let before = cname_entries_in(lines.drop_last());
        match cname_entry_of(lines.last()) {
            Some(entry) => before.push(entry),
            None => before,
        }
    }
}

/// The alias mappings that the text `contents` holds.
pub open spec fn cname_entries(contents: Seq<char>) -> Seq<CNameConfigEntryView> {
    cname_entries_in(lines_of(contents))
}

/// The lines of `lines` that hold no name mapping, in order.
pub open spec fn unread_dns_lines(lines: Seq<Seq<char>>) -> Seq<Seq<char>>
    decreases lines.len(),
{
    if lines.len() == 0 {
        Seq::empty()
    } else {
        let before = unread_dns_lines(lines.drop_last());
        if dns_entry_of(lines.last()) is None {
            before.push(lines.last())
        } else {
            before
        }
    }
}

/// The lines of the text `contents` that hold no name mapping: those that are
/// passed over when the text is read.
pub open spec fn skipped_dns_lines(contents: Seq<char>) -> Seq<Seq<char>> {
    unread_dns_lines(lines_of(contents))
}

/// The lines of `lines` that hold no alias mapping, in order.
pub open spec fn unread_cname_lines(lines: Seq<Seq<char>>) -> Seq<Seq<char>>
    decreases lines.len(),
{
    if lines.len() == 0 {
        Seq::empty()
    } else {
        let before = unread_cname_lines(lines.drop_last());
        if cname_entry_of(lines.last()) is None {
            before.push(lines.last())
        } else {
            before
        }
    }
}

/// The lines of the text `contents` that hold no alias mapping: those that are
/// passed over when the text is read.
pub open spec fn skipped_cname_lines(contents: Seq<char>) -> Seq<Seq<char>> {
    unread_cname_lines(lines_of(contents))
}

/// One request `verb` per name mapping, in order.
pub open spec fn dns_requests(verb: Seq<char>, entries: Seq<CustomDNSEntryView>) -> Seq<
    Seq<Seq<char>>,
> {
    Seq::new(entries.len(), |i: int| entry_args(verb, entries[i].ip, entries[i].domain))
}

/// One request `verb` per alias mapping, in order.
pub open spec fn cname_requests(verb: Seq<char>, entries: Seq<CNameConfigEntryView>) -> Seq<
    Seq<Seq<char>>,
> {
    Seq::new(entries.len(), |i: int| entry_args(verb, entries[i].domain, entries[i].target))
}

/// Reads one line of the name-mapping store.
pub fn parse_dns_line(line: &str) -> (entry: Option<CustomDNSEntry>)
    ensures
        entry.deep_view() == dns_entry_of(line@),
{
    let fields = split(line, ' ');
    if fields.len() != 2 {
        return None;
    }
    assert(fields.deep_view()[0] == fields@[0]@);
    assert(fields.deep_view()[1] == fields@[1]@);
    let domain = fields[1].clone();
    let ip = fields[0].clone();
    Some(CustomDNSEntry { ip, domain })
}

/// Reads the name mappings out of `contents`, line by line.
pub fn get_local_dns_entries(contents: &str) -> (entries: Vec<CustomDNSEntry>)
    ensures
        entries.deep_view() == local_dns_entries(contents@),
{
    let all = lines(contents);
    let mut entries: Vec<CustomDNSEntry> = Vec::new();
    let mut i: usize = 0;
    assert(all.deep_view().take(0) =~= Seq::empty());
    assert(entries.deep_view() =~= Seq::empty());
    while i < all.len()
        invariant
            i <= all.len(),
            all.deep_view() == lines_of(contents@),
            entries.deep_view() == dns_entries_in(all.deep_view().take(i as int)),
        decreases all.len() - i,
    {
        proof {
            let upto = all.deep_view().take(i + 1);
            assert(upto.drop_last() =~= all.deep_view().take(i as int));
            assert(upto.last() == all@[i as int]@);
        }
        match parse_dns_line(all[i].as_str()) {
            Some(entry) => {
                let ghost before = entries.deep_view();
                entries.push(entry);
                assert(entries.deep_view() =~= before.push(entry.deep_view()));
            },
            None => {},
        }
        i += 1;
    }
    assert(all.deep_view().take(all.len() as int) =~= all.deep_view());
    entries
}

/// Whether `line` begins with the key token of an alias mapping.
fn has_cname_prefix(chars: &Vec<char>) -> (found: bool)
    ensures
        found == starts_with(chars@, CNAME_PREFIX@),
{
    let prefix = chars_of(CNAME_PREFIX);
    matches_at(chars, &prefix, 0)
}

/// Reads one line of the alias-mapping store.
pub fn parse_cname_line(line: &str) -> (entry: Option<CNameConfigEntry>)
    ensures
        entry.deep_view() == cname_entry_of(line@),
{
    let chars = chars_of(line);
    let prefix = chars_of(CNAME_PREFIX);
    let from: usize = if has_cname_prefix(&chars) {
        prefix.len()
    } else {
        0
    };
    let body = substring(&chars, from, chars.len());
    assert(body@ =~= strip_prefix(line@, CNAME_PREFIX@));
    let fields = split(body.as_str(), ',');
    if fields.len() != 2 {
        return None;
    }
    assert(fields.deep_view()[0] == fields@[0]@);
    assert(fields.deep_view()[1] == fields@[1]@);
    let domain = fields[0].clone();
    let target = fields[1].clone();
    Some(CNameConfigEntry { domain, target })
}

/// Reads the alias mappings out of `contents`, line by line.
pub fn get_cname_entries(contents: &str) -> (entries: Vec<CNameConfigEntry>)
    ensures
        entries.deep_view() == cname_entries(contents@),
{
    let all = lines(contents);
    let mut entries: Vec<CNameConfigEntry> = Vec::new();
    let mut i: usize = 0;
    assert(all.deep_view().take(0) =~= Seq::empty());
    assert(entries.deep_view() =~= Seq::empty());
    while i < all.len()
        invariant
            i <= all.len(),
            all.deep_view() == lines_of(contents@),
            entries.deep_view() == cname_entries_in(all.deep_view().take(i as int)),
        decreases all.len() - i,
    {
        proof {
            let upto = all.deep_view().take(i + 1);
            assert(upto.drop_last() =~= all.deep_view().take(i as int));
            assert(upto.last() == all@[i as int]@);
        }
        match parse_cname_line(all[i].as_str()) {
            Some(entry) => {
                let ghost before = entries.deep_view();
                entries.push(entry);
                assert(entries.deep_view() =~= before.push(entry.deep_view()));
            },
            None => {},
        }
        i += 1;
    }
    assert(all.deep_view().take(all.len() as int) =~= all.deep_view());
    entries
}

/// The lines of `contents` that are passed over when the name mappings are
/// read, in order, so that the caller can report them.
pub fn get_skipped_dns_lines(contents: &str) -> (skipped: Vec<String>)
    ensures
        skipped.deep_view() == skipped_dns_lines(contents@),
{
    let all = lines(contents);
    let ghost whole = all.deep_view();
    let mut skipped: Vec<String> = Vec::new();
    assert(skipped.deep_view() =~= Seq::empty());
    assert(whole.take(0).len() == 0);
    let n: usize = all.len();
    let mut i: usize = 0;
    while i < n
        invariant
            i <= n,
            n == all.len(),
            all.deep_view() == whole,
            skipped.deep_view() == unread_dns_lines(whole.take(i as int)),
        decreases n - i,
    {
        proof {
            let upto = whole.take(i + 1);
            assert(upto.drop_last() =~= whole.take(i as int));
            assert(upto.last() == all@[i as int]@);
        }
        if parse_dns_line(all[i].as_str()).is_none() {
            let line = all[i].clone();
            let ghost before = skipped.deep_view();
            skipped.push(line);
            assert(skipped.deep_view() =~= before.push(line@));
        }
        i += 1;
    }
    assert(whole.take(n as int) =~= whole);
    skipped
}

/// The lines of `contents` that are passed over when the alias mappings are
/// read, in order, so that the caller can report them.
pub fn get_skipped_cname_lines(contents: &str) -> (skipped: Vec<String>)
    ensures
        skipped.deep_view() == skipped_cname_lines(contents@),
{
    let all = lines(contents);
    let ghost whole = all.deep_view();
    let mut skipped: Vec<String> = Vec::new();
    assert(skipped.deep_view() =~= Seq::empty());
    assert(whole.take(0).len() == 0);
    let n: usize = all.len();
    let mut i: usize = 0;
    while i < n
        invariant
            i <= n,
            n == all.len(),
            all.deep_view() == whole,
            skipped.deep_view() == unread_cname_lines(whole.take(i as int)),
        decreases n - i,
    {
        proof {
            let upto = whole.take(i + 1);
            assert(upto.drop_last() =~= whole.take(i as int));
            assert(upto.last() == all@[i as int]@);
        }
        if parse_cname_line(all[i].as_str()).is_none() {
            let line = all[i].clone();
            let ghost before = skipped.deep_view();
            skipped.push(line);
            assert(skipped.deep_view() =~= before.push(line@));
        }
        i += 1;
    }
    assert(whole.take(n as int) =~= whole);
    skipped
}

/// One request `verb` for each of `entries`, in order.
pub fn dns_commands(verb: &str, entries: &Vec<CustomDNSEntry>) -> (commands: Vec<Vec<String>>)
    ensures
        commands.deep_view() == dns_requests(verb@, entries.deep_view()),
{
    let mut commands: Vec<Vec<String>> = Vec::new();
    let mut i: usize = 0;
    while i < entries.len()
        invariant
            i <= entries.len(),
            commands.len() == i,
            forall|j: int|
                0 <= j < i ==> commands@[j].deep_view() == entry_args(
                    verb@,
                    entries@[j].ip@,
                    entries@[j].domain@,
                ),
        decreases entries.len() - i,
    {
        let entry = &entries[i];
        commands.push(entry_command(verb, entry.ip.as_str(), entry.domain.as_str()));
        i += 1;
    }
    assert(commands.deep_view() =~= dns_requests(verb@, entries.deep_view()));
    commands
}

/// One request `verb` for each of `entries`, in order.
pub fn cname_commands(verb: &str, entries: &Vec<CNameConfigEntry>) -> (commands: Vec<
    Vec<String>,
>)
    ensures
        commands.deep_view() == cname_requests(verb@, entries.deep_view()),
{
    let mut commands: Vec<Vec<String>> = Vec::new();
    let mut i: usize = 0;
    while i < entries.len()
        invariant
            i <= entries.len(),
            commands.len() == i,
            forall|j: int|
                0 <= j < i ==> commands@[j].deep_view() == entry_args(
                    verb@,
                    entries@[j].domain@,
                    entries@[j].target@,
                ),
        decreases entries.len() - i,
    {
        let entry = &entries[i];
        commands.push(entry_command(verb, entry.domain.as_str(), entry.target.as_str()));
        i += 1;
    }
    assert(commands.deep_view() =~= cname_requests(verb@, entries.deep_view()));
    commands
}

/// The requests that empty the name-mapping store whose text is
/// `existing`: one removal per mapping that the text holds, in order.
pub fn flush_local_dns_entries(existing: &str) -> (commands: Vec<Vec<String>>)
    ensures
        commands.deep_view() == dns_requests("removecustomdns"@, local_dns_entries(existing@)),
{
    let current = get_local_dns_entries(existing);
    dns_commands("removecustomdns", &current)
}

/// The requests that empty the alias-mapping store whose text is
/// `existing`: one removal per mapping that the text holds, in order.
pub fn flush_cname_config(existing: &str) -> (commands: Vec<Vec<String>>)
    ensures
        commands.deep_view() == cname_requests("removecustomcname"@, cname_entries(existing@)),
{
    let current = get_cname_entries(existing);
    cname_commands("removecustomcname", &current)
}

impl CustomDNSEntry {
    /// The line that holds this mapping.
    pub fn to_line(&self) -> (line: String)
        ensures
            line@ == dns_line_of(self.deep_view()),
    {
        let mut line = self.ip.clone();
        line.append(" ");
        line.append(self.domain.as_str());
        proof {
            reveal_strlit(" ");
            assert(" "@ =~= seq![' ']);
        }
        line
    }
}

/// The two mapping stores.
#[derive(Clone, Copy, Debug, PartialEq, Eq, Structural)]
pub enum MappingStore {
    /// Custom name mappings.
    LocalDns,
    /// Custom alias mappings.
    LocalCname,
}

/// Where the reconciliation of a mapping store stands.
#[derive(Clone, Copy, Debug, PartialEq, Eq, Structural)]
pub enum ReconcileStage {
    /// The store's current text is to be read, so that what it holds can be
    /// removed.
    ReadExisting,
    /// The requests are sent one by one, and the reload after the last.
    Requests,
    /// The reconciliation has ended with this count.
    Finished(usize),
    /// The reconciliation was given up.
    Failed(RestoreError),
}

/// The reconciliation of one mapping store with one archive entry.
///
/// With a flush, every mapping that the store holds before the run is
/// removed first. Then every mapping of the entry is added, in the order
/// of the entry and without regard to what was added before. Each request
/// tells the resolver not to reload; one reload follows the last request.
/// A request that fails does not end the reconciliation. It ends with the
/// count 0, or with `ReloadFailed`, or, where the store could not be read
/// for the flush, with `ConfigUnreadable` before any request was sent.
#[derive(Debug, PartialEq, Eq)]
pub struct Reconcile {
    pub store: MappingStore,
    pub stage: ReconcileStage,
    /// The requests to send, in order. The removals are put in front once
    /// the store has been read.
    pub requests: Vec<Vec<String>>,
    /// Index of the request that is sent next.
    pub next: usize,
}

/// A reconciliation of a mapping store as the contracts see it.
pub struct ReconcileView {
    pub store: MappingStore,
    pub stage: ReconcileStage,
    pub requests: Seq<Seq<Seq<char>>>,
    pub next: usize,
}

impl DeepView for Reconcile {
    type V = ReconcileView;

    open spec fn deep_view(&self) -> ReconcileView {
        ReconcileView {
            store: self.store,
            stage: self.stage,
            requests: self.requests.deep_view(),
            next: self.next,
        }
    }
}

/// The file that holds the mappings of `store`.
pub open spec fn store_path(store: MappingStore) -> Seq<char> {
    match store {
        MappingStore::LocalDns => CUSTOM_DNS_FILE@,
        MappingStore::LocalCname => CNAME_CONFIG_FILE@,
    }
}

/// One request to add per mapping that `text` holds.
pub open spec fn additions(store: MappingStore, text: Seq<char>) -> Seq<Seq<Seq<char>>> {
    match store {
        MappingStore::LocalDns => dns_requests("addcustomdns"@, local_dns_entries(text)),
        MappingStore::LocalCname => cname_requests("addcustomcname"@, cname_entries(text)),
    }
}

/// One request to remove per mapping that `text` holds.
pub open spec fn removals(store: MappingStore, text: Seq<char>) -> Seq<Seq<Seq<char>>> {
    match store {
        MappingStore::LocalDns => dns_requests("removecustomdns"@, local_dns_entries(text)),
        MappingStore::LocalCname => cname_requests("removecustomcname"@, cname_entries(text)),
    }
}

/// The reconciliation of `store` with the entry text `incoming`, before
/// anything has been done.
pub open spec fn reconcile_start(
    store: MappingStore,
    incoming: Seq<char>,
    flush: bool,
) -> ReconcileView {
    ReconcileView {
        store,
        stage: if flush {
            ReconcileStage::ReadExisting
        } else {
            ReconcileStage::Requests
        },
        requests: additions(store, incoming),
        next: 0,
    }
}

/// What the caller is asked to do in state `s`.
pub open spec fn reconcile_action(s: ReconcileView) -> ActionView {
    match s.stage {
        ReconcileStage::ReadExisting => ActionView::Read { path: store_path(s.store) },
        ReconcileStage::Requests => if s.next < s.requests.len() {
            ActionView::Run { args: s.requests[s.next as int] }
        } else {
            ActionView::Run { args: reload_args() }
        },
        ReconcileStage::Finished(count) => ActionView::Finish { result: Ok(count) },
        ReconcileStage::Failed(e) => ActionView::Finish { result: Err(e) },
    }
}

/// The state after the caller has answered the action of state `s` with
/// `event`.
pub open spec fn reconcile_next(s: ReconcileView, event: Event) -> ReconcileView {
    match s.stage {
        ReconcileStage::ReadExisting => match event {
            Event::Content(Some(text)) => ReconcileView {
                stage: ReconcileStage::Requests,
                requests: removals(s.store, text@) + s.requests,
                next: 0,
                ..s
            },
            _ => ReconcileView {
                stage: ReconcileStage::Failed(RestoreError::ConfigUnreadable),
                ..s
            },
        },
        ReconcileStage::Requests => if s.next < s.requests.len() {
            ReconcileView { next: (s.next + 1) as usize, ..s }
        } else if event is Done {
            ReconcileView { stage: ReconcileStage::Finished(0), ..s }
        } else {
            ReconcileView { stage: ReconcileStage::Failed(RestoreError::ReloadFailed), ..s }
        },
        _ => s,
    }
}

/// The file that holds the mappings of `store`.
pub fn store_file(store: MappingStore) -> (path: &'static str)
    ensures
        path@ == store_path(store),
{
    match store {
        MappingStore::LocalDns => CUSTOM_DNS_FILE,
        MappingStore::LocalCname => CNAME_CONFIG_FILE,
    }
}

/// Starts the reconciliation of the name mappings with the entry text
/// `incoming`.
pub fn process_local_dns_entries(incoming: &str, flush: bool) -> (run: Reconcile)
    ensures
        run.deep_view() == reconcile_start(MappingStore::LocalDns, incoming@, flush),
{
    let entries = get_local_dns_entries(incoming);
    Reconcile {
        store: MappingStore::LocalDns,
        stage: if flush {
            ReconcileStage::ReadExisting
        } else {
            ReconcileStage::Requests
        },
        requests: dns_commands("addcustomdns", &entries),
        next: 0,
    }
}

/// Starts the reconciliation of the alias mappings with the entry text
/// `incoming`.
pub fn process_local_cname_entries(incoming: &str, flush: bool) -> (run: Reconcile)
    ensures
        run.deep_view() == reconcile_start(MappingStore::LocalCname, incoming@, flush),
{
    let entries = get_cname_entries(incoming);
    Reconcile {
        store: MappingStore::LocalCname,
        stage: if flush {
            ReconcileStage::ReadExisting
        } else {
            ReconcileStage::Requests
        },
        requests: cname_commands("addcustomcname", &entries),
        next: 0,
    }
}

impl Reconcile {
    /// What the caller is asked to do now.
    pub fn action(&self) -> (action: Action)
        ensures
            action.deep_view() == reconcile_action(self.deep_view()),
    {
        match self.stage {
            ReconcileStage::ReadExisting => Action::Read {
                path: String::from_str(store_file(self.store)),
            },
            ReconcileStage::Requests => {
                if self.next < self.requests.len() {
                    Action::Run { args: copy_args(&self.requests[self.next]) }
                } else {
                    Action::Run { args: restart_dns() }
                }
            },
            ReconcileStage::Finished(count) => Action::Finish { result: Ok(count) },
            ReconcileStage::Failed(e) => Action::Finish { result: Err(e) },
        }
    }

    /// Takes the caller's answer to the current action and moves on.
    pub fn advance(&mut self, event: Event)
        ensures
            final(self).deep_view() == reconcile_next(old(self).deep_view(), event),
    {
        match self.stage {
            ReconcileStage::ReadExisting => {
                match event {
                    Event::Content(Some(text)) => {
                        let mut requests = match self.store {
                            MappingStore::LocalDns => flush_local_dns_entries(text.as_str()),
                            MappingStore::LocalCname => flush_cname_config(text.as_str()),
                        };
                        let ghost front = requests.deep_view();
                        let ghost back = self.requests.deep_view();
                        requests.append(&mut self.requests);
                        assert(requests.deep_view() =~= front + back);
                        self.requests = requests;
                        self.next = 0;
                        self.stage = ReconcileStage::Requests;
                    },
                    _ => {
                        self.stage = ReconcileStage::Failed(RestoreError::ConfigUnreadable);
                    },
                }
            },
            ReconcileStage::Requests => {
                if self.next < self.requests.len() {
                    self.next = self.next + 1;
                } else {
                    self.stage = match event {
                        Event::Done => ReconcileStage::Finished(0),
                        _ => ReconcileStage::Failed(RestoreError::ReloadFailed),
                    };
                }
            },
            _ => {},
        }
    }
}

} // verus!
