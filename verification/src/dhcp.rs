//! Reconciliation of the static address reservations: the line format with
//! its two-field ambiguity, the check against what the store already holds,
//! and the requests that add what is new.

use crate::action::{Action, ActionView, Event};
use crate::addr::{get_mac_addr, is_ip_literal, is_valid_ip_addr, mac_token};
use crate::cli::{reload_args, reservation_args, reservation_command, restart_dns};
use crate::error::RestoreError;
use crate::text::{contains, contains_text, lines, lines_of, split, split_on};
use vstd::prelude::*;
use vstd::string::StringExecFns;

verus! {

/// The file that holds the static reservations.
pub const STATIC_DHCP_CONF_FILE: &'static str = "/etc/dnsmasq.d/04-pihole-static-dhcp.conf";

/// Stands for the host name of a reservation that names none.
pub const NO_HOST: &'static str = "nohost";

/// Stands for the address of a reservation that names none.
pub const NO_IP: &'static str = "noip";

/// A static address reservation.
#[derive(Debug, PartialEq, Eq)]
pub struct StaticDhcpEntry {
    pub mac: String,
    pub ip: String,
    pub hostname: String,
}

/// A reservation as the contracts see it.
pub struct StaticDhcpEntryView {
    pub mac: Seq<char>,
    pub ip: Seq<char>,
    pub hostname: Seq<char>,
}

impl DeepView for StaticDhcpEntry {
    type V = StaticDhcpEntryView;

    open spec fn deep_view(&self) -> StaticDhcpEntryView {
        StaticDhcpEntryView { mac: self.mac@, ip: self.ip@, hostname: self.hostname@ }
    }
}

/// The address and host name that the fields after the first one give.
/// Three fields name both. Of two fields the second is the address where it
/// is an IP literal, and the host name where it is not; what is not named
/// is filled in. Any other number of fields gives nothing.
pub open spec fn address_and_host(fields: Seq<Seq<char>>) -> Option<(Seq<char>, Seq<char>)> {
    if fields.len() == 3 {
        Some((fields[1], fields[2]))
    } else if fields.len() == 2 {
        if is_ip_literal(fields[1]) {
            Some((fields[1], NO_HOST@))
        } else {
            Some((NO_IP@, fields[1]))
        }
    } else {
        None
    }
}

/// The reservation that `line` holds. The line is split at commas; the MAC
/// address is the leftmost one in the first field. A line with the wrong
/// number of fields, or without a MAC address in its first field, holds
/// none.
pub open spec fn reservation_of(line: Seq<char>) -> Option<StaticDhcpEntryView> {
    let fields = split_on(line, ',');
    match (address_and_host(fields), mac_token(fields[0])) {
        (Some((ip, hostname)), Some(mac)) => Some(StaticDhcpEntryView { mac, ip, hostname }),
        _ => None,
    }
}

/// The reservations of `lines`, in order; lines that hold none are passed
/// over.
pub open spec fn reservations_in(lines: Seq<Seq<char>>) -> Seq<StaticDhcpEntryView>
    decreases lines.len(),
{
    if lines.len() == 0 {
        Seq::empty()
    } else {
        let before = reservations_in(lines.drop_last());
        match reservation_of(lines.last()) {
            Some(entry) => before.push(entry),
            None => before,
        }
    }
}

/// The reservations that the text `contents` holds.
pub open spec fn static_dhcp_entries(contents: Seq<char>) -> Seq<StaticDhcpEntryView> {
    reservations_in(lines_of(contents))
}

/// The lines of `lines` that hold no reservation, in order.
pub open spec fn unread_reservation_lines(lines: Seq<Seq<char>>) -> Seq<Seq<char>>
    decreases lines.len(),
{
    if lines.len() == 0 {
        Seq::empty()
    } else {
        let before = unread_reservation_lines(lines.drop_last());
        if reservation_of(lines.last()) is None {
            before.push(lines.last())
        } else {
            before
        }
    }
}

/// The lines of the text `contents` that hold no reservation: those that are
/// passed over when the text is read.
pub open spec fn skipped_static_dhcp_lines(contents: Seq<char>) -> Seq<Seq<char>> {
    unread_reservation_lines(lines_of(contents))
}

/// Whether a reservation for `mac` is passed over as a duplicate: the store
/// was not flushed in this run, it exists, and `mac` stands somewhere in
/// its text.
pub open spec fn is_duplicate(mac: Seq<char>, flushed: bool, existing: Option<Seq<char>>) -> bool {
    !flushed && existing is Some && contains_text(existing->Some_0, mac)
}

/// Reads one line of the reservation store.
pub fn parse_static_dhcp_line(line: &str) -> (entry: Option<StaticDhcpEntry>)
    ensures
        entry.deep_view() == reservation_of(line@),
{
    let fields = split(line, ',');
    let n: usize = fields.len();
    if n != 2 && n != 3 {
        return None;
    }
    assert(fields.deep_view()[0] == fields@[0]@);
    assert(fields.deep_view()[1] == fields@[1]@);
    let (ip, hostname) = if n == 3 {
        assert(fields.deep_view()[2] == fields@[2]@);
        (fields[1].clone(), fields[2].clone())
    } else if is_valid_ip_addr(fields[1].as_str()) {
        (fields[1].clone(), String::from_str(NO_HOST))
    } else {
        (String::from_str(NO_IP), fields[1].clone())
    };
    match get_mac_addr(fields[0].as_str()) {
        Some(mac) => Some(StaticDhcpEntry { mac, ip, hostname }),
        None => None,
    }
}

/// Reads the reservations out of `contents`, line by line.
pub fn get_static_dhcp_entries(contents: &str) -> (entries: Vec<StaticDhcpEntry>)
    ensures
        entries.deep_view() == static_dhcp_entries(contents@),
{
    let all = lines(contents);
    let mut entries: Vec<StaticDhcpEntry> = Vec::new();
    let mut i: usize = 0;
    assert(all.deep_view().take(0) =~= Seq::empty());
    assert(entries.deep_view() =~= Seq::empty());
    while i < all.len()
        invariant
            i <= all.len(),
            all.deep_view() == lines_of(contents@),
            entries.deep_view() == reservations_in(all.deep_view().take(i as int)),
        decreases all.len() - i,
    {
        proof {
            let upto = all.deep_view().take(i + 1);
            assert(upto.drop_last() =~= all.deep_view().take(i as int));
            assert(upto.last() == all@[i as int]@);
        }
        match parse_static_dhcp_line(all[i].as_str()) {
            Some(entry) => {
                let ghost before = entries.deep_view();
                entries.push(entry);
                assert(entries.deep_view() =~= before.push(entry.deep_view()));
            },
            None => {},
        }
        i += 1;
    }
    assert(all.deep_view().take(all.len() as int) =~= all.deep_view());
    entries
}

/// The lines of `contents` that are passed over when the reservations are
/// read, in order, so that the caller can report them.
pub fn get_skipped_static_dhcp_lines(contents: &str) -> (skipped: Vec<String>)
    ensures
        skipped.deep_view() == skipped_static_dhcp_lines(contents@),
{
    let all = lines(contents);
    let ghost whole = all.deep_view();
    let mut skipped: Vec<String> = Vec::new();
    assert(skipped.deep_view() =~= Seq::empty());
    assert(whole.take(0).len() == 0);
    let n: usize = all.len();
    let mut i: usize = 0;
    while i < n
        invariant
            i <= n,
            n == all.len(),
            all.deep_view() == whole,
            skipped.deep_view() == unread_reservation_lines(whole.take(i as int)),
        decreases n - i,
    {
        proof {
            let upto = whole.take(i + 1);
            assert(upto.drop_last() =~= whole.take(i as int));
            assert(upto.last() == all@[i as int]@);
        }
        if parse_static_dhcp_line(all[i].as_str()).is_none() {
            let line = all[i].clone();
            let ghost before = skipped.deep_view();
            skipped.push(line);
            assert(skipped.deep_view() =~= before.push(line@));
        }
        i += 1;
    }
    assert(whole.take(n as int) =~= whole);
    skipped
}

/// Decides about one reservation: the request that adds it, or `None`
/// where it is passed over as a duplicate. `existing` is the store's text,
/// `None` where the store does not exist.
pub fn add_static_dhcp_entry(
    mac: &str,
    ip: &str,
    hostname: &str,
    flushed: bool,
    existing: Option<&str>,
) -> (request: Option<Vec<String>>)
    ensures
        request.deep_view() == if is_duplicate(
            mac@,
            flushed,
            match existing {
                Some(text) => Some(text@),
                None => None,
            },
        ) {
            None
        } else {
            Some(reservation_args(mac@, ip@, hostname@))
        },
{
    if !flushed {
        match existing {
            Some(text) => {
                if contains(text, mac) {
                    return None;
                }
            },
            None => {},
        }
    }
    Some(reservation_command(mac, ip, hostname))
}

/// Where the reconciliation of the reservations stands.
#[derive(Clone, Copy, Debug, PartialEq, Eq, Structural)]
pub enum DhcpStage {
    /// The store is to be emptied.
    Truncate,
    /// The reservations are handled one by one, and the reload after the
    /// last.
    Entries,
    /// The reconciliation has ended with this count.
    Finished(usize),
    /// The reconciliation was given up.
    Failed(RestoreError),
}

/// The reconciliation of the reservation store with one archive entry.
///
/// With a flush the store is emptied first and every reservation of the
/// entry is added. Without one, the store is read again before each
/// reservation, and a reservation whose MAC address stands anywhere in the
/// store's text is passed over. One reload follows the last reservation. A
/// request to add that fails ends the reconciliation with `CommandFailed`,
/// and no reload is asked for; a store that exists but cannot be read ends
/// it with `ConfigUnreadable`. Otherwise it ends with the count 0, or with
/// `ReloadFailed`.
#[derive(Debug, PartialEq, Eq)]
pub struct StaticDhcpRestore {
    pub flush: bool,
    pub stage: DhcpStage,
    /// The reservations of the entry, in order.
    pub entries: Vec<StaticDhcpEntry>,
    /// Index of the reservation that is handled next.
    pub next: usize,
    /// Whether that reservation is known not to be a duplicate.
    pub checked: bool,
}

/// A reconciliation of the reservations as the contracts see it.
pub struct StaticDhcpRestoreView {
    pub flush: bool,
    pub stage: DhcpStage,
    pub entries: Seq<StaticDhcpEntryView>,
    pub next: usize,
    pub checked: bool,
}

impl DeepView for StaticDhcpRestore {
    type V = StaticDhcpRestoreView;

    open spec fn deep_view(&self) -> StaticDhcpRestoreView {
        StaticDhcpRestoreView {
            flush: self.flush,
            stage: self.stage,
            entries: self.entries.deep_view(),
            next: self.next,
            checked: self.checked,
        }
    }
}

/// The reconciliation with the entry text `incoming`, before anything has
/// been done.
pub open spec fn dhcp_start(incoming: Seq<char>, flush: bool) -> StaticDhcpRestoreView {
    StaticDhcpRestoreView {
        flush,
        stage: if flush {
            DhcpStage::Truncate
        } else {
            DhcpStage::Entries
        },
        entries: static_dhcp_entries(incoming),
        next: 0,
        checked: flush,
    }
}

/// The request that adds `entry`.
pub open spec fn add_request(entry: StaticDhcpEntryView) -> Seq<Seq<char>> {
    reservation_args(entry.mac, entry.ip, entry.hostname)
}

/// What the caller is asked to do in state `s`.
pub open spec fn dhcp_action(s: StaticDhcpRestoreView) -> ActionView {
    match s.stage {
        DhcpStage::Truncate => ActionView::Truncate { path: STATIC_DHCP_CONF_FILE@ },
        DhcpStage::Entries => if s.next < s.entries.len() {
            if s.checked {
                ActionView::Run { args: add_request(s.entries[s.next as int]) }
            } else {
                ActionView::Read { path: STATIC_DHCP_CONF_FILE@ }
            }
        } else {
            ActionView::Run { args: reload_args() }
        },
        DhcpStage::Finished(count) => ActionView::Finish { result: Ok(count) },
        DhcpStage::Failed(e) => ActionView::Finish { result: Err(e) },
    }
}

/// State `s` with the current reservation left behind.
pub open spec fn dhcp_skip(s: StaticDhcpRestoreView) -> StaticDhcpRestoreView {
    StaticDhcpRestoreView { next: (s.next + 1) as usize, checked: s.flush, ..s }
}

/// The state after the caller has answered the action of state `s` with
/// `event`.
pub open spec fn dhcp_next(s: StaticDhcpRestoreView, event: Event) -> StaticDhcpRestoreView {
    match s.stage {
        DhcpStage::Truncate => StaticDhcpRestoreView {
            stage: DhcpStage::Entries,
            next: 0,
            checked: s.flush,
            ..s
        },
        DhcpStage::Entries => if s.next < s.entries.len() {
            if s.checked {
                if event is Done {
                    dhcp_skip(s)
                } else {
                    StaticDhcpRestoreView {
                        stage: DhcpStage::Failed(RestoreError::CommandFailed),
                        ..s
                    }
                }
            } else {
                match event {
                    Event::Content(Some(text)) => if contains_text(
                        text@,
                        s.entries[s.next as int].mac,
                    ) {
                        dhcp_skip(s)
                    } else {
                        StaticDhcpRestoreView { checked: true, ..s }
                    },
                    Event::Content(None) => StaticDhcpRestoreView { checked: true, ..s },
                    _ => StaticDhcpRestoreView {
                        stage: DhcpStage::Failed(RestoreError::ConfigUnreadable),
                        ..s
                    },
                }
            }
        } else if event is Done {
            StaticDhcpRestoreView { stage: DhcpStage::Finished(0), ..s }
        } else {
            StaticDhcpRestoreView { stage: DhcpStage::Failed(RestoreError::ReloadFailed), ..s }
        },
        _ => s,
    }
}

/// Starts the reconciliation of the reservations with the entry text
/// `incoming`.
pub fn process_static_dhcp(incoming: &str, flush: bool) -> (run: StaticDhcpRestore)
    ensures
        run.deep_view() == dhcp_start(incoming@, flush),
{
    StaticDhcpRestore {
        flush,
        stage: if flush {
            DhcpStage::Truncate
        } else {
            DhcpStage::Entries
        },
        entries: get_static_dhcp_entries(incoming),
        next: 0,
        checked: flush,
    }
}

impl StaticDhcpRestore {
    /// What the caller is asked to do now.
    pub fn action(&self) -> (action: Action)
        ensures
            action.deep_view() == dhcp_action(self.deep_view()),
    {
        match self.stage {
            DhcpStage::Truncate => Action::Truncate {
                path: String::from_str(STATIC_DHCP_CONF_FILE),
            },
            DhcpStage::Entries => {
                if self.next < self.entries.len() {
                    if self.checked {
                        let entry = &self.entries[self.next];
                        Action::Run {
                            args: reservation_command(
                                entry.mac.as_str(),
                                entry.ip.as_str(),
                                entry.hostname.as_str(),
                            ),
                        }
                    } else {
                        Action::Read { path: String::from_str(STATIC_DHCP_CONF_FILE) }
                    }
                } else {
                    Action::Run { args: restart_dns() }
                }
            },
            DhcpStage::Finished(count) => Action::Finish { result: Ok(count) },
            DhcpStage::Failed(e) => Action::Finish { result: Err(e) },
        }
    }

    /// Takes the caller's answer to the current action and moves on.
    pub fn advance(&mut self, event: Event)
        ensures
            final(self).deep_view() == dhcp_next(old(self).deep_view(), event),
    {
        match self.stage {
            DhcpStage::Truncate => {
                self.stage = DhcpStage::Entries;
                self.next = 0;
                self.checked = self.flush;
            },
            DhcpStage::Entries => {
                if self.next < self.entries.len() {
                    if self.checked {
                        match event {
                            Event::Done => {
                                self.next = self.next + 1;
                                self.checked = self.flush;
                            },
                            _ => {
                                self.stage = DhcpStage::Failed(RestoreError::CommandFailed);
                            },
                        }
                    } else {
                        match event {
                            Event::Content(existing) => {
                                let entry = &self.entries[self.next];
                                let text: Option<&str> = match &existing {
                                    Some(s) => Some(s.as_str()),
                                    None => None,
                                };
                                let request = add_static_dhcp_entry(
                                    entry.mac.as_str(),
                                    entry.ip.as_str(),
                                    entry.hostname.as_str(),
                                    false,
                                    text,
                                );
                                if request.is_some() {
                                    self.checked = true;
                                } else {
                                    self.next = self.next + 1;
                                    self.checked = self.flush;
                                }
                            },
                            _ => {
                                self.stage = DhcpStage::Failed(RestoreError::ConfigUnreadable);
                            },
                        }
                    }
                } else {
                    self.stage = match event {
                        Event::Done => DhcpStage::Finished(0),
                        _ => DhcpStage::Failed(RestoreError::ReloadFailed),
                    };
                }
            },
            _ => {},
        }
    }
}

} // verus!
