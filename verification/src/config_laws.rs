//! Properties of the config-store reconcilers and of the routing, each
//! stated for every input and proved.

use crate::action::{ActionView, Event};
use crate::addr::{is_ip_literal, mac_token};
use crate::cli::reload_args;
use crate::dhcp::{
    add_request, dhcp_action, dhcp_next, dhcp_skip, dhcp_start, reservation_of,
    reservations_in, unread_reservation_lines, DhcpStage, StaticDhcpEntryView,
    StaticDhcpRestoreView, NO_HOST, NO_IP, STATIC_DHCP_CONF_FILE,
};
use crate::dispatch::{
    dispatch_of, entry_restore_of, entry_target, every_category, owns, selects, Category,
    Dispatch, Target,
};
use crate::tables::{DomainType, TableKind};
use crate::dns::{
    additions, dns_entry_of, dns_line_of, reconcile_action, reconcile_next, reconcile_start,
    removals, store_path, CustomDNSEntryView, MappingStore, ReconcileStage, ReconcileView,
};
use crate::error::RestoreError;
use crate::text::{contains_text, find_char, lemma_find_char, lemma_find_char_is, split_on};
use vstd::prelude::*;

verus! {

/// A reservation line with three fields gives the MAC address of its first
/// field, and its second and third field unchanged.
pub proof fn law_three_fields(line: Seq<char>)
    requires
        split_on(line, ',').len() == 3,
        mac_token(split_on(line, ',')[0]) is Some,
    ensures
        reservation_of(line) == Some(
            StaticDhcpEntryView {
                mac: mac_token(split_on(line, ',')[0])->Some_0,
                ip: split_on(line, ',')[1],
                hostname: split_on(line, ',')[2],
            },
        ),
{
}

/// A reservation line with two fields whose second is an IP literal gives
/// that address, and the stand-in for a missing host name.
pub proof fn law_two_fields_with_address(line: Seq<char>)
    requires
        split_on(line, ',').len() == 2,
        mac_token(split_on(line, ',')[0]) is Some,
        is_ip_literal(split_on(line, ',')[1]),
    ensures
        reservation_of(line) == Some(
            StaticDhcpEntryView {
                mac: mac_token(split_on(line, ',')[0])->Some_0,
                ip: split_on(line, ',')[1],
                hostname: NO_HOST@,
            },
        ),
{
}

/// A reservation line with two fields whose second is no IP literal gives
/// that field as the host name, and the stand-in for a missing address.
pub proof fn law_two_fields_with_host(line: Seq<char>)
    requires
        split_on(line, ',').len() == 2,
        mac_token(split_on(line, ',')[0]) is Some,
        !is_ip_literal(split_on(line, ',')[1]),
    ensures
        reservation_of(line) == Some(
            StaticDhcpEntryView {
                mac: mac_token(split_on(line, ',')[0])->Some_0,
                ip: NO_IP@,
                hostname: split_on(line, ',')[1],
            },
        ),
{
}

/// The reservations of two runs of lines, one after the other.
pub proof fn lemma_reservations_concat(a: Seq<Seq<char>>, b: Seq<Seq<char>>)
    ensures
        reservations_in(a + b) == reservations_in(a) + reservations_in(b),
    decreases b.len(),
{
    if b.len() == 0 {
        assert(a + b =~= a);
        assert(reservations_in(a) + reservations_in(b) =~= reservations_in(a));
    } else {
        lemma_reservations_concat(a, b.drop_last());
        assert((a + b).drop_last() =~= a + b.drop_last());
        assert((a + b).last() == b.last());
        let front = reservations_in(a) + reservations_in(b.drop_last());
        match reservation_of(b.last()) {
            Some(entry) => {
                assert(front.push(entry) =~= reservations_in(a) + reservations_in(
                    b.drop_last(),
                ).push(entry));
            },
            None => {},
        }
    }
}

/// Every line is either read as a reservation or reported as passed over.
pub proof fn law_every_line_is_read_or_reported(lines: Seq<Seq<char>>)
    ensures
        reservations_in(lines).len() + unread_reservation_lines(lines).len() == lines.len(),
    decreases lines.len(),
{
    if lines.len() > 0 {
        law_every_line_is_read_or_reported(lines.drop_last());
    }
}

/// A line with one field, or with four or more, gives no reservation. It
/// is reported as passed over, and the reservations of a text are the same
/// with that line and without it: nothing is ever added for it.
pub proof fn law_malformed_line_adds_nothing(
    before: Seq<Seq<char>>,
    line: Seq<char>,
    after: Seq<Seq<char>>,
)
    requires
        split_on(line, ',').len() != 2,
        split_on(line, ',').len() != 3,
    ensures
        reservation_of(line) is None,
        unread_reservation_lines(before + seq![line]) == unread_reservation_lines(before).push(
            line,
        ),
        reservations_in(before + seq![line] + after) == reservations_in(before + after),
{
    assert((before + seq![line]).drop_last() =~= before);
    let one = seq![line];
    assert(one.drop_last().len() == 0);
    assert(reservations_in(one.drop_last()).len() == 0);
    assert(reservations_in(one) =~= Seq::empty());
    lemma_reservations_concat(before, one);
    lemma_reservations_concat(before + one, after);
    lemma_reservations_concat(before, after);
    assert(reservations_in(before) + reservations_in(one) =~= reservations_in(before));
}

/// The state that a reconciliation of the reservations reaches from `s`
/// when the caller's answers are `events`, in order.
pub open spec fn dhcp_run(s: StaticDhcpRestoreView, events: Seq<Event>) -> StaticDhcpRestoreView
    decreases events.len(),
{
    if events.len() == 0 {
        s
    } else {
        dhcp_run(dhcp_next(s, events[0]), events.skip(1))
    }
}

/// A run can be cut in two: the second part starts where the first ended.
pub proof fn lemma_dhcp_run_split(s: StaticDhcpRestoreView, a: Seq<Event>, b: Seq<Event>)
    ensures
        dhcp_run(s, a + b) == dhcp_run(dhcp_run(s, a), b),
    decreases a.len(),
{
    if a.len() == 0 {
        assert(a + b =~= b);
    } else {
        assert((a + b)[0] == a[0]);
        assert((a + b).skip(1) =~= a.skip(1) + b);
        lemma_dhcp_run_split(dhcp_next(s, a[0]), a.skip(1), b);
    }
}

/// Without a flush, a reservation whose MAC address stands in the store's
/// text is passed over: the store is read, and the next thing asked for is
/// no request to add it but whatever the next reservation, or the end of
/// the entry, calls for.
pub proof fn law_duplicate_is_skipped(s: StaticDhcpRestoreView, text: String)
    requires
        s.stage == DhcpStage::Entries,
        s.entries.len() <= usize::MAX,
        s.next < s.entries.len(),
        !s.flush,
        !s.checked,
        contains_text(text@, s.entries[s.next as int].mac),
    ensures
        dhcp_action(s) == (ActionView::Read { path: STATIC_DHCP_CONF_FILE@ }),
        dhcp_next(s, Event::Content(Some(text))) == dhcp_skip(s),
        dhcp_action(dhcp_skip(s)) == if s.next + 1 < s.entries.len() {
            ActionView::Read { path: STATIC_DHCP_CONF_FILE@ }
        } else {
            ActionView::Run { args: reload_args() }
        },
{
}

/// Without a flush, a reservation whose MAC address does not stand in the
/// store's text, or whose store does not exist, is added next.
pub proof fn law_new_reservation_is_added(s: StaticDhcpRestoreView, existing: Option<String>)
    requires
        s.stage == DhcpStage::Entries,
        s.next < s.entries.len(),
        !s.checked,
        existing matches Some(text) ==> !contains_text(text@, s.entries[s.next as int].mac),
    ensures
        dhcp_action(dhcp_next(s, Event::Content(existing))) == (ActionView::Run {
            args: add_request(s.entries[s.next as int]),
        }),
{
}

/// While the store is flushed, every answer `Done` to a request to add
/// moves on to the next reservation without a look at the store.
pub proof fn lemma_flushed_entries(s: StaticDhcpRestoreView, answers: Seq<Event>)
    requires
        s.stage == DhcpStage::Entries,
        s.flush,
        s.checked,
        s.entries.len() <= usize::MAX,
        s.next + answers.len() <= s.entries.len(),
        forall|i: int| 0 <= i < answers.len() ==> #[trigger] answers[i] is Done,
    ensures
        dhcp_run(s, answers) == (StaticDhcpRestoreView {
            next: (s.next + answers.len()) as usize,
            ..s
        }),
    decreases answers.len(),
{
    if answers.len() > 0 {
        assert(answers[0] is Done);
        let rest = answers.skip(1);
        assert forall|i: int| 0 <= i < rest.len() implies #[trigger] rest[i] is Done by {
            assert(rest[i] == answers[i + 1]);
        }
        lemma_flushed_entries(dhcp_next(s, answers[0]), rest);
    }
}

/// With a flush the store is emptied first, whatever becomes of that, and
/// then every reservation of the entry is added, in order and without a
/// look at the store; the reload follows the last one, and the run ends
/// with the count 0.
pub proof fn law_flush_adds_every_reservation(
    incoming: Seq<char>,
    truncated: Event,
    i: int,
)
    requires
        dhcp_start(incoming, true).entries.len() <= usize::MAX,
        0 <= i < dhcp_start(incoming, true).entries.len(),
    ensures
        ({
            let start = dhcp_start(incoming, true);
            let n = start.entries.len();
            let done = Seq::new(n, |k: int| Event::Done);
            &&& dhcp_action(start) == (ActionView::Truncate {
                path: STATIC_DHCP_CONF_FILE@,
            })
            &&& dhcp_action(dhcp_run(start, seq![truncated] + done.take(i))) == (ActionView::Run {
                args: add_request(start.entries[i]),
            })
            &&& dhcp_action(dhcp_run(start, seq![truncated] + done)) == (ActionView::Run {
                args: reload_args(),
            })
            &&& dhcp_action(dhcp_run(start, seq![truncated] + done + seq![Event::Done]))
                == (ActionView::Finish { result: Ok(0) })
        }),
{
    let start = dhcp_start(incoming, true);
    let n = start.entries.len();
    let done = Seq::new(n, |k: int| Event::Done);
    let first = seq![truncated];
    assert(first.skip(1).len() == 0);
    assert(dhcp_run(dhcp_next(start, truncated), first.skip(1)) == dhcp_next(start, truncated));
    let entries = dhcp_run(start, first);
    lemma_dhcp_run_split(start, first, done.take(i));
    lemma_dhcp_run_split(start, first, done);
    lemma_flushed_entries(entries, done.take(i));
    lemma_flushed_entries(entries, done);
    let last = dhcp_run(start, first + done);
    lemma_dhcp_run_split(start, first + done, seq![Event::Done]);
    let end = seq![Event::Done];
    assert(end.skip(1).len() == 0);
    assert(dhcp_run(dhcp_next(last, Event::Done), end.skip(1)) == dhcp_next(last, Event::Done));
}

/// A request to add that fails ends the reconciliation of the
/// reservations: what is asked for next is nothing but to finish, with
/// `CommandFailed`, and no answer changes that.
pub proof fn law_failed_add_ends_reservations(s: StaticDhcpRestoreView, event: Event, later: Event)
    requires
        s.stage == DhcpStage::Entries,
        s.next < s.entries.len(),
        s.checked,
        !(event is Done),
    ensures
        dhcp_action(dhcp_next(s, event)) == (ActionView::Finish {
            result: Err(RestoreError::CommandFailed),
        }),
        dhcp_next(dhcp_next(s, event), later) == dhcp_next(s, event),
{
}

/// A text has at least one field.
pub proof fn lemma_split_nonempty(s: Seq<char>, sep: char)
    ensures
        split_on(s, sep).len() >= 1,
    decreases s.len(),
{
    lemma_find_char(s, sep);
    let i = find_char(s, sep);
    if 0 <= i < s.len() {
        lemma_split_nonempty(s.skip(i + 1), sep);
    }
}

/// A line with two fields is the first field, the separator, and the
/// second field.
pub proof fn lemma_two_fields(line: Seq<char>, sep: char)
    requires
        split_on(line, sep).len() == 2,
    ensures
        line == split_on(line, sep)[0] + seq![sep] + split_on(line, sep)[1],
{
    lemma_find_char(line, sep);
    let i = find_char(line, sep);
    let rest = line.skip(i + 1);
    lemma_find_char(rest, sep);
    let tail = split_on(rest, sep);
    let j = find_char(rest, sep);
    if 0 <= j < rest.len() {
        lemma_split_nonempty(rest.skip(j + 1), sep);
    }
    assert(split_on(line, sep) == seq![line.take(i)] + tail);
    assert(tail.len() == 1);
    assert(tail[0] == rest);
    assert(split_on(line, sep)[0] == line.take(i));
    assert(split_on(line, sep)[1] == tail[0]);
    assert(line =~= line.take(i) + seq![sep] + rest);
}

/// Two texts without the separator, joined by it, split into just those
/// two.
pub proof fn lemma_join_splits(first: Seq<char>, second: Seq<char>, sep: char)
    requires
        forall|i: int| 0 <= i < first.len() ==> first[i] != sep,
        forall|i: int| 0 <= i < second.len() ==> second[i] != sep,
    ensures
        split_on(first + seq![sep] + second, sep) == seq![first, second],
{
    let line = first + seq![sep] + second;
    lemma_find_char_is(line, sep, first.len() as int);
    assert(line.take(first.len() as int) =~= first);
    assert(line.skip(first.len() as int + 1) =~= second);
    lemma_find_char_is(second, sep, second.len() as int);
    assert(split_on(second, sep) == seq![second]);
    assert(seq![first] + seq![second] =~= seq![first, second]);
}

/// A line that holds a name mapping is the line that its mapping is
/// written as: reading and writing give the line back.
pub proof fn law_dns_line_round_trip(line: Seq<char>)
    requires
        dns_entry_of(line) is Some,
    ensures
        dns_line_of(dns_entry_of(line)->Some_0) == line,
{
    lemma_two_fields(line, ' ');
}

/// A name mapping whose fields hold no space is read back from its line
/// with both fields unchanged.
pub proof fn law_dns_entry_round_trip(entry: CustomDNSEntryView)
    requires
        forall|i: int| 0 <= i < entry.ip.len() ==> entry.ip[i] != ' ',
        forall|i: int| 0 <= i < entry.domain.len() ==> entry.domain[i] != ' ',
    ensures
        dns_entry_of(dns_line_of(entry)) == Some(entry),
{
    lemma_join_splits(entry.ip, entry.domain, ' ');
}

/// The state that a reconciliation of a mapping store reaches from `s`
/// when the caller's answers are `events`, in order.
pub open spec fn reconcile_run(s: ReconcileView, events: Seq<Event>) -> ReconcileView
    decreases events.len(),
{
    if events.len() == 0 {
        s
    } else {
        reconcile_run(reconcile_next(s, events[0]), events.skip(1))
    }
}

/// A run can be cut in two: the second part starts where the first ended.
pub proof fn lemma_reconcile_run_split(s: ReconcileView, a: Seq<Event>, b: Seq<Event>)
    ensures
        reconcile_run(s, a + b) == reconcile_run(reconcile_run(s, a), b),
    decreases a.len(),
{
    if a.len() == 0 {
        assert(a + b =~= b);
    } else {
        assert((a + b)[0] == a[0]);
        assert((a + b).skip(1) =~= a.skip(1) + b);
        lemma_reconcile_run_split(reconcile_next(s, a[0]), a.skip(1), b);
    }
}

/// While requests are left, every answer moves on to the next request,
/// whatever the answer is.
pub proof fn lemma_requests_stage(s: ReconcileView, answers: Seq<Event>)
    requires
        s.stage == ReconcileStage::Requests,
        s.requests.len() <= usize::MAX,
        s.next + answers.len() <= s.requests.len(),
    ensures
        reconcile_run(s, answers) == (ReconcileView {
            next: (s.next + answers.len()) as usize,
            ..s
        }),
    decreases answers.len(),
{
    if answers.len() > 0 {
        lemma_requests_stage(reconcile_next(s, answers[0]), answers.skip(1));
    }
}

/// The requests of a reconciliation: with a flush one removal for each
/// mapping that the store held before the run, then in either case one
/// addition for each mapping of the entry. Mappings of the entry are not
/// compared with each other nor with the store.
pub open spec fn reconcile_requests(
    store: MappingStore,
    incoming: Seq<char>,
    existing: Option<Seq<char>>,
) -> Seq<Seq<Seq<char>>> {
    match existing {
        Some(text) => removals(store, text) + additions(store, incoming),
        None => additions(store, incoming),
    }
}

/// A reconciliation without a flush sends one addition per mapping of the
/// entry, in order, whatever the answers are; then it asks for one reload
/// and ends with the count 0.
pub proof fn law_reconcile_sends_every_request(
    store: MappingStore,
    incoming: Seq<char>,
    answers: Seq<Event>,
    i: int,
)
    requires
        additions(store, incoming).len() <= usize::MAX,
        answers.len() == additions(store, incoming).len(),
        0 <= i < answers.len(),
    ensures
        ({
            let start = reconcile_start(store, incoming, false);
            &&& reconcile_action(reconcile_run(start, answers.take(i))) == (ActionView::Run {
                args: additions(store, incoming)[i],
            })
            &&& reconcile_action(reconcile_run(start, answers)) == (ActionView::Run {
                args: reload_args(),
            })
            &&& reconcile_action(reconcile_run(start, answers + seq![Event::Done]))
                == (ActionView::Finish { result: Ok(0) })
        }),
{
    let start = reconcile_start(store, incoming, false);
    lemma_requests_stage(start, answers.take(i));
    lemma_requests_stage(start, answers);
    lemma_reconcile_run_split(start, answers, seq![Event::Done]);
    let last = reconcile_run(start, answers);
    let end = seq![Event::Done];
    assert(end.skip(1).len() == 0);
    assert(reconcile_run(reconcile_next(last, Event::Done), end.skip(1)) == reconcile_next(
        last,
        Event::Done,
    ));
}

/// A reconciliation with a flush reads the store first; then it sends one
/// removal per mapping that the store held, in order, and after them one
/// addition per mapping of the entry, in order, whatever the answers are;
/// then it asks for one reload and ends with the count 0.
pub proof fn law_flush_removes_before_adding(
    store: MappingStore,
    incoming: Seq<char>,
    existing: String,
    answers: Seq<Event>,
    i: int,
)
    requires
        reconcile_requests(store, incoming, Some(existing@)).len() <= usize::MAX,
        answers.len() == reconcile_requests(store, incoming, Some(existing@)).len(),
        0 <= i < answers.len(),
    ensures
        ({
            let start = reconcile_start(store, incoming, true);
            let read = seq![Event::Content(Some(existing))];
            &&& reconcile_action(start) == (ActionView::Read {
                path: store_path(store),
            })
            &&& reconcile_action(reconcile_run(start, read + answers.take(i)))
                == (ActionView::Run {
                args: reconcile_requests(store, incoming, Some(existing@))[i],
            })
            &&& reconcile_action(reconcile_run(start, read + answers)) == (ActionView::Run {
                args: reload_args(),
            })
            &&& reconcile_action(reconcile_run(start, read + answers + seq![Event::Done]))
                == (ActionView::Finish { result: Ok(0) })
        }),
{
    let start = reconcile_start(store, incoming, true);
    let content = Event::Content(Some(existing));
    let read = seq![content];
    assert(read.skip(1).len() == 0);
    assert(reconcile_run(reconcile_next(start, content), read.skip(1)) == reconcile_next(
        start,
        content,
    ));
    let ready = reconcile_run(start, read);
    lemma_reconcile_run_split(start, read, answers.take(i));
    lemma_reconcile_run_split(start, read, answers);
    lemma_requests_stage(ready, answers.take(i));
    lemma_requests_stage(ready, answers);
    let last = reconcile_run(start, read + answers);
    lemma_reconcile_run_split(start, read + answers, seq![Event::Done]);
    let end = seq![Event::Done];
    assert(end.skip(1).len() == 0);
    assert(reconcile_run(reconcile_next(last, Event::Done), end.skip(1)) == reconcile_next(
        last,
        Event::Done,
    ));
}

/// A store that cannot be read for the flush ends the reconciliation
/// before any request is sent.
pub proof fn law_unreadable_store_ends_reconcile(
    store: MappingStore,
    incoming: Seq<char>,
    event: Event,
)
    requires
        !(event matches Event::Content(Some(_))),
    ensures
        reconcile_action(reconcile_next(reconcile_start(store, incoming, true), event))
            == (ActionView::Finish { result: Err(RestoreError::ConfigUnreadable) }),
{
}

/// Under the filter word `all` every known entry is restored: each target
/// has a category that owns it.
pub proof fn law_all_filters_select_every_target(target: Target)
    ensures
        selects(every_category(), target),
{
    let all = every_category();
    let at: int = match target {
        Target::Table(TableKind::DomainList(DomainType::Blacklist)) => 0,
        Target::Table(TableKind::DomainList(DomainType::BlacklistRegex)) => 1,
        Target::Table(TableKind::DomainList(DomainType::Whitelist)) => 2,
        Target::Table(TableKind::DomainList(DomainType::WhitelistRegex)) => 3,
        Target::Table(TableKind::AdList) => 4,
        Target::Table(TableKind::DomainAudit) => 5,
        Target::Table(TableKind::Group) => 6,
        Target::Table(TableKind::Client) => 7,
        Target::Table(TableKind::ClientByGroup) => 7,
        Target::Table(TableKind::DomainListByGroup) => 0,
        Target::Table(TableKind::AdListByGroup) => 4,
        Target::StaticDhcp => 8,
        Target::LocalDns => 9,
        Target::LocalCname => 10,
    };
    assert(owns(all[at], target));
}

/// An entry that no selected category owns is skipped, and starts no
/// restore.
pub proof fn law_unselected_entry_starts_nothing(
    name: Seq<char>,
    filters: Seq<Category>,
    content: Seq<char>,
    flush: bool,
)
    requires
        entry_target(name) is Some,
        forall|i: int| 0 <= i < filters.len() ==> !owns(filters[i], entry_target(name)->Some_0),
    ensures
        dispatch_of(name, filters) == Dispatch::Skipped(entry_target(name)->Some_0),
        entry_restore_of(name, filters, content, flush) is None,
{
}

/// A reconciliation that has ended stays ended, whatever the caller
/// answers.
pub proof fn law_ended_reconciliation_is_final(
    r: ReconcileView,
    d: StaticDhcpRestoreView,
    event: Event,
)
    requires
        r.stage is Finished || r.stage is Failed,
        d.stage is Finished || d.stage is Failed,
    ensures
        reconcile_action(r) is Finish,
        reconcile_next(r, event) == r,
        dhcp_action(d) is Finish,
        dhcp_next(d, event) == d,
{
}

/// An archive entry whose name is not known is ignored whatever the
/// filters are, and starts no restore: nothing is asked of the caller on
/// its account.
pub proof fn law_unknown_entry_starts_nothing(
    name: Seq<char>,
    filters: Seq<Category>,
    content: Seq<char>,
    flush: bool,
)
    requires
        entry_target(name) is None,
    ensures
        dispatch_of(name, filters) == Dispatch::Ignored,
        entry_restore_of(name, filters, content, flush) is None,
{
}

} // verus!
