use pihole_restore::action::{Action, Event};
use pihole_restore::cli::{copy_args, entry_command, reservation_command, restart_dns};
use pihole_restore::dispatch::{
    all_filters, category_of, category_owns, dispatch, is_selected, parse_filters, restore_entry,
    start_restore, target_of, Category, Dispatch, EntryRestore, Target,
};
use pihole_restore::error::RestoreError;
use pihole_restore::tables::{DomainType, TableKind};

const KNOWN: [(&str, Target, Category); 14] = [
    (
        "blacklist.exact.json",
        Target::Table(TableKind::DomainList(DomainType::Blacklist)),
        Category::Blacklist,
    ),
    (
        "blacklist.regex.json",
        Target::Table(TableKind::DomainList(DomainType::BlacklistRegex)),
        Category::BlacklistRegex,
    ),
    (
        "whitelist.exact.json",
        Target::Table(TableKind::DomainList(DomainType::Whitelist)),
        Category::Whitelist,
    ),
    (
        "whitelist.regex.json",
        Target::Table(TableKind::DomainList(DomainType::WhitelistRegex)),
        Category::WhitelistRegex,
    ),
    ("adlist.json", Target::Table(TableKind::AdList), Category::AdList),
    ("domain_audit.json", Target::Table(TableKind::DomainAudit), Category::AuditLog),
    ("group.json", Target::Table(TableKind::Group), Category::Group),
    ("client.json", Target::Table(TableKind::Client), Category::Client),
    ("client_by_group.json", Target::Table(TableKind::ClientByGroup), Category::Client),
    (
        "domainlist_by_group.json",
        Target::Table(TableKind::DomainListByGroup),
        Category::WhitelistRegex,
    ),
    ("adlist_by_group.json", Target::Table(TableKind::AdListByGroup), Category::AdList),
    ("dnsmasq.d/04-pihole-static-dhcp.conf", Target::StaticDhcp, Category::StaticDhcp),
    ("custom.list", Target::LocalDns, Category::LocalDns),
    ("dnsmasq.d/05-pihole-custom-cname.conf", Target::LocalCname, Category::LocalCname),
];

fn finish(mut restore: EntryRestore, answers: Vec<Event>) -> (Vec<Action>, Result<usize, RestoreError>) {
    let mut answers = answers.into_iter();
    let mut actions = Vec::new();
    loop {
        match restore.action() {
            Action::Finish { result } => return (actions, result),
            action => {
                actions.push(action);
                restore.advance(answers.next().unwrap_or(Event::Done));
            }
        }
        assert!(actions.len() < 1000, "the restore does not end");
    }
}

#[test]
fn every_known_entry_has_its_target() {
    for (name, target, _) in KNOWN {
        assert_eq!(target_of(name), Some(target), "{}", name);
    }
}

#[test]
fn every_known_entry_is_restored_under_all_filters() {
    let filters = all_filters();
    assert_eq!(filters.len(), 11);
    for (name, target, _) in KNOWN {
        assert_eq!(dispatch(name, &filters), Dispatch::Restore(target), "{}", name);
    }
}

#[test]
fn known_entry_is_restored_under_its_own_category_alone() {
    for (name, target, category) in KNOWN {
        assert_eq!(dispatch(name, &vec![category]), Dispatch::Restore(target), "{}", name);
    }
}

#[test]
fn known_entry_is_skipped_where_no_category_selects_it() {
    for (name, target, _) in KNOWN {
        assert_eq!(dispatch(name, &vec![]), Dispatch::Skipped(target), "{}", name);
    }
    assert_eq!(
        dispatch("adlist.json", &vec![Category::Blacklist, Category::Group]),
        Dispatch::Skipped(Target::Table(TableKind::AdList))
    );
    assert_eq!(
        dispatch("blacklist.exact.json", &vec![Category::BlacklistRegex, Category::Whitelist]),
        Dispatch::Skipped(Target::Table(TableKind::DomainList(DomainType::Blacklist)))
    );
}

#[test]
fn domain_list_links_belong_to_each_of_the_four_lists() {
    let links = Target::Table(TableKind::DomainListByGroup);
    for category in [
        Category::Blacklist,
        Category::BlacklistRegex,
        Category::Whitelist,
        Category::WhitelistRegex,
    ] {
        assert!(category_owns(category, links));
        assert_eq!(dispatch("domainlist_by_group.json", &vec![category]), Dispatch::Restore(links));
    }
    for category in [Category::AdList, Category::Group, Category::Client, Category::LocalDns] {
        assert!(!category_owns(category, links));
    }
    assert!(!is_selected(&vec![Category::AdList, Category::Client], links));
    assert!(is_selected(&vec![Category::AdList, Category::Whitelist], links));
}

#[test]
fn client_links_belong_to_the_client_category() {
    assert!(category_owns(Category::Client, Target::Table(TableKind::ClientByGroup)));
    assert!(!category_owns(Category::Group, Target::Table(TableKind::ClientByGroup)));
    assert!(category_owns(Category::AdList, Target::Table(TableKind::AdListByGroup)));
}

#[test]
fn unknown_entry_is_ignored_whatever_the_filters() {
    for name in [
        "",
        "unknown.json",
        "pihole-FTL.conf",
        "setupVars.conf",
        "Blacklist.exact.json",
        "blacklist.exact.json ",
        "./adlist.json",
        "dnsmasq.d/01-pihole.conf",
    ] {
        assert_eq!(target_of(name), None);
        assert_eq!(dispatch(name, &all_filters()), Dispatch::Ignored);
        assert_eq!(dispatch(name, &vec![]), Dispatch::Ignored);
    }
}

#[test]
fn unknown_entry_starts_no_restore() {
    assert_eq!(restore_entry("unknown.json", &all_filters(), "[{\"id\":1}]", true), None);
    assert_eq!(restore_entry("unknown.json", &all_filters(), "10.0.0.5 host.local", false), None);
}

#[test]
fn skipped_entry_starts_no_restore() {
    assert_eq!(restore_entry("custom.list", &vec![Category::AdList], "10.0.0.5 host.local", true), None);
}

#[test]
fn selected_entry_starts_its_restore() {
    let restore =
        restore_entry("custom.list", &vec![Category::LocalDns], "10.0.0.5 host.local", false).unwrap();
    assert!(matches!(restore, EntryRestore::Mappings(_)));
    let (actions, result) = finish(restore, vec![]);
    assert_eq!(actions.len(), 2);
    assert_eq!(result, Ok(0));
}

#[test]
fn each_target_starts_the_matching_restore() {
    assert!(matches!(
        start_restore(Target::Table(TableKind::DomainList(DomainType::Blacklist)), "", true),
        EntryRestore::Table(_)
    ));
    assert!(matches!(
        start_restore(Target::Table(TableKind::Group), "", false),
        EntryRestore::Table(_)
    ));
    assert!(matches!(start_restore(Target::StaticDhcp, "", false), EntryRestore::Reservations(_)));
    assert!(matches!(start_restore(Target::LocalDns, "", false), EntryRestore::Mappings(_)));
    assert!(matches!(start_restore(Target::LocalCname, "", false), EntryRestore::Mappings(_)));
}

#[test]
fn named_table_is_opened_before_its_flush_and_a_domain_list_after() {
    let named = start_restore(Target::Table(TableKind::AdList), "", true);
    assert_eq!(named.action(), Action::OpenDatastore);
    let list = start_restore(Target::Table(TableKind::DomainList(DomainType::Whitelist)), "", true);
    assert!(matches!(list.action(), Action::CheckTable { .. }));
}

#[test]
fn static_dhcp_entry_runs_through_the_reservations() {
    let restore = start_restore(Target::StaticDhcp, "AA:BB:CC:DD:EE:FF,192.168.1.5,myhost\n", true);
    let (actions, result) = finish(restore, vec![]);
    assert_eq!(actions.len(), 3);
    assert_eq!(
        actions[1],
        Action::Run {
            args: vec![
                "-a".to_string(),
                "addstaticdhcp".to_string(),
                "AA:BB:CC:DD:EE:FF".to_string(),
                "192.168.1.5".to_string(),
                "myhost".to_string()
            ]
        }
    );
    assert_eq!(result, Ok(0));
}

#[test]
fn filter_word_all_selects_every_category() {
    assert_eq!(parse_filters("all"), Ok(all_filters()));
    assert_eq!(
        all_filters(),
        vec![
            Category::Blacklist,
            Category::BlacklistRegex,
            Category::Whitelist,
            Category::WhitelistRegex,
            Category::AdList,
            Category::AuditLog,
            Category::Group,
            Category::Client,
            Category::StaticDhcp,
            Category::LocalDns,
            Category::LocalCname,
        ]
    );
}

#[test]
fn filter_keywords_are_read_in_order() {
    assert_eq!(
        parse_filters("localdns,blacklist,client"),
        Ok(vec![Category::LocalDns, Category::Blacklist, Category::Client])
    );
    assert_eq!(parse_filters("adlist"), Ok(vec![Category::AdList]));
    assert_eq!(parse_filters("adlist,adlist"), Ok(vec![Category::AdList, Category::AdList]));
}

#[test]
fn filter_keywords_are_put_into_lower_case() {
    assert_eq!(
        parse_filters("BlackList,WHITELISTREGEX,StaticDHCP"),
        Ok(vec![Category::Blacklist, Category::WhitelistRegex, Category::StaticDhcp])
    );
}

#[test]
fn first_unknown_filter_keyword_is_reported_in_lower_case() {
    assert_eq!(parse_filters("adlist,Bogus,also-bad"), Err("bogus".to_string()));
    assert_eq!(parse_filters(""), Err("".to_string()));
    assert_eq!(parse_filters("adlist,"), Err("".to_string()));
    assert_eq!(parse_filters("adlist, group"), Err(" group".to_string()));
    assert_eq!(parse_filters("ALL"), Err("all".to_string()));
    assert_eq!(parse_filters("all,adlist"), Err("all".to_string()));
}

#[test]
fn every_keyword_has_its_category() {
    let keywords = [
        "blacklist",
        "blacklistregex",
        "whitelist",
        "whitelistregex",
        "adlist",
        "auditlog",
        "group",
        "client",
        "staticdhcp",
        "localdns",
        "localcname",
    ];
    let categories = all_filters();
    for (keyword, category) in keywords.iter().zip(categories) {
        assert_eq!(category_of(keyword), Some(category));
    }
    assert_eq!(category_of("Blacklist"), None);
    assert_eq!(category_of("all"), None);
    assert_eq!(category_of(""), None);
}

#[test]
fn reload_request_is_one_word() {
    assert_eq!(restart_dns(), vec!["restartdns"]);
}

#[test]
fn entry_requests_have_five_arguments() {
    assert_eq!(
        entry_command("addcustomdns", "10.0.0.5", "host.local"),
        vec!["-a", "addcustomdns", "10.0.0.5", "host.local", "false"]
    );
    assert_eq!(
        reservation_command("AA:BB:CC:DD:EE:FF", "noip", "myhost"),
        vec!["-a", "addstaticdhcp", "AA:BB:CC:DD:EE:FF", "noip", "myhost"]
    );
    let args = vec!["a".to_string(), "".to_string(), "c".to_string()];
    assert_eq!(copy_args(&args), args);
}
