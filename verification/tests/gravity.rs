use pihole_restore::action::{Action, Event};
use pihole_restore::error::RestoreError;
use pihole_restore::gravity::{
    flush_condition, flush_outcome, flush_statement, flush_table, load_table, plan_batch,
    restore_domainlist, Stage, TableRestore, TABLE_EXISTS_SQL,
};
use pihole_restore::records::{
    Ad, Batch, ClientGroupAssignment, Domain, Group, Param, SqlValue,
};
use pihole_restore::tables::{
    domain_type_code, table_kind, table_name, DomainType, TableKind, NO_LIST,
};

fn domain(id: i32, name: &str) -> Domain {
    Domain {
        id,
        domain: name.to_string(),
        enabled: 1,
        date_added: 1_600_000_000 + id as i64,
        comment: format!("comment {}", id),
    }
}

fn domain_row(id: i32, name: &str) -> Vec<Param> {
    vec![
        Param { name: ":id".to_string(), value: SqlValue::Integer(id as i64) },
        Param { name: ":domain".to_string(), value: SqlValue::Text(name.to_string()) },
        Param { name: ":enabled".to_string(), value: SqlValue::Integer(1) },
        Param {
            name: ":date_added".to_string(),
            value: SqlValue::Integer(1_600_000_000 + id as i64),
        },
        Param { name: ":comment".to_string(), value: SqlValue::Text(format!("comment {}", id)) },
    ]
}

/// Runs a restore to its end. `answers` are handed out in order; once they
/// are used up every action is answered with `Done`.
fn drive(mut restore: TableRestore, answers: Vec<Event>) -> (Vec<Action>, Result<usize, RestoreError>) {
    let mut answers = answers.into_iter();
    let mut actions = Vec::new();
    loop {
        match restore.action() {
            Action::Finish { result } => return (actions, result),
            action => {
                actions.push(action);
                restore.advance(answers.next().unwrap_or(Event::Done));
            }
        }
        assert!(actions.len() < 1000, "the restore does not end");
    }
}

#[test]
fn discriminants_are_zero_to_three() {
    assert_eq!(DomainType::Whitelist.discriminant(), 0);
    assert_eq!(DomainType::Blacklist.discriminant(), 1);
    assert_eq!(DomainType::WhitelistRegex.discriminant(), 2);
    assert_eq!(DomainType::BlacklistRegex.discriminant(), 3);
}

#[test]
fn list_digit_is_the_decimal_discriminant() {
    assert_eq!(DomainType::Whitelist.digit(), "0");
    assert_eq!(DomainType::Blacklist.digit(), "1");
    assert_eq!(DomainType::WhitelistRegex.digit(), "2");
    assert_eq!(DomainType::BlacklistRegex.digit(), "3");
}

#[test]
fn from_code_inverts_discriminant_and_rejects_the_rest() {
    for t in [
        DomainType::Whitelist,
        DomainType::Blacklist,
        DomainType::WhitelistRegex,
        DomainType::BlacklistRegex,
    ] {
        assert_eq!(DomainType::from_code(t.discriminant()), Some(t));
    }
    assert_eq!(DomainType::from_code(NO_LIST), None);
    assert_eq!(DomainType::from_code(4), None);
    assert_eq!(DomainType::from_code(i32::MIN), None);
}

#[test]
fn list_names_map_to_discriminants() {
    assert_eq!(domain_type_code("whitelist"), 0);
    assert_eq!(domain_type_code("blacklist"), 1);
    assert_eq!(domain_type_code("regex_whitelist"), 2);
    assert_eq!(domain_type_code("regex_blacklist"), 3);
}

#[test]
fn unknown_list_name_maps_to_the_sentinel() {
    assert_eq!(NO_LIST, -1);
    assert_eq!(domain_type_code("greylist"), -1);
    assert_eq!(domain_type_code(""), -1);
    assert_eq!(domain_type_code("Blacklist"), -1);
    assert_eq!(domain_type_code("blacklist "), -1);
}

#[test]
fn tables_are_found_by_name() {
    for kind in [
        TableKind::AdList,
        TableKind::DomainAudit,
        TableKind::Group,
        TableKind::Client,
        TableKind::ClientByGroup,
        TableKind::DomainListByGroup,
        TableKind::AdListByGroup,
    ] {
        assert_eq!(table_kind(table_name(kind)), Some(kind));
    }
    assert_eq!(table_name(TableKind::DomainList(DomainType::Blacklist)), "domainlist");
    assert_eq!(table_kind("domainlist"), None);
    assert_eq!(table_kind("blacklist"), None);
    assert_eq!(table_kind(""), None);
}

#[test]
fn flush_statement_without_condition_empties_the_table() {
    assert_eq!(flush_statement("adlist", ""), "DELETE FROM \"adlist\"");
    assert_eq!(flush_statement("group", ""), "DELETE FROM \"group\"");
}

#[test]
fn flush_condition_gets_one_space_in_front() {
    assert_eq!(
        flush_statement("domainlist", "WHERE type = 1"),
        "DELETE FROM \"domainlist\" WHERE type = 1"
    );
}

#[test]
fn flush_condition_with_leading_space_is_kept() {
    assert_eq!(
        flush_statement("domainlist", " WHERE type = 1"),
        "DELETE FROM \"domainlist\" WHERE type = 1"
    );
    assert_eq!(
        flush_statement("domainlist", "  WHERE type = 1"),
        "DELETE FROM \"domainlist\"  WHERE type = 1"
    );
}

#[test]
fn flush_condition_names_the_list_type() {
    assert_eq!(flush_condition(TableKind::DomainList(DomainType::Whitelist)), "WHERE type = 0");
    assert_eq!(flush_condition(TableKind::DomainList(DomainType::Blacklist)), "WHERE type = 1");
    assert_eq!(flush_condition(TableKind::DomainList(DomainType::WhitelistRegex)), "WHERE type = 2");
    assert_eq!(flush_condition(TableKind::DomainList(DomainType::BlacklistRegex)), "WHERE type = 3");
    assert_eq!(flush_condition(TableKind::AdList), "");
    assert_eq!(flush_condition(TableKind::ClientByGroup), "");
}

#[test]
fn flush_table_plans_check_and_delete() {
    let plan = flush_table("client", "");
    assert_eq!(plan.check, "SELECT name FROM sqlite_master WHERE type='table' AND name=?");
    assert_eq!(plan.check, TABLE_EXISTS_SQL);
    assert_eq!(plan.table, "client");
    assert_eq!(plan.delete, "DELETE FROM \"client\"");
    let plan = flush_table("domainlist", "WHERE type = 3");
    assert_eq!(plan.table, "domainlist");
    assert_eq!(plan.delete, "DELETE FROM \"domainlist\" WHERE type = 3");
}

#[test]
fn flush_fails_where_the_table_is_missing() {
    assert_eq!(flush_outcome(true), Ok(()));
    assert_eq!(flush_outcome(false), Err(RestoreError::TableMissing));
}

#[test]
fn load_table_rejects_unknown_names() {
    assert_eq!(load_table("no_such_table", true), Err(RestoreError::InvalidTable));
    assert_eq!(load_table("domainlist", false), Err(RestoreError::InvalidTable));
    assert_eq!(load_table("", false), Err(RestoreError::InvalidTable));
}

#[test]
fn load_table_starts_by_opening_the_datastore() {
    let restore = load_table("adlist", false).unwrap();
    assert_eq!(restore.kind, TableKind::AdList);
    assert_eq!(restore.stage, Stage::Open);
    assert_eq!(restore.action(), Action::OpenDatastore);
    let restore = load_table("adlist", true).unwrap();
    assert_eq!(restore.action(), Action::OpenDatastore);
}

#[test]
fn plan_batch_rejects_records_of_another_kind() {
    let ads = Batch::Ads(vec![]);
    assert_eq!(plan_batch(TableKind::Group, ads), Err(RestoreError::MalformedBatch));
    let domains = Batch::Domains(vec![domain(1, "a.example")]);
    assert_eq!(plan_batch(TableKind::AdList, domains), Err(RestoreError::MalformedBatch));
}

#[test]
fn plan_batch_puts_the_list_type_into_the_statement() {
    let plan = plan_batch(
        TableKind::DomainList(DomainType::BlacklistRegex),
        Batch::Domains(vec![domain(1, "a.example")]),
    )
    .unwrap();
    assert!(plan.statement.ends_with(":comment,3);"));
    assert_eq!(plan.rows, vec![domain_row(1, "a.example")]);
}

#[test]
fn table_restore_without_flush_opens_decodes_prepares_and_inserts() {
    let restore = load_table("group", false).unwrap();
    let groups = vec![
        Group { id: 1, name: "a".to_string(), date_added: 5, description: "x".to_string() },
        Group { id: 2, name: "b".to_string(), date_added: 6, description: "y".to_string() },
    ];
    let (actions, result) =
        drive(restore, vec![Event::Done, Event::Records(Batch::Groups(groups))]);
    assert_eq!(result, Ok(2));
    assert_eq!(actions.len(), 5);
    assert_eq!(actions[0], Action::OpenDatastore);
    assert_eq!(actions[1], Action::Decode { kind: TableKind::Group });
    assert_eq!(
        actions[2],
        Action::Prepare {
            sql: "INSERT OR IGNORE INTO \"group\" (id,name,date_added,description) VALUES (:id,:name,:date_added,:description);".to_string()
        }
    );
    assert_eq!(
        actions[3],
        Action::Insert {
            params: vec![
                Param { name: ":id".to_string(), value: SqlValue::Integer(1) },
                Param { name: ":name".to_string(), value: SqlValue::Text("a".to_string()) },
                Param { name: ":date_added".to_string(), value: SqlValue::Integer(5) },
                Param { name: ":description".to_string(), value: SqlValue::Text("x".to_string()) },
            ]
        }
    );
    assert!(matches!(&actions[4], Action::Insert { params } if params[0].value == SqlValue::Integer(2)));
}

#[test]
fn table_restore_with_flush_checks_and_deletes_after_opening() {
    let restore = load_table("client_by_group", true).unwrap();
    let links = vec![ClientGroupAssignment { client_id: 1, group_id: 0 }];
    let (actions, result) = drive(
        restore,
        vec![
            Event::Done,
            Event::Found(true),
            Event::Done,
            Event::Records(Batch::ClientGroups(links)),
        ],
    );
    assert_eq!(result, Ok(1));
    assert_eq!(actions[0], Action::OpenDatastore);
    assert_eq!(
        actions[1],
        Action::CheckTable {
            sql: TABLE_EXISTS_SQL.to_string(),
            table: "client_by_group".to_string()
        }
    );
    assert_eq!(actions[2], Action::Execute { sql: "DELETE FROM \"client_by_group\"".to_string() });
    assert_eq!(actions[3], Action::Decode { kind: TableKind::ClientByGroup });
    assert!(matches!(actions[4], Action::Prepare { .. }));
    assert!(matches!(actions[5], Action::Insert { .. }));
    assert_eq!(actions.len(), 6);
}

#[test]
fn domain_list_restore_flushes_its_own_list_before_opening() {
    let restore = restore_domainlist(DomainType::Blacklist, true);
    let (actions, result) = drive(
        restore,
        vec![
            Event::Found(true),
            Event::Done,
            Event::Done,
            Event::Records(Batch::Domains(vec![domain(1, "a.example")])),
        ],
    );
    assert_eq!(result, Ok(1));
    assert_eq!(
        actions[0],
        Action::CheckTable { sql: TABLE_EXISTS_SQL.to_string(), table: "domainlist".to_string() }
    );
    assert_eq!(
        actions[1],
        Action::Execute { sql: "DELETE FROM \"domainlist\" WHERE type = 1".to_string() }
    );
    assert_eq!(actions[2], Action::OpenDatastore);
    assert_eq!(
        actions[3],
        Action::Decode { kind: TableKind::DomainList(DomainType::Blacklist) }
    );
    assert_eq!(
        actions[4],
        Action::Prepare {
            sql: "INSERT OR IGNORE INTO domainlist (id,domain,enabled,date_added,comment,type) VALUES (:id,:domain,:enabled,:date_added,:comment,1);".to_string()
        }
    );
    assert_eq!(actions[5], Action::Insert { params: domain_row(1, "a.example") });
    assert_eq!(actions.len(), 6);
}

#[test]
fn domain_list_restore_without_flush_never_deletes() {
    let restore = restore_domainlist(DomainType::Whitelist, false);
    let (actions, result) =
        drive(restore, vec![Event::Done, Event::Records(Batch::Domains(vec![]))]);
    assert_eq!(result, Ok(0));
    assert_eq!(actions.len(), 3);
    assert!(actions.iter().all(|a| !matches!(a, Action::Execute { .. } | Action::CheckTable { .. })));
}

#[test]
fn flush_of_a_missing_table_ends_the_restore() {
    let restore = load_table("adlist", true).unwrap();
    let (actions, result) = drive(restore, vec![Event::Done, Event::Found(false)]);
    assert_eq!(result, Err(RestoreError::TableMissing));
    assert_eq!(actions.len(), 2);
}

#[test]
fn failure_before_the_records_ends_the_restore() {
    let (actions, result) = drive(load_table("adlist", false).unwrap(), vec![Event::Failed]);
    assert_eq!((actions.len(), result), (1, Err(RestoreError::Datastore)));
    let (actions, result) =
        drive(load_table("adlist", true).unwrap(), vec![Event::Done, Event::Failed]);
    assert_eq!((actions.len(), result), (2, Err(RestoreError::Datastore)));
    let (actions, result) = drive(
        load_table("adlist", true).unwrap(),
        vec![Event::Done, Event::Found(true), Event::Failed],
    );
    assert_eq!((actions.len(), result), (3, Err(RestoreError::Datastore)));
    let (actions, result) = drive(
        load_table("adlist", false).unwrap(),
        vec![Event::Done, Event::Records(Batch::Ads(vec![])), Event::Failed],
    );
    assert_eq!((actions.len(), result), (3, Err(RestoreError::Datastore)));
}

#[test]
fn content_that_cannot_be_decoded_ends_the_restore() {
    let (actions, result) =
        drive(load_table("adlist", false).unwrap(), vec![Event::Done, Event::Failed]);
    assert_eq!((actions.len(), result), (2, Err(RestoreError::MalformedBatch)));
    let (_, result) = drive(
        load_table("adlist", false).unwrap(),
        vec![Event::Done, Event::Records(Batch::Groups(vec![]))],
    );
    assert_eq!(result, Err(RestoreError::MalformedBatch));
}

#[test]
fn flush_happens_before_malformed_content_is_noticed() {
    let (actions, result) = drive(
        load_table("adlist", true).unwrap(),
        vec![Event::Done, Event::Found(true), Event::Done, Event::Failed],
    );
    assert_eq!(result, Err(RestoreError::MalformedBatch));
    assert_eq!(actions[2], Action::Execute { sql: "DELETE FROM \"adlist\"".to_string() });
    assert_eq!(actions.len(), 4);
}

#[test]
fn refused_records_do_not_end_the_restore_and_are_counted() {
    let ads: Vec<Ad> = (1..=4)
        .map(|id| Ad {
            id,
            address: format!("https://lists.example/{}", id),
            enabled: 1,
            date_added: 0,
            comment: String::new(),
        })
        .collect();
    let (actions, result) = drive(
        load_table("adlist", false).unwrap(),
        vec![
            Event::Done,
            Event::Records(Batch::Ads(ads)),
            Event::Done,
            Event::Failed,
            Event::Done,
            Event::Failed,
            Event::Failed,
        ],
    );
    assert_eq!(result, Ok(4));
    let inserted: Vec<&SqlValue> = actions
        .iter()
        .filter_map(|a| match a {
            Action::Insert { params } => Some(&params[0].value),
            _ => None,
        })
        .collect();
    assert_eq!(
        inserted,
        vec![
            &SqlValue::Integer(1),
            &SqlValue::Integer(2),
            &SqlValue::Integer(3),
            &SqlValue::Integer(4)
        ]
    );
}

#[test]
fn finished_restore_stays_finished() {
    let mut restore = load_table("adlist", false).unwrap();
    restore.advance(Event::Failed);
    for event in [Event::Done, Event::Failed, Event::Found(true), Event::Content(None)] {
        restore.advance(event);
        assert_eq!(restore.action(), Action::Finish { result: Err(RestoreError::Datastore) });
    }
    let mut restore = load_table("adlist", false).unwrap();
    restore.advance(Event::Done);
    restore.advance(Event::Records(Batch::Ads(vec![])));
    restore.advance(Event::Done);
    for event in [Event::Done, Event::Failed] {
        restore.advance(event);
        assert_eq!(restore.action(), Action::Finish { result: Ok(0) });
    }
}
