use pihole_restore::action::{Action, Event};
use pihole_restore::error::RestoreError;
use pihole_restore::gravity::{load_table, restore_domainlist, TableRestore};
use pihole_restore::records::{
    Ad, Batch, ClientGroupAssignment, Domain, Group, Param, SqlValue,
};
use pihole_restore::tables::DomainType;
use rusqlite::types::Value;
use rusqlite::Connection;

const SCHEMA: &str = "
    CREATE TABLE \"group\" (id INTEGER PRIMARY KEY AUTOINCREMENT, name TEXT UNIQUE NOT NULL,
        date_added INTEGER NOT NULL, description TEXT);
    CREATE TABLE domainlist (id INTEGER PRIMARY KEY AUTOINCREMENT, type INTEGER NOT NULL DEFAULT 0,
        domain TEXT NOT NULL, enabled BOOLEAN NOT NULL DEFAULT 1, date_added INTEGER NOT NULL,
        comment TEXT, UNIQUE(domain, type));
    CREATE TABLE adlist (id INTEGER PRIMARY KEY AUTOINCREMENT, address TEXT UNIQUE NOT NULL,
        enabled BOOLEAN NOT NULL DEFAULT 1, date_added INTEGER NOT NULL, comment TEXT);
    CREATE TABLE client_by_group (client_id INTEGER NOT NULL, group_id INTEGER NOT NULL,
        PRIMARY KEY (client_id, group_id));
";

fn datastore() -> Connection {
    let conn = Connection::open_in_memory().unwrap();
    conn.execute_batch(SCHEMA).unwrap();
    conn
}

fn bound(params: &[Param]) -> Vec<(&str, Value)> {
    params
        .iter()
        .map(|p| {
            let value = match &p.value {
                SqlValue::Integer(i) => Value::Integer(*i),
                SqlValue::Text(s) => Value::Text(s.clone()),
            };
            (p.name.as_str(), value)
        })
        .collect()
}

/// Carries a restore out against `conn`, as a caller of the library does.
fn restore_into(
    conn: &Connection,
    mut restore: TableRestore,
    batch: Option<Batch>,
) -> Result<usize, RestoreError> {
    let mut batch = batch;
    let mut statement = None;
    loop {
        let event = match restore.action() {
            Action::Finish { result } => return result,
            Action::OpenDatastore => Event::Done,
            Action::CheckTable { sql, table } => {
                match conn.prepare(&sql).and_then(|mut s| s.exists([table.as_str()])) {
                    Ok(found) => Event::Found(found),
                    Err(_) => Event::Failed,
                }
            }
            Action::Execute { sql } => match conn.execute(&sql, []) {
                Ok(_) => Event::Done,
                Err(_) => Event::Failed,
            },
            Action::Decode { .. } => match batch.take() {
                Some(records) => Event::Records(records),
                None => Event::Failed,
            },
            Action::Prepare { sql } => match conn.prepare(&sql) {
                Ok(prepared) => {
                    statement = Some(prepared);
                    Event::Done
                }
                Err(_) => Event::Failed,
            },
            Action::Insert { params } => {
                let values = bound(&params);
                match statement.as_mut().unwrap().execute(&values[..]) {
                    Ok(_) => Event::Done,
                    Err(_) => Event::Failed,
                }
            }
            other => panic!("a table restore does not ask for {:?}", other),
        };
        restore.advance(event);
    }
}

fn domain(id: i32, name: &str, comment: &str) -> Domain {
    Domain {
        id,
        domain: name.to_string(),
        enabled: 1,
        date_added: 1_600_000_000,
        comment: comment.to_string(),
    }
}

fn domain_rows(conn: &Connection) -> Vec<(i64, i64, String, i64, i64, String)> {
    let mut statement = conn
        .prepare("SELECT id, type, domain, enabled, date_added, comment FROM domainlist ORDER BY id")
        .unwrap();
    let rows = statement
        .query_map([], |row| {
            Ok((row.get(0)?, row.get(1)?, row.get(2)?, row.get(3)?, row.get(4)?, row.get(5)?))
        })
        .unwrap();
    rows.map(|r| r.unwrap()).collect()
}

fn group_rows(conn: &Connection) -> Vec<(i64, String, i64, String)> {
    let mut statement =
        conn.prepare("SELECT id, name, date_added, description FROM \"group\" ORDER BY id").unwrap();
    let rows = statement
        .query_map([], |row| Ok((row.get(0)?, row.get(1)?, row.get(2)?, row.get(3)?)))
        .unwrap();
    rows.map(|r| r.unwrap()).collect()
}

fn link_rows(conn: &Connection) -> Vec<(i64, i64)> {
    let mut statement = conn
        .prepare("SELECT client_id, group_id FROM client_by_group ORDER BY client_id, group_id")
        .unwrap();
    let rows = statement.query_map([], |row| Ok((row.get(0)?, row.get(1)?))).unwrap();
    rows.map(|r| r.unwrap()).collect()
}

#[test]
fn restored_rows_hold_the_bound_values_and_the_list_type() {
    let conn = datastore();
    let batch = Batch::Domains(vec![domain(5, "ads.example", "first"), domain(9, "x.example", "")]);
    let result = restore_into(&conn, restore_domainlist(DomainType::BlacklistRegex, false), Some(batch));
    assert_eq!(result, Ok(2));
    assert_eq!(
        domain_rows(&conn),
        vec![
            (5, 3, "ads.example".to_string(), 1, 1_600_000_000, "first".to_string()),
            (9, 3, "x.example".to_string(), 1, 1_600_000_000, "".to_string()),
        ]
    );
}

#[test]
fn restoring_twice_leaves_the_rows_of_restoring_once() {
    let conn = datastore();
    let batch = || {
        Batch::Domains(vec![
            domain(1, "a.example", "one"),
            domain(2, "b.example", "two"),
            domain(3, "c.example", "three"),
        ])
    };
    let first = restore_into(&conn, restore_domainlist(DomainType::Blacklist, false), Some(batch()));
    assert_eq!(first, Ok(3));
    let once = domain_rows(&conn);
    assert_eq!(once.len(), 3);
    let second = restore_into(&conn, restore_domainlist(DomainType::Blacklist, false), Some(batch()));
    assert_eq!(second, Ok(3));
    assert_eq!(domain_rows(&conn), once);
}

#[test]
fn restoring_twice_is_idempotent_for_each_kind() {
    let conn = datastore();
    let groups = || {
        Batch::Groups(vec![
            Group { id: 0, name: "Default".to_string(), date_added: 1, description: "all".to_string() },
            Group { id: 1, name: "kids".to_string(), date_added: 2, description: "".to_string() },
        ])
    };
    assert_eq!(restore_into(&conn, load_table("group", false).unwrap(), Some(groups())), Ok(2));
    let once = group_rows(&conn);
    assert_eq!(once.len(), 2);
    assert_eq!(restore_into(&conn, load_table("group", false).unwrap(), Some(groups())), Ok(2));
    assert_eq!(group_rows(&conn), once);

    let links = || {
        Batch::ClientGroups(vec![
            ClientGroupAssignment { client_id: 1, group_id: 0 },
            ClientGroupAssignment { client_id: 1, group_id: 1 },
            ClientGroupAssignment { client_id: 2, group_id: 0 },
        ])
    };
    assert_eq!(
        restore_into(&conn, load_table("client_by_group", false).unwrap(), Some(links())),
        Ok(3)
    );
    assert_eq!(link_rows(&conn), vec![(1, 0), (1, 1), (2, 0)]);
    assert_eq!(
        restore_into(&conn, load_table("client_by_group", false).unwrap(), Some(links())),
        Ok(3)
    );
    assert_eq!(link_rows(&conn), vec![(1, 0), (1, 1), (2, 0)]);
}

#[test]
fn restore_never_overwrites_the_row_that_was_written_first() {
    let conn = datastore();
    let old = Batch::Domains(vec![domain(1, "old.example", "kept")]);
    restore_into(&conn, restore_domainlist(DomainType::Whitelist, false), Some(old)).unwrap();
    let new = Batch::Domains(vec![domain(1, "new.example", "lost"), domain(2, "b.example", "")]);
    let result = restore_into(&conn, restore_domainlist(DomainType::Blacklist, false), Some(new));
    assert_eq!(result, Ok(2));
    assert_eq!(
        domain_rows(&conn),
        vec![
            (1, 0, "old.example".to_string(), 1, 1_600_000_000, "kept".to_string()),
            (2, 1, "b.example".to_string(), 1, 1_600_000_000, "".to_string()),
        ]
    );
}

#[test]
fn repeated_key_inside_one_batch_keeps_the_first_record() {
    let conn = datastore();
    let batch = Batch::Domains(vec![domain(1, "first.example", "a"), domain(1, "second.example", "b")]);
    let result = restore_into(&conn, restore_domainlist(DomainType::Blacklist, false), Some(batch));
    assert_eq!(result, Ok(2));
    let rows = domain_rows(&conn);
    assert_eq!(rows.len(), 1);
    assert_eq!(rows[0].2, "first.example");
}

#[test]
fn flush_of_one_list_leaves_the_other_lists_untouched() {
    let conn = datastore();
    for (list, id) in [
        (DomainType::Whitelist, 10),
        (DomainType::Blacklist, 11),
        (DomainType::WhitelistRegex, 12),
        (DomainType::BlacklistRegex, 13),
    ] {
        let batch = Batch::Domains(vec![domain(id, &format!("d{}.example", id), "before")]);
        restore_into(&conn, restore_domainlist(list, false), Some(batch)).unwrap();
    }
    let before = domain_rows(&conn);
    assert_eq!(before.len(), 4);

    let batch = Batch::Domains(vec![domain(20, "fresh.example", "after")]);
    let result = restore_into(&conn, restore_domainlist(DomainType::Blacklist, true), Some(batch));
    assert_eq!(result, Ok(1));

    let after = domain_rows(&conn);
    let others_before: Vec<_> = before.iter().filter(|r| r.1 != 1).cloned().collect();
    let others_after: Vec<_> = after.iter().filter(|r| r.1 != 1).cloned().collect();
    assert_eq!(others_after, others_before);
    let blacklist: Vec<_> = after.iter().filter(|r| r.1 == 1).cloned().collect();
    assert_eq!(
        blacklist,
        vec![(20, 1, "fresh.example".to_string(), 1, 1_600_000_000, "after".to_string())]
    );
}

#[test]
fn flush_of_each_list_removes_only_that_list() {
    for flushed in [
        DomainType::Whitelist,
        DomainType::Blacklist,
        DomainType::WhitelistRegex,
        DomainType::BlacklistRegex,
    ] {
        let conn = datastore();
        for (list, id) in [
            (DomainType::Whitelist, 1),
            (DomainType::Blacklist, 2),
            (DomainType::WhitelistRegex, 3),
            (DomainType::BlacklistRegex, 4),
        ] {
            let batch = Batch::Domains(vec![domain(id, &format!("d{}.example", id), "")]);
            restore_into(&conn, restore_domainlist(list, false), Some(batch)).unwrap();
        }
        let result =
            restore_into(&conn, restore_domainlist(flushed, true), Some(Batch::Domains(vec![])));
        assert_eq!(result, Ok(0));
        let left: Vec<i64> = domain_rows(&conn).iter().map(|r| r.1).collect();
        let expected: Vec<i64> =
            (0..4).filter(|code| *code != flushed.discriminant() as i64).collect();
        assert_eq!(left, expected);
    }
}

#[test]
fn flush_of_a_named_table_empties_it() {
    let conn = datastore();
    let groups = Batch::Groups(vec![Group {
        id: 3,
        name: "old".to_string(),
        date_added: 1,
        description: "".to_string(),
    }]);
    restore_into(&conn, load_table("group", false).unwrap(), Some(groups)).unwrap();
    let groups = Batch::Groups(vec![Group {
        id: 4,
        name: "new".to_string(),
        date_added: 2,
        description: "".to_string(),
    }]);
    assert_eq!(restore_into(&conn, load_table("group", true).unwrap(), Some(groups)), Ok(1));
    assert_eq!(group_rows(&conn), vec![(4, "new".to_string(), 2, "".to_string())]);
}

#[test]
fn flush_of_a_table_that_does_not_exist_fails_and_writes_nothing() {
    let conn = Connection::open_in_memory().unwrap();
    let batch = Batch::Ads(vec![]);
    let result = restore_into(&conn, load_table("adlist", true).unwrap(), Some(batch));
    assert_eq!(result, Err(RestoreError::TableMissing));
}

#[test]
fn statement_that_cannot_be_prepared_ends_the_restore() {
    let conn = Connection::open_in_memory().unwrap();
    let batch = Batch::Ads(vec![]);
    let result = restore_into(&conn, load_table("adlist", false).unwrap(), Some(batch));
    assert_eq!(result, Err(RestoreError::Datastore));
}

#[test]
fn record_that_the_datastore_refuses_does_not_stop_the_others() {
    let conn = datastore();
    conn.execute_batch(
        "CREATE TRIGGER refuse BEFORE INSERT ON adlist WHEN NEW.address = 'refused'
         BEGIN SELECT RAISE(ABORT, 'refused'); END;",
    )
    .unwrap();
    let ad = |id: i32, address: &str| Ad {
        id,
        address: address.to_string(),
        enabled: 1,
        date_added: 7,
        comment: String::new(),
    };
    let batch = Batch::Ads(vec![ad(1, "https://a.example"), ad(2, "refused"), ad(3, "https://c.example")]);
    let result = restore_into(&conn, load_table("adlist", false).unwrap(), Some(batch));
    assert_eq!(result, Ok(3));
    let mut statement = conn.prepare("SELECT id FROM adlist ORDER BY id").unwrap();
    let ids: Vec<i64> = statement.query_map([], |row| row.get(0)).unwrap().map(|r| r.unwrap()).collect();
    assert_eq!(ids, vec![1, 3]);
}

#[test]
fn content_that_cannot_be_decoded_leaves_the_rows_alone() {
    let conn = datastore();
    let batch = Batch::Domains(vec![domain(1, "a.example", "")]);
    restore_into(&conn, restore_domainlist(DomainType::Blacklist, false), Some(batch)).unwrap();
    let before = domain_rows(&conn);
    let result = restore_into(&conn, restore_domainlist(DomainType::Blacklist, false), None);
    assert_eq!(result, Err(RestoreError::MalformedBatch));
    assert_eq!(domain_rows(&conn), before);
}

/// A small deterministic source of numbers for the comparison below.
struct Numbers(u64);

impl Numbers {
    fn next(&mut self, bound: u64) -> u64 {
        self.0 = self.0.wrapping_mul(6364136223846793005).wrapping_add(1442695040888963407);
        (self.0 >> 33) % bound
    }
}

#[test]
fn datastore_keeps_rows_as_insert_if_absent_by_key_does() {
    // What the rows should be is worked out here with a map from key to row
    // in which a key that is taken is never written again.
    let conn = Connection::open_in_memory().unwrap();
    conn.execute_batch(
        "CREATE TABLE domainlist (id INTEGER PRIMARY KEY, type INTEGER NOT NULL,
            domain TEXT NOT NULL, enabled BOOLEAN NOT NULL, date_added INTEGER NOT NULL,
            comment TEXT);
         CREATE TABLE client_by_group (client_id INTEGER NOT NULL, group_id INTEGER NOT NULL,
            PRIMARY KEY (client_id, group_id));",
    )
    .unwrap();
    let lists = [
        DomainType::Whitelist,
        DomainType::Blacklist,
        DomainType::WhitelistRegex,
        DomainType::BlacklistRegex,
    ];
    let mut numbers = Numbers(7);
    let mut expected_domains = std::collections::BTreeMap::new();
    let mut expected_links = std::collections::BTreeSet::new();
    for round in 0..40 {
        let list = lists[numbers.next(4) as usize];
        let flush = numbers.next(4) == 0;
        let size = numbers.next(6) as usize;
        let records: Vec<Domain> = (0..size)
            .map(|_| {
                let id = numbers.next(12) as i32;
                domain(id, &format!("d{}-{}.example", id, round), &format!("round {}", round))
            })
            .collect();
        if flush {
            expected_domains.retain(|_, row: &mut (i64, String, String)| row.0 != list.discriminant() as i64);
        }
        for r in &records {
            expected_domains
                .entry(r.id as i64)
                .or_insert((list.discriminant() as i64, r.domain.clone(), r.comment.clone()));
        }
        let result = restore_into(&conn, restore_domainlist(list, flush), Some(Batch::Domains(records)));
        assert_eq!(result, Ok(size));
        let stored: Vec<(i64, (i64, String, String))> = domain_rows(&conn)
            .into_iter()
            .map(|(id, list, name, _, _, comment)| (id, (list, name, comment)))
            .collect();
        let expected: Vec<(i64, (i64, String, String))> =
            expected_domains.iter().map(|(id, row)| (*id, row.clone())).collect();
        assert_eq!(stored, expected, "after round {}", round);

        let flush = numbers.next(5) == 0;
        let size = numbers.next(5) as usize;
        let links: Vec<ClientGroupAssignment> = (0..size)
            .map(|_| ClientGroupAssignment {
                client_id: numbers.next(4) as i32,
                group_id: numbers.next(3) as i32,
            })
            .collect();
        if flush {
            expected_links.clear();
        }
        for l in &links {
            expected_links.insert((l.client_id as i64, l.group_id as i64));
        }
        let result = restore_into(
            &conn,
            load_table("client_by_group", flush).unwrap(),
            Some(Batch::ClientGroups(links)),
        );
        assert_eq!(result, Ok(size));
        let expected: Vec<(i64, i64)> = expected_links.iter().cloned().collect();
        assert_eq!(link_rows(&conn), expected, "after round {}", round);
    }
}
