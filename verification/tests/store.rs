//! The statements of the library, run against the storage engine in memory.

use rusqlite::types::{Value, ValueRef};
use rusqlite::Connection;
use unnet_backend::command::{Command, PackageRecord, Query};
use unnet_backend::entity::{Package, Registration, RegistrationForm, Setting};
use unnet_backend::error::{Reason, StoreError};
use unnet_backend::exchange::{written, Outcome};
use unnet_backend::init::{init_db, init_next, InitAction, InitState};
use unnet_backend::memory::MemoryStore;
use unnet_backend::value::SqlValue;
use unnet_backend::{packages, registrations, settings};

fn to_value(value: &SqlValue) -> Value {
    match value {
        SqlValue::Null => Value::Null,
        SqlValue::Integer(number) => Value::Integer(*number),
        SqlValue::Text(text) => Value::Text(text.clone()),
        SqlValue::Other => Value::Null,
    }
}

fn from_value(value: ValueRef<'_>) -> SqlValue {
    match value {
        ValueRef::Null => SqlValue::Null,
        ValueRef::Integer(number) => SqlValue::Integer(number),
        ValueRef::Text(bytes) => match std::str::from_utf8(bytes) {
            Ok(text) => SqlValue::Text(text.to_string()),
            Err(_) => SqlValue::Other,
        },
        _ => SqlValue::Other,
    }
}

fn run(conn: &Connection, command: &Command) -> Outcome {
    let values: Vec<Value> = command.parameters().iter().map(to_value).collect();
    match conn.execute(command.sql(), rusqlite::params_from_iter(values)) {
        Ok(count) => Outcome::Changed(count),
        Err(error) => Outcome::Failed(error.to_string()),
    }
}

fn read(conn: &Connection, query: &Query) -> Result<Vec<Vec<SqlValue>>, rusqlite::Error> {
    let mut statement = conn.prepare(query.sql())?;
    let width = statement.column_count();
    let mut rows = statement.query([])?;
    let mut table = Vec::new();
    while let Some(row) = rows.next()? {
        let mut cells = Vec::new();
        for column in 0..width {
            cells.push(from_value(row.get_ref(column)?));
        }
        table.push(cells);
    }
    Ok(table)
}

fn ask(conn: &Connection, query: &Query) -> Outcome {
    match read(conn, query) {
        Ok(rows) => Outcome::Rows(rows),
        Err(error) => Outcome::Failed(error.to_string()),
    }
}

/// Runs the start-up against `conn` and gives the state it ends in.
fn start(conn: &Connection) -> (InitState, InitAction) {
    let (mut state, mut action) = init_db();
    for _ in 0..64 {
        let outcome = match &action {
            InitAction::Open(_) => Outcome::Opened,
            InitAction::Run(command) => run(conn, command),
            InitAction::Ask(query) => ask(conn, query),
            InitAction::Finish | InitAction::Abort(_) => return (state, action),
        };
        let next = init_next(state, &outcome);
        state = next.0;
        action = next.1;
    }
    panic!("the start-up did not end");
}

fn ready() -> Connection {
    let conn = Connection::open_in_memory().unwrap();
    let (state, action) = start(&conn);
    assert_eq!(state, InitState::Ready);
    assert_eq!(action, InitAction::Finish);
    conn
}

fn all_settings(conn: &Connection) -> Vec<Setting> {
    settings::listed(&ask(conn, &settings::list())).unwrap()
}

fn all_packages(conn: &Connection) -> Vec<Package> {
    packages::listed(&ask(conn, &packages::list())).unwrap()
}

fn all_registrations(conn: &Connection) -> Vec<Registration> {
    registrations::listed(&ask(conn, &registrations::list())).unwrap()
}

fn value_of(list: &[Setting], key: &str) -> Vec<String> {
    list.iter().filter(|s| s.key == key).map(|s| s.value.clone()).collect()
}

fn texts(items: &[&str]) -> Vec<String> {
    items.iter().map(|s| s.to_string()).collect()
}

fn form(name: &str) -> RegistrationForm {
    RegistrationForm {
        name: name.to_string(),
        phone: "0812".to_string(),
        address: "Jl. Mawar 1".to_string(),
        package: "Starter".to_string(),
        notes: "".to_string(),
    }
}

#[test]
fn startup_prepares_an_empty_store() {
    let conn = ready();
    let list = all_settings(&conn);
    assert_eq!(list.len(), 8);
    assert_eq!(value_of(&list, "site_title"), texts(&["UNNET"]));
    assert_eq!(value_of(&list, "whatsapp_number"), texts(&["6285233053443"]));
    assert_eq!(value_of(&list, "address"), texts(&["Jawa Timur & Sekitarnya"]));
    assert_eq!(value_of(&list, "email"), texts(&["info@unnet.id"]));
    assert_eq!(value_of(&list, "work_hours"), texts(&["Senin - Sabtu: 08:00 - 20:00"]));
    assert_eq!(value_of(&list, "tagline"), texts(&["Teknisi Cepat Tanggap"]));
    assert_eq!(value_of(&list, "map_embed_url").len(), 1);
    assert_eq!(value_of(&list, "map_direct_url").len(), 1);

    let catalog = all_packages(&conn);
    assert_eq!(catalog.len(), 4);
    assert_eq!(
        catalog[0],
        Package {
            id: Some(1),
            name: "Starter".to_string(),
            speed: "30 Mbps".to_string(),
            price: "Rp 150rb/bulan".to_string(),
            features: texts(&["Ideal untuk 1-3 perangkat", "Streaming HD lancar", "Bebas FUP"]),
        }
    );
    assert_eq!(
        catalog[1],
        Package {
            id: Some(2),
            name: "Standard".to_string(),
            speed: "100 Mbps".to_string(),
            price: "Rp 250rb/bulan".to_string(),
            features: texts(&[
                "Ideal untuk 4-7 perangkat",
                "Streaming 4K lancar",
                "Gaming rendah latensi"
            ]),
        }
    );
    assert_eq!(
        catalog[2],
        Package {
            id: Some(3),
            name: "Premium".to_string(),
            speed: "300 Mbps".to_string(),
            price: "Rp 450rb/bulan".to_string(),
            features: texts(&[
                "Ideal untuk Smart Home",
                "Upload file besar cepat",
                "Prioritas Bandwidth"
            ]),
        }
    );
    assert_eq!(
        catalog[3],
        Package {
            id: Some(4),
            name: "Business".to_string(),
            speed: "1 Gbps".to_string(),
            price: "Rp 850rb/bulan".to_string(),
            features: texts(&["Koneksi Bisnis/Kantor", "IP Public Static", "Support Prioritas"]),
        }
    );
    assert_eq!(all_registrations(&conn), Vec::<Registration>::new());
}

#[test]
fn startup_twice_keeps_edited_settings() {
    let conn = ready();
    assert_eq!(run(&conn, &settings::upsert("site_title", "Warnet Maju")), Outcome::Changed(1));
    assert_eq!(run(&conn, &settings::upsert("motto", "Selalu online")), Outcome::Changed(1));
    let before = all_settings(&conn);

    let (state, _) = start(&conn);
    assert_eq!(state, InitState::Ready);
    let after = all_settings(&conn);
    assert_eq!(after.len(), 9);
    assert_eq!(value_of(&after, "site_title"), texts(&["Warnet Maju"]));
    assert_eq!(value_of(&after, "motto"), texts(&["Selalu online"]));
    assert_eq!(value_of(&after, "tagline"), texts(&["Teknisi Cepat Tanggap"]));
    let mut keys: Vec<String> = after.iter().map(|s| s.key.clone()).collect();
    keys.sort();
    keys.dedup();
    assert_eq!(keys.len(), 9);
    let mut sorted_before: Vec<(String, String)> =
        before.iter().map(|s| (s.key.clone(), s.value.clone())).collect();
    let mut sorted_after: Vec<(String, String)> =
        after.iter().map(|s| (s.key.clone(), s.value.clone())).collect();
    sorted_before.sort();
    sorted_after.sort();
    assert_eq!(sorted_before, sorted_after);
    assert_eq!(all_packages(&conn).len(), 4);
}

#[test]
fn startup_adds_a_default_setting_that_is_missing() {
    let conn = Connection::open_in_memory().unwrap();
    assert_eq!(run(&conn, &Command::CreateSettings), Outcome::Changed(0));
    assert_eq!(run(&conn, &settings::upsert("tagline", "Cepat")), Outcome::Changed(1));
    let (state, _) = start(&conn);
    assert_eq!(state, InitState::Ready);
    let list = all_settings(&conn);
    assert_eq!(list.len(), 8);
    assert_eq!(value_of(&list, "tagline"), texts(&["Cepat"]));
    assert_eq!(value_of(&list, "site_title"), texts(&["UNNET"]));
}

#[test]
fn startup_restocks_an_emptied_catalog() {
    let conn = ready();
    for package in all_packages(&conn) {
        let outcome = run(&conn, &packages::delete(package.id.unwrap()));
        assert_eq!(outcome, Outcome::Changed(1));
    }
    assert_eq!(all_packages(&conn).len(), 0);
    let (state, _) = start(&conn);
    assert_eq!(state, InitState::Ready);
    let catalog = all_packages(&conn);
    let names: Vec<String> = catalog.iter().map(|p| p.name.clone()).collect();
    assert_eq!(names, texts(&["Starter", "Standard", "Premium", "Business"]));
}

#[test]
fn startup_leaves_a_catalog_with_a_package_alone() {
    let conn = ready();
    let catalog = all_packages(&conn);
    for package in &catalog[1..] {
        run(&conn, &packages::delete(package.id.unwrap()));
    }
    let (state, _) = start(&conn);
    assert_eq!(state, InitState::Ready);
    let left = all_packages(&conn);
    assert_eq!(left.len(), 1);
    assert_eq!(left[0], catalog[0]);
}

#[test]
fn upsert_twice_keeps_one_row() {
    let conn = ready();
    assert!(written(&run(&conn, &settings::upsert("site_title", "X"))).is_ok());
    assert!(written(&run(&conn, &settings::upsert("site_title", "Y"))).is_ok());
    let list = all_settings(&conn);
    assert_eq!(value_of(&list, "site_title"), texts(&["Y"]));
    assert_eq!(list.len(), 8);
}

#[test]
fn upsert_of_tagline_replaces_the_default() {
    let conn = ready();
    assert!(written(&run(&conn, &settings::upsert("tagline", "New Tagline"))).is_ok());
    let list = all_settings(&conn);
    let found: Vec<&Setting> = list.iter().filter(|s| s.key == "tagline").collect();
    assert_eq!(
        found,
        vec![&Setting { key: "tagline".to_string(), value: "New Tagline".to_string() }]
    );
}

#[test]
fn upsert_accepts_a_key_that_is_no_default() {
    let conn = ready();
    assert!(written(&run(&conn, &settings::upsert("", ""))).is_ok());
    let list = all_settings(&conn);
    assert_eq!(list.len(), 9);
    assert_eq!(value_of(&list, ""), texts(&[""]));
}

#[test]
fn delete_twice_succeeds() {
    let conn = ready();
    let first = run(&conn, &packages::delete(2));
    assert_eq!(first, Outcome::Changed(1));
    assert_eq!(written(&first), Ok(()));
    let second = run(&conn, &packages::delete(2));
    assert_eq!(second, Outcome::Changed(0));
    assert_eq!(written(&second), Ok(()));
    let ids: Vec<Option<i32>> = all_packages(&conn).iter().map(|p| p.id).collect();
    assert_eq!(ids, vec![Some(1), Some(3), Some(4)]);
}

#[test]
fn registrations_come_newest_first() {
    let conn = ready();
    for name in ["A", "B", "C"] {
        let outcome = run(&conn, &registrations::create(&form(name)));
        assert_eq!(written(&outcome), Ok(()));
    }
    let list = all_registrations(&conn);
    let names: Vec<String> = list.iter().map(|r| r.name.clone()).collect();
    assert_eq!(names, texts(&["C", "B", "A"]));
    let ids: Vec<i32> = list.iter().map(|r| r.id).collect();
    assert_eq!(ids, vec![3, 2, 1]);
    assert_eq!(list[0].phone, "0812");
    assert_eq!(list[0].address, "Jl. Mawar 1");
    assert_eq!(list[0].package, "Starter");
    assert_eq!(list[0].notes, "");
    assert_eq!(list[0].created_at.len(), "2024-01-01 00:00:00".len());
}

#[test]
fn registration_fields_are_stored_as_sent() {
    let conn = ready();
    let sent = RegistrationForm {
        name: "  ".to_string(),
        phone: "not a phone".to_string(),
        address: "'; DROP TABLE registrations; --".to_string(),
        package: "\u{1F4F6}".to_string(),
        notes: "line one\nline two".to_string(),
    };
    assert_eq!(written(&run(&conn, &registrations::create(&sent))), Ok(()));
    let list = all_registrations(&conn);
    assert_eq!(list.len(), 1);
    assert_eq!(list[0].name, sent.name);
    assert_eq!(list[0].phone, sent.phone);
    assert_eq!(list[0].address, sent.address);
    assert_eq!(list[0].package, sent.package);
    assert_eq!(list[0].notes, sent.notes);
}

#[test]
fn saved_package_is_listed() {
    let conn = ready();
    let lite = Package {
        id: None,
        name: "Lite".to_string(),
        speed: "10 Mbps".to_string(),
        price: "Rp 100rb/bulan".to_string(),
        features: texts(&["Basic"]),
    };
    let command = packages::save(&lite).unwrap();
    assert_eq!(written(&run(&conn, &command)), Ok(()));
    let catalog = all_packages(&conn);
    let found: Vec<&Package> = catalog.iter().filter(|p| p.name == "Lite").collect();
    assert_eq!(found.len(), 1);
    assert_eq!(found[0].id, Some(5));
    assert_eq!(found[0].speed, "10 Mbps");
    assert_eq!(found[0].price, "Rp 100rb/bulan");
    assert_eq!(found[0].features, texts(&["Basic"]));
}

#[test]
fn saved_features_read_back_in_order() {
    let conn = ready();
    let cases: Vec<Vec<String>> = vec![
        texts(&[]),
        texts(&[""]),
        texts(&["b", "a", "b"]),
        texts(&["say \"hi\"", "back\\slash", "tab\there", "new\nline", "[\"nested\"]"]),
        texts(&["\u{0}", "caf\u{e9}", "\u{1F680} cepat", "</script>"]),
    ];
    for (number, features) in cases.iter().enumerate() {
        let package = Package {
            id: None,
            name: format!("case {}", number),
            speed: "1 Mbps".to_string(),
            price: "Rp 1".to_string(),
            features: features.clone(),
        };
        let command = packages::save(&package).unwrap();
        assert_eq!(written(&run(&conn, &command)), Ok(()));
        let catalog = all_packages(&conn);
        let found: Vec<&Package> = catalog.iter().filter(|p| p.name == package.name).collect();
        assert_eq!(found.len(), 1);
        assert_eq!(&found[0].features, features);
    }
}

#[test]
fn save_with_an_id_overwrites_that_package() {
    let conn = ready();
    let changed = Package {
        id: Some(3),
        name: "Premium Plus".to_string(),
        speed: "500 Mbps".to_string(),
        price: "Rp 550rb/bulan".to_string(),
        features: texts(&["Router gratis"]),
    };
    let command = packages::save(&changed).unwrap();
    assert_eq!(run(&conn, &command), Outcome::Changed(1));
    let catalog = all_packages(&conn);
    assert_eq!(catalog.len(), 4);
    assert_eq!(catalog[2], changed);
    assert_eq!(catalog[0].name, "Starter");
    assert_eq!(catalog[3].name, "Business");
}

#[test]
fn save_with_an_unknown_id_changes_nothing() {
    let conn = ready();
    let before = all_packages(&conn);
    let ghost = Package {
        id: Some(99),
        name: "Nowhere".to_string(),
        speed: "0".to_string(),
        price: "0".to_string(),
        features: texts(&["x"]),
    };
    let outcome = run(&conn, &packages::save(&ghost).unwrap());
    assert_eq!(outcome, Outcome::Changed(0));
    assert_eq!(written(&outcome), Ok(()));
    assert_eq!(all_packages(&conn), before);
}

#[test]
fn unreadable_features_are_listed_as_none() {
    let conn = ready();
    let record = PackageRecord {
        name: "Odd".to_string(),
        speed: "1 Mbps".to_string(),
        price: "Rp 1".to_string(),
        features: "not a list".to_string(),
    };
    assert_eq!(run(&conn, &Command::InsertPackage(record)), Outcome::Changed(1));
    let catalog = all_packages(&conn);
    assert_eq!(catalog.len(), 5);
    assert_eq!(catalog[4].name, "Odd");
    assert_eq!(catalog[4].features, Vec::<String>::new());
    assert_eq!(catalog[0].features.len(), 3);
}

#[test]
fn a_failing_statement_is_an_error_and_no_crash() {
    let conn = Connection::open_in_memory().unwrap();
    let outcome = run(&conn, &packages::delete(1));
    assert_eq!(
        written(&outcome),
        Err(StoreError::Failed(Reason::Reported("no such table: packages".to_string())))
    );
    let listing = ask(&conn, &settings::list());
    assert_eq!(
        settings::listed(&listing),
        Err(StoreError::Failed(Reason::Reported("no such table: settings".to_string())))
    );
}

#[test]
fn every_statement_is_accepted_by_the_engine() {
    let conn = ready();
    let setting = Setting { key: "k".to_string(), value: "v".to_string() };
    let record = PackageRecord {
        name: "n".to_string(),
        speed: "s".to_string(),
        price: "p".to_string(),
        features: "[]".to_string(),
    };
    let commands = vec![
        Command::CreateSettings,
        Command::CreatePackages,
        Command::CreateRegistrations,
        Command::SeedSetting(setting.clone()),
        Command::UpsertSetting(setting.clone()),
        Command::InsertPackage(record.clone()),
        Command::UpdatePackage(1, record.clone()),
        Command::DeletePackage(1),
        Command::InsertRegistration(form("n")),
    ];
    for command in &commands {
        assert!(written(&run(&conn, command)).is_ok(), "{:?}", command);
    }
    let queries = [
        Query::ListSettings,
        Query::ListPackages,
        Query::CountPackages,
        Query::ListRegistrations,
    ];
    for query in &queries {
        assert!(matches!(ask(&conn, query), Outcome::Rows(_)), "{:?}", query);
    }
    assert_eq!(ask(&conn, &Query::CountPackages), Outcome::Rows(vec![vec![SqlValue::Integer(4)]]));
}

#[test]
fn seeding_a_present_key_changes_nothing() {
    let conn = ready();
    let offered = Setting { key: "tagline".to_string(), value: "Lain".to_string() };
    assert_eq!(run(&conn, &Command::SeedSetting(offered)), Outcome::Changed(0));
    assert_eq!(value_of(&all_settings(&conn), "tagline"), texts(&["Teknisi Cepat Tanggap"]));
}

/// What both stores are asked to do, one command after the other.
fn script() -> Vec<Command> {
    let record = |name: &str, features: &str| PackageRecord {
        name: name.to_string(),
        speed: "1 Mbps".to_string(),
        price: "Rp 1".to_string(),
        features: features.to_string(),
    };
    let lite = Package {
        id: None,
        name: "Lite".to_string(),
        speed: "10 Mbps".to_string(),
        price: "Rp 100rb/bulan".to_string(),
        features: texts(&["Basic", "a \"b\""]),
    };
    vec![
        settings::upsert("tagline", "New Tagline"),
        settings::upsert("motto", "Selalu online"),
        settings::upsert("site_title", "X"),
        settings::upsert("site_title", "Y"),
        Command::SeedSetting(Setting { key: "motto".to_string(), value: "lain".to_string() }),
        Command::SeedSetting(Setting { key: "jam".to_string(), value: "24".to_string() }),
        packages::delete(2),
        packages::delete(2),
        packages::save(&lite).unwrap(),
        packages::save(&Package { id: Some(3), ..lite.clone() }).unwrap(),
        packages::save(&Package { id: Some(40), ..lite.clone() }).unwrap(),
        Command::InsertPackage(record("Odd", "not a list")),
        packages::delete(5),
        Command::InsertPackage(record("After", "[]")),
        Command::UpdatePackage(-1, record("Nowhere", "[]")),
        registrations::create(&form("A")),
        registrations::create(&form("B")),
        registrations::create(&form("C")),
        Command::CreateSettings,
        Command::CreatePackages,
        Command::CreateRegistrations,
    ]
}

#[test]
fn the_store_in_memory_answers_as_the_engine_does() {
    let conn = ready();
    let mut store = MemoryStore::new();
    let (mut state, mut action) = init_db();
    loop {
        let outcome = match &action {
            InitAction::Open(_) => Outcome::Opened,
            InitAction::Run(command) => store.run(command),
            InitAction::Ask(query) => store.ask(query),
            InitAction::Finish | InitAction::Abort(_) => break,
        };
        let next = init_next(state, &outcome);
        state = next.0;
        action = next.1;
    }
    assert_eq!(state, InitState::Ready);

    let mut step = 0;
    let mut commands = script();
    commands.insert(0, Command::CreateSettings);
    for command in &commands {
        if step > 0 {
            let engine = run(&conn, command);
            let memory = store.run(command);
            assert_eq!(written(&engine), Ok(()), "{:?}", command);
            assert_eq!(written(&memory), Ok(()), "{:?}", command);
            if !matches!(
                command,
                Command::CreateSettings | Command::CreatePackages | Command::CreateRegistrations
            ) {
                assert_eq!(engine, memory, "{:?}", command);
            }
        }
        step += 1;
        assert_eq!(
            ask(&conn, &Query::ListSettings),
            store.ask(&Query::ListSettings),
            "settings after step {}",
            step
        );
        assert_eq!(
            ask(&conn, &Query::ListPackages),
            store.ask(&Query::ListPackages),
            "packages after step {}",
            step
        );
        assert_eq!(
            ask(&conn, &Query::CountPackages),
            store.ask(&Query::CountPackages),
            "count after step {}",
            step
        );
        let engine = all_registrations(&conn);
        let memory = registrations::listed(&store.ask(&Query::ListRegistrations)).unwrap();
        assert_eq!(engine.len(), memory.len());
        for (left, right) in engine.iter().zip(memory.iter()) {
            let stamped = Registration { created_at: left.created_at.clone(), ..right.clone() };
            assert_eq!(left, &stamped, "registrations after step {}", step);
        }
    }
    assert_eq!(step, 22);
}
