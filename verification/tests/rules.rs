//! The decisions of the library on given values, without a storage engine.

use unnet_backend::command::{Command, PackageRecord, Query};
use unnet_backend::entity::{ContactForm, Package, Registration, RegistrationForm, Setting};
use unnet_backend::error::{Reason, StoreError};
use unnet_backend::exchange::{answered, written, Outcome};
use unnet_backend::features::{
    checked_text, decode_features, encode_features, features_or_empty, same_strings,
};
use unnet_backend::init::{count_from, init_db, init_next, InitAction, InitState};
use unnet_backend::reply::{
    confirm, contact_message, refuse, registration_saved, reply_to, reply_to_report, Operation,
    Reply,
};
use unnet_backend::value::{number_at, optional_number_at, text_at, SqlValue};
use unnet_backend::{packages, registrations, settings};

fn text(content: &str) -> SqlValue {
    SqlValue::Text(content.to_string())
}

fn texts(items: &[&str]) -> Vec<String> {
    items.iter().map(|s| s.to_string()).collect()
}

fn unreadable() -> serde_json::Error {
    serde_json::from_str::<Vec<String>>("{").unwrap_err()
}

#[test]
fn features_are_written_as_a_json_list() {
    assert_eq!(encode_features(&texts(&["Basic"])), Ok("[\"Basic\"]".to_string()));
    assert_eq!(encode_features(&texts(&[])), Ok("[]".to_string()));
    assert_eq!(
        encode_features(&texts(&["a \"b\"", "c\\d", "e\nf"])),
        Ok("[\"a \\\"b\\\"\",\"c\\\\d\",\"e\\nf\"]".to_string())
    );
}

#[test]
fn features_are_read_from_a_json_list() {
    assert_eq!(decode_features("[\"Basic\"]"), texts(&["Basic"]));
    assert_eq!(decode_features(" [ \"a\" , \"b\" ] "), texts(&["a", "b"]));
    assert_eq!(decode_features("[\"\\u0041\\n\"]"), texts(&["A\n"]));
    assert_eq!(decode_features("[]"), texts(&[]));
}

#[test]
fn unreadable_features_are_no_features() {
    assert_eq!(decode_features(""), texts(&[]));
    assert_eq!(decode_features("Basic"), texts(&[]));
    assert_eq!(decode_features("[\"a\","), texts(&[]));
    assert_eq!(decode_features("[1, 2]"), texts(&[]));
    assert_eq!(decode_features("{\"a\": \"b\"}"), texts(&[]));
    assert_eq!(decode_features("[\"a\"] x"), texts(&[]));
    assert_eq!(features_or_empty(Err(unreadable())), texts(&[]));
    assert_eq!(features_or_empty(Ok(texts(&["x", "y"]))), texts(&["x", "y"]));
}

#[test]
fn a_text_is_accepted_only_if_it_reads_back() {
    let items = texts(&["a", "b"]);
    assert_eq!(checked_text(&items, Ok("[\"a\",\"b\"]".to_string())), Ok("[\"a\",\"b\"]".to_string()));
    assert_eq!(checked_text(&items, Ok("[\"a\", \"b\"]".to_string())), Ok("[\"a\", \"b\"]".to_string()));
    assert_eq!(checked_text(&items, Ok("[\"b\",\"a\"]".to_string())), Err(Reason::Encoding));
    assert_eq!(checked_text(&items, Ok("[\"a\"]".to_string())), Err(Reason::Encoding));
    assert_eq!(checked_text(&items, Ok("nonsense".to_string())), Err(Reason::Encoding));
    assert_eq!(checked_text(&items, Err(unreadable())), Err(Reason::Encoding));
    assert_eq!(checked_text(&texts(&[]), Ok("nonsense".to_string())), Ok("nonsense".to_string()));
}

#[test]
fn lists_of_strings_are_compared_in_order() {
    assert!(same_strings(&texts(&[]), &texts(&[])));
    assert!(same_strings(&texts(&["a", "b"]), &texts(&["a", "b"])));
    assert!(!same_strings(&texts(&["a", "b"]), &texts(&["b", "a"])));
    assert!(!same_strings(&texts(&["a"]), &texts(&["a", "a"])));
    assert!(!same_strings(&texts(&["a", "b"]), &texts(&["a", "c"])));
}

#[test]
fn columns_are_read_by_kind() {
    let row = vec![
        SqlValue::Integer(7),
        text("seven"),
        SqlValue::Null,
        SqlValue::Other,
        SqlValue::Integer(2147483647),
        SqlValue::Integer(2147483648),
        SqlValue::Integer(-2147483648),
        SqlValue::Integer(-2147483649),
    ];
    assert_eq!(text_at(&row, 1), Ok("seven".to_string()));
    assert_eq!(text_at(&row, 0), Err(Reason::WrongType(0)));
    assert_eq!(text_at(&row, 2), Err(Reason::WrongType(2)));
    assert_eq!(text_at(&row, 3), Err(Reason::WrongType(3)));
    assert_eq!(text_at(&row, 8), Err(Reason::MissingColumn(8)));

    assert_eq!(number_at(&row, 0), Ok(7));
    assert_eq!(number_at(&row, 4), Ok(2147483647));
    assert_eq!(number_at(&row, 6), Ok(-2147483648));
    assert_eq!(number_at(&row, 5), Err(Reason::OutOfRange(5)));
    assert_eq!(number_at(&row, 7), Err(Reason::OutOfRange(7)));
    assert_eq!(number_at(&row, 1), Err(Reason::WrongType(1)));
    assert_eq!(number_at(&row, 2), Err(Reason::WrongType(2)));
    assert_eq!(number_at(&row, 9), Err(Reason::MissingColumn(9)));

    assert_eq!(optional_number_at(&row, 0), Ok(Some(7)));
    assert_eq!(optional_number_at(&row, 2), Ok(None));
    assert_eq!(optional_number_at(&row, 5), Err(Reason::OutOfRange(5)));
    assert_eq!(optional_number_at(&row, 1), Err(Reason::WrongType(1)));
    assert_eq!(optional_number_at(&row, 8), Err(Reason::MissingColumn(8)));
}

#[test]
fn reports_are_judged() {
    assert_eq!(written(&Outcome::Changed(1)), Ok(()));
    assert_eq!(written(&Outcome::Changed(0)), Ok(()));
    assert_eq!(
        written(&Outcome::Failed("disk full".to_string())),
        Err(StoreError::Failed(Reason::Reported("disk full".to_string())))
    );
    assert_eq!(written(&Outcome::Rows(vec![])), Err(StoreError::Failed(Reason::Unexpected)));
    assert_eq!(written(&Outcome::Opened), Err(StoreError::Failed(Reason::Unexpected)));

    let rows = vec![vec![SqlValue::Integer(1)]];
    assert_eq!(answered(&Outcome::Rows(rows.clone())), Ok(&rows));
    assert_eq!(
        answered(&Outcome::Failed("locked".to_string())),
        Err(StoreError::Failed(Reason::Reported("locked".to_string())))
    );
    assert_eq!(answered(&Outcome::Changed(3)), Err(StoreError::Failed(Reason::Unexpected)));
    assert_eq!(answered(&Outcome::Opened), Err(StoreError::Failed(Reason::Unexpected)));
}

#[test]
fn settings_are_read_from_rows() {
    let rows = vec![vec![text("a"), text("1")], vec![text("b"), text("")]];
    assert_eq!(
        settings::listed(&Outcome::Rows(rows)),
        Ok(vec![
            Setting { key: "a".to_string(), value: "1".to_string() },
            Setting { key: "b".to_string(), value: "".to_string() },
        ])
    );
    assert_eq!(settings::listed(&Outcome::Rows(vec![])), Ok(vec![]));
    assert_eq!(settings::list(), Query::ListSettings);
}

#[test]
fn the_first_unreadable_row_is_the_error() {
    let rows = vec![
        vec![text("a"), text("1")],
        vec![text("b"), SqlValue::Null],
        vec![SqlValue::Integer(1), text("x")],
        vec![text("c")],
    ];
    assert_eq!(settings::settings_from_rows(&rows), Err(Reason::WrongType(1)));
    assert_eq!(
        settings::listed(&Outcome::Rows(rows)),
        Err(StoreError::Failed(Reason::WrongType(1)))
    );
    assert_eq!(
        settings::setting_from_row(&vec![SqlValue::Integer(1), SqlValue::Null]),
        Err(Reason::WrongType(0))
    );
    assert_eq!(settings::setting_from_row(&vec![text("c")]), Err(Reason::MissingColumn(1)));
    assert_eq!(settings::setting_from_row(&vec![]), Err(Reason::MissingColumn(0)));
}

#[test]
fn upsert_builds_the_replacing_command() {
    let command = settings::upsert("tagline", "New Tagline");
    assert_eq!(
        command,
        Command::UpsertSetting(Setting {
            key: "tagline".to_string(),
            value: "New Tagline".to_string()
        })
    );
    assert_eq!(command.sql(), "INSERT OR REPLACE INTO settings (key, value) VALUES (?1, ?2)");
    assert_eq!(command.parameters(), vec![text("tagline"), text("New Tagline")]);
}

#[test]
fn packages_are_read_from_rows() {
    let rows = vec![
        vec![SqlValue::Integer(5), text("Lite"), text("10 Mbps"), text("Rp 100rb/bulan"), text("[\"Basic\"]")],
        vec![SqlValue::Null, text("Odd"), text(""), text(""), text("oops")],
    ];
    assert_eq!(
        packages::listed(&Outcome::Rows(rows)),
        Ok(vec![
            Package {
                id: Some(5),
                name: "Lite".to_string(),
                speed: "10 Mbps".to_string(),
                price: "Rp 100rb/bulan".to_string(),
                features: texts(&["Basic"]),
            },
            Package {
                id: None,
                name: "Odd".to_string(),
                speed: "".to_string(),
                price: "".to_string(),
                features: texts(&[]),
            },
        ])
    );
    assert_eq!(packages::list(), Query::ListPackages);
}

#[test]
fn a_package_row_is_refused_at_its_first_bad_column() {
    let good = vec![SqlValue::Integer(1), text("n"), text("s"), text("p"), text("[]")];
    assert!(packages::package_from_row(&good).is_ok());
    let mut row = good.clone();
    row[0] = SqlValue::Integer(4294967296);
    row[2] = SqlValue::Null;
    assert_eq!(packages::package_from_row(&row), Err(Reason::OutOfRange(0)));
    row[0] = text("1");
    assert_eq!(packages::package_from_row(&row), Err(Reason::WrongType(0)));
    row[0] = SqlValue::Integer(1);
    assert_eq!(packages::package_from_row(&row), Err(Reason::WrongType(2)));
    let mut short = good.clone();
    short.pop();
    assert_eq!(packages::package_from_row(&short), Err(Reason::MissingColumn(4)));
    let mut number = good.clone();
    number[4] = SqlValue::Integer(0);
    assert_eq!(packages::package_from_row(&number), Err(Reason::WrongType(4)));
    assert_eq!(
        packages::packages_from_rows(&vec![good.clone(), short, row]),
        Err(Reason::MissingColumn(4))
    );
    assert_eq!(
        packages::listed(&Outcome::Failed("busy".to_string())),
        Err(StoreError::Failed(Reason::Reported("busy".to_string())))
    );
    assert_eq!(
        packages::listed(&Outcome::Changed(1)),
        Err(StoreError::Failed(Reason::Unexpected))
    );
}

#[test]
fn save_adds_without_an_id_and_overwrites_with_one() {
    let mut package = Package {
        id: None,
        name: "Lite".to_string(),
        speed: "10 Mbps".to_string(),
        price: "Rp 100rb/bulan".to_string(),
        features: texts(&["Basic", "Murah"]),
    };
    let record = PackageRecord {
        name: "Lite".to_string(),
        speed: "10 Mbps".to_string(),
        price: "Rp 100rb/bulan".to_string(),
        features: "[\"Basic\",\"Murah\"]".to_string(),
    };
    let insert = packages::save(&package).unwrap();
    assert_eq!(insert, Command::InsertPackage(record.clone()));
    assert_eq!(
        insert.sql(),
        "INSERT INTO packages (name, speed, price, features) VALUES (?1, ?2, ?3, ?4)"
    );
    assert_eq!(
        insert.parameters(),
        vec![text("Lite"), text("10 Mbps"), text("Rp 100rb/bulan"), text("[\"Basic\",\"Murah\"]")]
    );

    package.id = Some(-3);
    let update = packages::save(&package).unwrap();
    assert_eq!(update, Command::UpdatePackage(-3, record.clone()));
    assert_eq!(
        update.sql(),
        "UPDATE packages SET name=?1, speed=?2, price=?3, features=?4 WHERE id=?5"
    );
    assert_eq!(
        update.parameters(),
        vec![
            text("Lite"),
            text("10 Mbps"),
            text("Rp 100rb/bulan"),
            text("[\"Basic\",\"Murah\"]"),
            SqlValue::Integer(-3)
        ]
    );
    assert_eq!(
        packages::write(&package, "anything".to_string()),
        Command::UpdatePackage(-3, PackageRecord { features: "anything".to_string(), ..record })
    );
}

#[test]
fn delete_builds_the_command_for_the_id() {
    let command = packages::delete(2147483647);
    assert_eq!(command, Command::DeletePackage(2147483647));
    assert_eq!(command.sql(), "DELETE FROM packages WHERE id=?1");
    assert_eq!(command.parameters(), vec![SqlValue::Integer(2147483647)]);
}

#[test]
fn create_builds_the_command_for_the_form() {
    let form = RegistrationForm {
        name: "Budi".to_string(),
        phone: "0812".to_string(),
        address: "Jl. Melati".to_string(),
        package: "Premium".to_string(),
        notes: "sore".to_string(),
    };
    let command = registrations::create(&form);
    assert_eq!(command, Command::InsertRegistration(form.clone()));
    assert_eq!(
        command.sql(),
        "INSERT INTO registrations (name, phone, address, package, notes, created_at) VALUES (?1, ?2, ?3, ?4, ?5, datetime('now'))"
    );
    assert_eq!(
        command.parameters(),
        vec![text("Budi"), text("0812"), text("Jl. Melati"), text("Premium"), text("sore")]
    );
    assert_eq!(
        registrations::notice(&form),
        texts(&["Pendaftaran Baru:", "Nama: Budi, HP: 0812, Paket: Premium"])
    );
}

#[test]
fn registrations_are_read_from_rows() {
    let row = vec![
        SqlValue::Integer(3),
        text("Budi"),
        text("0812"),
        text("Jl. Melati"),
        text("Premium"),
        text("sore"),
        text("2024-05-01 10:00:00"),
    ];
    let expected = Registration {
        id: 3,
        name: "Budi".to_string(),
        phone: "0812".to_string(),
        address: "Jl. Melati".to_string(),
        package: "Premium".to_string(),
        notes: "sore".to_string(),
        created_at: "2024-05-01 10:00:00".to_string(),
    };
    assert_eq!(registrations::registration_from_row(&row), Ok(expected.clone()));
    assert_eq!(registrations::listed(&Outcome::Rows(vec![row.clone()])), Ok(vec![expected]));
    assert_eq!(registrations::list(), Query::ListRegistrations);

    let mut bad = row.clone();
    bad[0] = SqlValue::Null;
    assert_eq!(registrations::registration_from_row(&bad), Err(Reason::WrongType(0)));
    bad[0] = SqlValue::Integer(1);
    bad[6] = SqlValue::Null;
    bad[5] = SqlValue::Integer(0);
    assert_eq!(registrations::registration_from_row(&bad), Err(Reason::WrongType(5)));
    bad[5] = text("");
    assert_eq!(registrations::registration_from_row(&bad), Err(Reason::WrongType(6)));
    bad.pop();
    assert_eq!(registrations::registration_from_row(&bad), Err(Reason::MissingColumn(6)));
    assert_eq!(
        registrations::registrations_from_rows(&vec![row, bad]),
        Err(Reason::MissingColumn(6))
    );
    assert_eq!(
        registrations::listed(&Outcome::Opened),
        Err(StoreError::Failed(Reason::Unexpected))
    );
}

#[test]
fn queries_have_their_statements() {
    assert_eq!(Query::ListSettings.sql(), "SELECT key, value FROM settings");
    assert_eq!(Query::ListPackages.sql(), "SELECT id, name, speed, price, features FROM packages");
    assert_eq!(Query::CountPackages.sql(), "SELECT count(*) FROM packages");
    assert_eq!(
        Query::ListRegistrations.sql(),
        "SELECT id, name, phone, address, package, notes, created_at FROM registrations ORDER BY created_at DESC, id DESC"
    );
}

#[test]
fn startup_walks_through_its_statements() {
    let (mut state, mut action) = init_db();
    assert_eq!(state, InitState::Opening);
    assert_eq!(action, InitAction::Open("unnet.db".to_string()));

    let mut seen: Vec<Command> = Vec::new();
    let mut outcome = Outcome::Opened;
    loop {
        let next = init_next(state, &outcome);
        state = next.0;
        action = next.1;
        match &action {
            InitAction::Run(command) => {
                seen.push(command.clone());
                outcome = Outcome::Changed(1);
            }
            _ => break,
        }
    }
    assert_eq!(state, InitState::Counting);
    assert_eq!(action, InitAction::Ask(Query::CountPackages));
    assert_eq!(seen.len(), 11);
    assert_eq!(seen[0], Command::CreateSettings);
    assert_eq!(seen[1], Command::CreatePackages);
    assert_eq!(seen[2], Command::CreateRegistrations);
    let keys: Vec<String> = seen[3..]
        .iter()
        .map(|command| match command {
            Command::SeedSetting(setting) => setting.key.clone(),
            other => panic!("not a seeding command: {:?}", other),
        })
        .collect();
    assert_eq!(
        keys,
        texts(&[
            "site_title",
            "whatsapp_number",
            "address",
            "email",
            "work_hours",
            "tagline",
            "map_embed_url",
            "map_direct_url"
        ])
    );
    assert_eq!(
        seen[3],
        Command::SeedSetting(Setting { key: "site_title".to_string(), value: "UNNET".to_string() })
    );
    assert_eq!(seen[3].sql(), "INSERT OR IGNORE INTO settings (key, value) VALUES (?1, ?2)");
    assert_eq!(
        seen[0].sql(),
        "CREATE TABLE IF NOT EXISTS settings (key TEXT PRIMARY KEY, value TEXT)"
    );
    assert_eq!(seen[0].parameters(), vec![]);

    let stocked = init_next(InitState::Counting, &Outcome::Rows(vec![vec![SqlValue::Integer(0)]]));
    assert_eq!(stocked.0, InitState::Stocking(0));
    let mut names: Vec<String> = Vec::new();
    let mut state = stocked.0;
    let mut action = stocked.1;
    while let InitAction::Run(Command::InsertPackage(record)) = &action {
        names.push(record.name.clone());
        let next = init_next(state, &Outcome::Changed(1));
        state = next.0;
        action = next.1;
    }
    assert_eq!(names, texts(&["Starter", "Standard", "Premium", "Business"]));
    assert_eq!(state, InitState::Ready);
    assert_eq!(action, InitAction::Finish);
    assert_eq!(init_next(state, &Outcome::Changed(1)), (InitState::Ready, InitAction::Finish));
}

#[test]
fn startup_stocks_only_an_empty_catalog() {
    for count in [1, 4, 2147483647, -1] {
        let next =
            init_next(InitState::Counting, &Outcome::Rows(vec![vec![SqlValue::Integer(count)]]));
        assert_eq!(next, (InitState::Ready, InitAction::Finish));
    }
    let first = init_next(InitState::Counting, &Outcome::Rows(vec![vec![SqlValue::Integer(0)]]));
    assert_eq!(
        first,
        (
            InitState::Stocking(0),
            InitAction::Run(Command::InsertPackage(PackageRecord {
                name: "Starter".to_string(),
                speed: "30 Mbps".to_string(),
                price: "Rp 150rb/bulan".to_string(),
                features: "[\"Ideal untuk 1-3 perangkat\", \"Streaming HD lancar\", \"Bebas FUP\"]"
                    .to_string(),
            }))
        )
    );
}

#[test]
fn startup_gives_up_on_any_failure() {
    let unavailable = |reason: Reason| {
        (InitState::Failed, InitAction::Abort(StoreError::Unavailable(reason)))
    };
    let failed = Outcome::Failed("unable to open database file".to_string());
    let reported = Reason::Reported("unable to open database file".to_string());
    for state in [
        InitState::Opening,
        InitState::Preparing(0),
        InitState::Preparing(10),
        InitState::Counting,
        InitState::Stocking(3),
    ] {
        assert_eq!(init_next(state, &failed), unavailable(reported.clone()));
    }
    assert_eq!(init_next(InitState::Opening, &Outcome::Changed(1)), unavailable(Reason::Unexpected));
    assert_eq!(init_next(InitState::Preparing(2), &Outcome::Opened), unavailable(Reason::Unexpected));
    assert_eq!(init_next(InitState::Counting, &Outcome::Changed(0)), unavailable(Reason::Unexpected));
    assert_eq!(
        init_next(InitState::Stocking(0), &Outcome::Rows(vec![])),
        unavailable(Reason::Unexpected)
    );
    assert_eq!(
        init_next(InitState::Counting, &Outcome::Rows(vec![])),
        unavailable(Reason::MissingRow)
    );
    assert_eq!(
        init_next(InitState::Counting, &Outcome::Rows(vec![vec![]])),
        unavailable(Reason::MissingColumn(0))
    );
    assert_eq!(
        init_next(InitState::Counting, &Outcome::Rows(vec![vec![SqlValue::Null]])),
        unavailable(Reason::WrongType(0))
    );
    assert_eq!(
        init_next(InitState::Counting, &Outcome::Rows(vec![vec![SqlValue::Integer(1 << 40)]])),
        unavailable(Reason::OutOfRange(0))
    );
    assert_eq!(init_next(InitState::Failed, &Outcome::Opened), unavailable(Reason::Unexpected));
}

#[test]
fn the_count_is_read_from_the_first_row() {
    assert_eq!(count_from(&vec![vec![SqlValue::Integer(4)]]), Ok(4));
    assert_eq!(count_from(&vec![vec![SqlValue::Integer(0)], vec![SqlValue::Integer(9)]]), Ok(0));
    assert_eq!(count_from(&vec![]), Err(Reason::MissingRow));
    assert_eq!(count_from(&vec![vec![text("4")]]), Err(Reason::WrongType(0)));
}

#[test]
fn operations_are_confirmed_with_their_messages() {
    let ok = |message: &str| Reply { status: 200, message: message.to_string() };
    assert_eq!(
        confirm(Operation::Contact),
        ok("Pendaftaran berhasil diterima! Tim kami akan segera menghubungi Anda.")
    );
    assert_eq!(confirm(Operation::UpdateSetting), ok("Setting updated"));
    assert_eq!(confirm(Operation::SavePackage), ok("Package saved"));
    assert_eq!(confirm(Operation::DeletePackage), ok("Package deleted"));
    assert_eq!(confirm(Operation::SaveRegistration), ok("Registration saved"));
    assert_eq!(reply_to(Operation::SavePackage, &Ok(())), ok("Package saved"));
}

#[test]
fn failures_are_answered_with_status_500() {
    let error = StoreError::Failed(Reason::Reported("database is locked".to_string()));
    let expected = Reply { status: 500, message: "storage error: database is locked".to_string() };
    assert_eq!(refuse(&error), expected);
    assert_eq!(reply_to(Operation::DeletePackage, &Err(error)), expected);
    assert_eq!(
        refuse(&StoreError::Unavailable(Reason::MissingRow)).message,
        "storage unavailable: a query gave no row"
    );
}

#[test]
fn errors_have_messages() {
    let failed = |reason: Reason| StoreError::Failed(reason).message();
    assert_eq!(failed(Reason::Reported("x".to_string())), "storage error: x");
    assert_eq!(failed(Reason::MissingRow), "storage error: a query gave no row");
    assert_eq!(failed(Reason::MissingColumn(2)), "storage error: a result row has too few columns");
    assert_eq!(
        failed(Reason::WrongType(0)),
        "storage error: a result column holds a value of the wrong type"
    );
    assert_eq!(failed(Reason::OutOfRange(0)), "storage error: a stored integer is out of range");
    assert_eq!(
        failed(Reason::Unexpected),
        "storage error: the storage engine gave an unexpected report"
    );
    assert_eq!(failed(Reason::Encoding), "storage error: the feature list cannot be stored");
    assert_eq!(Reason::Encoding.message(), "the feature list cannot be stored");
    let error = StoreError::Unavailable(Reason::Unexpected);
    assert_eq!(error.reason(), &Reason::Unexpected);
}

#[test]
fn a_contact_form_is_logged_and_confirmed() {
    let form = ContactForm {
        name: "Siti".to_string(),
        phone: "0856".to_string(),
        address: "Jl. Kenanga 5".to_string(),
        package: "Standard".to_string(),
    };
    let (lines, reply) = contact_message(&form);
    assert_eq!(
        lines,
        texts(&[
            "Menerima Data Pendaftaran Baru:",
            "-------------------------------------------------",
            "Nama    : Siti",
            "Telepon : 0856",
            "Alamat  : Jl. Kenanga 5",
            "Paket   : Standard",
            "-------------------------------------------------",
        ])
    );
    assert_eq!(reply, confirm(Operation::Contact));
}

#[test]
fn a_report_is_answered_for_its_operation() {
    assert_eq!(
        reply_to_report(Operation::UpdateSetting, &Outcome::Changed(1)),
        Reply { status: 200, message: "Setting updated".to_string() }
    );
    assert_eq!(
        reply_to_report(Operation::DeletePackage, &Outcome::Changed(0)),
        Reply { status: 200, message: "Package deleted".to_string() }
    );
    assert_eq!(
        reply_to_report(Operation::SavePackage, &Outcome::Failed("disk full".to_string())),
        Reply { status: 500, message: "storage error: disk full".to_string() }
    );
    assert_eq!(
        reply_to_report(Operation::SavePackage, &Outcome::Rows(vec![])),
        Reply {
            status: 500,
            message: "storage error: the storage engine gave an unexpected report".to_string()
        }
    );
}

#[test]
fn a_registration_is_announced_only_when_stored() {
    let form = RegistrationForm {
        name: "Budi".to_string(),
        phone: "0812".to_string(),
        address: "Jl. Melati".to_string(),
        package: "Premium".to_string(),
        notes: "".to_string(),
    };
    let (lines, reply) = registration_saved(&form, &Outcome::Changed(1));
    assert_eq!(lines, texts(&["Pendaftaran Baru:", "Nama: Budi, HP: 0812, Paket: Premium"]));
    assert_eq!(reply, Reply { status: 200, message: "Registration saved".to_string() });

    let (lines, reply) = registration_saved(&form, &Outcome::Failed("locked".to_string()));
    assert_eq!(lines, texts(&[]));
    assert_eq!(reply, Reply { status: 500, message: "storage error: locked".to_string() });
}
