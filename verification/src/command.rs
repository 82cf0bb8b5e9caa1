//! The statements that the library hands to the storage engine: commands
//! that change the store, with their parameters, and queries that read it.

use crate::entity::{RegistrationForm, RegistrationFormView, Setting, SettingView};
use crate::value::{Cell, SqlValue};
use vstd::prelude::*;

verus! {

/// The columns of a package that a statement writes: the feature list is
/// already the text that the row stores.
#[derive(Debug, Clone, PartialEq, Eq)]
pub struct PackageRecord {
    pub name: String,
    pub speed: String,
    pub price: String,
    pub features: String,
}

/// The mathematical value of a [`PackageRecord`].
pub struct PackageRecordView {
    pub name: Seq<char>,
    pub speed: Seq<char>,
    pub price: Seq<char>,
    pub features: Seq<char>,
}

impl View for PackageRecord {
    type V = PackageRecordView;

    open spec fn view(&self) -> PackageRecordView {
        PackageRecordView {
            name: self.name@,
            speed: self.speed@,
            price: self.price@,
            features: self.features@,
        }
    }
}

/// A statement that changes the store.
#[derive(Debug, Clone, PartialEq, Eq)]
pub enum Command {
    /// Creates the settings table unless it exists.
    CreateSettings,
    /// Creates the packages table unless it exists.
    CreatePackages,
    /// Creates the registrations table unless it exists.
    CreateRegistrations,
    /// Adds a setting unless its key is present.
    SeedSetting(Setting),
    /// Adds a setting, replacing the one with the same key.
    UpsertSetting(Setting),
    /// Adds a package; storage assigns its id.
    InsertPackage(PackageRecord),
    /// Overwrites the package of this id, if there is one.
    UpdatePackage(i32, PackageRecord),
    /// Removes the package of this id, if there is one.
    DeletePackage(i32),
    /// Adds a registration; storage assigns its id and its time.
    InsertRegistration(RegistrationForm),
}

/// The mathematical value of a [`Command`].
pub enum CommandView {
    CreateSettings,
    CreatePackages,
    CreateRegistrations,
    SeedSetting(SettingView),
    UpsertSetting(SettingView),
    InsertPackage(PackageRecordView),
    UpdatePackage(int, PackageRecordView),
    DeletePackage(int),
    InsertRegistration(RegistrationFormView),
}

impl View for Command {
    type V = CommandView;

    open spec fn view(&self) -> CommandView {
        match *self {
            Command::CreateSettings => CommandView::CreateSettings,
            Command::CreatePackages => CommandView::CreatePackages,
            Command::CreateRegistrations => CommandView::CreateRegistrations,
            Command::SeedSetting(setting) => CommandView::SeedSetting(setting@),
            Command::UpsertSetting(setting) => CommandView::UpsertSetting(setting@),
            Command::InsertPackage(record) => CommandView::InsertPackage(record@),
            Command::UpdatePackage(id, record) => CommandView::UpdatePackage(id as int, record@),
            Command::DeletePackage(id) => CommandView::DeletePackage(id as int),
            Command::InsertRegistration(form) => CommandView::InsertRegistration(form@),
        }
    }
}

/// A statement that reads the store.
#[derive(Debug, Clone, Copy, PartialEq, Eq, Structural)]
pub enum Query {
    /// Every setting: key, value.
    ListSettings,
    /// Every package: id, name, speed, price, features.
    ListPackages,
    /// One row with the number of packages.
    CountPackages,
    /// Every registration, newest first: id, name, phone, address, package,
    /// notes, created_at.
    ListRegistrations,
}

/// Creates the settings table unless it exists.
pub const CREATE_SETTINGS: &'static str =
    "CREATE TABLE IF NOT EXISTS settings (key TEXT PRIMARY KEY, value TEXT)";

/// Creates the packages table unless it exists.
pub const CREATE_PACKAGES: &'static str =
    "CREATE TABLE IF NOT EXISTS packages (id INTEGER PRIMARY KEY AUTOINCREMENT, name TEXT NOT NULL, speed TEXT NOT NULL, price TEXT NOT NULL, features TEXT NOT NULL)";

/// Creates the registrations table unless it exists.
pub const CREATE_REGISTRATIONS: &'static str =
    "CREATE TABLE IF NOT EXISTS registrations (id INTEGER PRIMARY KEY AUTOINCREMENT, name TEXT NOT NULL, phone TEXT NOT NULL, address TEXT NOT NULL, package TEXT NOT NULL, notes TEXT NOT NULL, created_at TEXT NOT NULL)";

/// Adds a setting unless its key is present.
pub const SEED_SETTING: &'static str =
    "INSERT OR IGNORE INTO settings (key, value) VALUES (?1, ?2)";

/// Adds a setting in place of the one with the same key.
pub const UPSERT_SETTING: &'static str =
    "INSERT OR REPLACE INTO settings (key, value) VALUES (?1, ?2)";

/// Adds a package under a new id.
pub const INSERT_PACKAGE: &'static str =
    "INSERT INTO packages (name, speed, price, features) VALUES (?1, ?2, ?3, ?4)";

/// Overwrites the columns of the package of an id.
pub const UPDATE_PACKAGE: &'static str =
    "UPDATE packages SET name=?1, speed=?2, price=?3, features=?4 WHERE id=?5";

/// Removes the package of an id.
pub const DELETE_PACKAGE: &'static str = "DELETE FROM packages WHERE id=?1";

/// Adds a registration under a new id, with the time of the engine.
pub const INSERT_REGISTRATION: &'static str =
    "INSERT INTO registrations (name, phone, address, package, notes, created_at) VALUES (?1, ?2, ?3, ?4, ?5, datetime('now'))";

/// Reads every setting.
pub const LIST_SETTINGS: &'static str = "SELECT key, value FROM settings";

/// Reads every package.
pub const LIST_PACKAGES: &'static str = "SELECT id, name, speed, price, features FROM packages";

/// Counts the packages.
pub const COUNT_PACKAGES: &'static str = "SELECT count(*) FROM packages";

/// Reads every registration, the one created last first.
pub const LIST_REGISTRATIONS: &'static str =
    "SELECT id, name, phone, address, package, notes, created_at FROM registrations ORDER BY created_at DESC, id DESC";

/// The text of a command in the storage engine's language.
pub open spec fn command_text(command: CommandView) -> Seq<char> {
    match command {
        CommandView::CreateSettings => CREATE_SETTINGS@,
        CommandView::CreatePackages => CREATE_PACKAGES@,
        CommandView::CreateRegistrations => CREATE_REGISTRATIONS@,
        CommandView::SeedSetting(_) => SEED_SETTING@,
        CommandView::UpsertSetting(_) => UPSERT_SETTING@,
        CommandView::InsertPackage(_) => INSERT_PACKAGE@,
        CommandView::UpdatePackage(_, _) => UPDATE_PACKAGE@,
        CommandView::DeletePackage(_) => DELETE_PACKAGE@,
        CommandView::InsertRegistration(_) => INSERT_REGISTRATION@,
    }
}

/// The values bound to the numbered parameters of a command, in order.
pub open spec fn command_parameters(command: CommandView) -> Seq<Cell> {
    match command {
        CommandView::CreateSettings => seq![],
        CommandView::CreatePackages => seq![],
        CommandView::CreateRegistrations => seq![],
        CommandView::SeedSetting(setting) => seq![
            Cell::Text(setting.key),
            Cell::Text(setting.value),
        ],
        CommandView::UpsertSetting(setting) => seq![
            Cell::Text(setting.key),
            Cell::Text(setting.value),
        ],
        CommandView::InsertPackage(record) => seq![
            Cell::Text(record.name),
            Cell::Text(record.speed),
            Cell::Text(record.price),
            Cell::Text(record.features),
        ],
        CommandView::UpdatePackage(id, record) => seq![
            Cell::Text(record.name),
            Cell::Text(record.speed),
            Cell::Text(record.price),
            Cell::Text(record.features),
            Cell::Integer(id),
        ],
        CommandView::DeletePackage(id) => seq![Cell::Integer(id)],
        CommandView::InsertRegistration(form) => seq![
            Cell::Text(form.name),
            Cell::Text(form.phone),
            Cell::Text(form.address),
            Cell::Text(form.package),
            Cell::Text(form.notes),
        ],
    }
}

/// The text of a query in the storage engine's language.
pub open spec fn query_text(query: Query) -> Seq<char> {
    match query {
        Query::ListSettings => LIST_SETTINGS@,
        Query::ListPackages => LIST_PACKAGES@,
        Query::CountPackages => COUNT_PACKAGES@,
        Query::ListRegistrations => LIST_REGISTRATIONS@,
    }
}

/// A text parameter with the content of `text`.
fn text_parameter(text: &String) -> (value: SqlValue)
    ensures
        value@ == Cell::Text(text@),
{
    SqlValue::Text(text.clone())
}

/// The four text columns of a package record, in the order of the table.
fn record_parameters(record: &PackageRecord) -> (values: Vec<SqlValue>)
    ensures
        values.deep_view() == seq![
            Cell::Text(record.name@),
            Cell::Text(record.speed@),
            Cell::Text(record.price@),
            Cell::Text(record.features@),
        ],
{
    let mut values: Vec<SqlValue> = Vec::new();
    values.push(text_parameter(&record.name));
    values.push(text_parameter(&record.speed));
    values.push(text_parameter(&record.price));
    values.push(text_parameter(&record.features));
    values
}

impl Command {
    /// The statement to hand to the storage engine.
    pub fn sql(&self) -> (text: &'static str)
        ensures
            text@ == command_text(self@),
    {
        match self {
            Command::CreateSettings => CREATE_SETTINGS,
            Command::CreatePackages => CREATE_PACKAGES,
            Command::CreateRegistrations => CREATE_REGISTRATIONS,
            Command::SeedSetting(_) => SEED_SETTING,
            Command::UpsertSetting(_) => UPSERT_SETTING,
            Command::InsertPackage(_) => INSERT_PACKAGE,
            Command::UpdatePackage(_, _) => UPDATE_PACKAGE,
            Command::DeletePackage(_) => DELETE_PACKAGE,
            Command::InsertRegistration(_) => INSERT_REGISTRATION,
        }
    }

    /// The values to bind to the statement's numbered parameters, in order.
    pub fn parameters(&self) -> (values: Vec<SqlValue>)
        ensures
            values.deep_view() == command_parameters(self@),
    {
        match self {
            Command::CreateSettings | Command::CreatePackages | Command::CreateRegistrations => {
                let values: Vec<SqlValue> = Vec::new();
                values
            },
            Command::SeedSetting(setting) | Command::UpsertSetting(setting) => {
                let mut values: Vec<SqlValue> = Vec::new();
                values.push(text_parameter(&setting.key));
                values.push(text_parameter(&setting.value));
                values
            },
            Command::InsertPackage(record) => record_parameters(record),
            Command::UpdatePackage(id, record) => {
                let mut values = record_parameters(record);
                let ghost before = values.deep_view();
                values.push(SqlValue::Integer(*id as i64));
                assert(values.deep_view() =~= before.push(Cell::Integer(*id as int)));
                values
            },
            Command::DeletePackage(id) => {
                let mut values: Vec<SqlValue> = Vec::new();
                values.push(SqlValue::Integer(*id as i64));
                values
            },
            Command::InsertRegistration(form) => {
                let mut values: Vec<SqlValue> = Vec::new();
                values.push(text_parameter(&form.name));
                values.push(text_parameter(&form.phone));
                values.push(text_parameter(&form.address));
                values.push(text_parameter(&form.package));
                values.push(text_parameter(&form.notes));
                values
            },
        }
    }
}

impl Query {
    /// The statement to hand to the storage engine.  It has no parameters.
    pub fn sql(&self) -> (text: &'static str)
        ensures
            text@ == query_text(*self),
    {
        match self {
            Query::ListSettings => LIST_SETTINGS,
            Query::ListPackages => LIST_PACKAGES,
            Query::CountPackages => COUNT_PACKAGES,
            Query::ListRegistrations => LIST_REGISTRATIONS,
        }
    }
}

} // verus!
