//! Preparing the store at start-up: the tables are created where they are
//! missing, each default setting is added where its key is missing, and the
//! default catalog is added where there is no package at all.
//!
//! The work is a conversation.  [`init_db`] gives the first thing to do;
//! [`init_next`] takes the report on it and gives the next, until the store
//! is ready or the start-up is given up.

use crate::command::{Command, CommandView, PackageRecord, PackageRecordView, Query};
use crate::entity::{Setting, SettingView};
use crate::error::{Reason, ReasonView, StoreError, StoreErrorView};
use crate::exchange::{Outcome, OutcomeView};
use crate::value::{number_at, number_in, Cell, SqlValue};
use vstd::prelude::*;

verus! {

/// The map to embed in the page.
pub const MAP_EMBED_URL: &'static str =
    "https://www.google.com/maps/embed?pb=!1m18!1m12!1m3!1d3953.8!2d111.7626166!3d-7.2648367!2m3!1f0!2f0!3f0!3m2!1i1024!2i768!4f13.1!3m3!1m2!1s0x2e79d5e75d766211%3A0x2c8b3ef233d2ef5a!2sUNNET%20WIFI%20cepat%20tanggap%20teknisinya!5e0!3m2!1sen!2sid!4v1234567890";

/// The map to open from the page.
pub const MAP_DIRECT_URL: &'static str =
    "https://www.google.com/maps/place/UNNET+WIFI+cepat+tanggap+teknisinya/@-7.2648314,111.7600417,1078m/data=!3m1!1e3!4m8!3m7!1s0x2e79d5e75d766211:0x2c8b3ef233d2ef5a!8m2!3d-7.2648367!4d111.7626166!9m1!1b1!16s%2Fg%2F11smmhxn1f";

/// The features of the Starter package, as stored.
pub const STARTER_FEATURES: &'static str =
    "[\"Ideal untuk 1-3 perangkat\", \"Streaming HD lancar\", \"Bebas FUP\"]";

/// The features of the Standard package, as stored.
pub const STANDARD_FEATURES: &'static str =
    "[\"Ideal untuk 4-7 perangkat\", \"Streaming 4K lancar\", \"Gaming rendah latensi\"]";

/// The features of the Premium package, as stored.
pub const PREMIUM_FEATURES: &'static str =
    "[\"Ideal untuk Smart Home\", \"Upload file besar cepat\", \"Prioritas Bandwidth\"]";

/// The features of the Business package, as stored.
pub const BUSINESS_FEATURES: &'static str =
    "[\"Koneksi Bisnis/Kantor\", \"IP Public Static\", \"Support Prioritas\"]";

/// The file that holds the store.
pub const STORE_PATH: &'static str = "unnet.db";

/// The settings that a fresh store starts with.
pub open spec fn default_settings() -> Seq<SettingView> {
    seq![
        SettingView { key: "site_title"@, value: "UNNET"@ },
        SettingView { key: "whatsapp_number"@, value: "6285233053443"@ },
        SettingView { key: "address"@, value: "Jawa Timur & Sekitarnya"@ },
        SettingView { key: "email"@, value: "info@unnet.id"@ },
        SettingView { key: "work_hours"@, value: "Senin - Sabtu: 08:00 - 20:00"@ },
        SettingView { key: "tagline"@, value: "Teknisi Cepat Tanggap"@ },
        SettingView {
            key: "map_embed_url"@,
            value: MAP_EMBED_URL@,
        },
        SettingView {
            key: "map_direct_url"@,
            value: MAP_DIRECT_URL@,
        },
    ]
}

/// The packages that an empty catalog is stocked with, each with its
/// feature list as the stored text.
pub open spec fn default_catalog() -> Seq<PackageRecordView> {
    seq![
        PackageRecordView {
            name: "Starter"@,
            speed: "30 Mbps"@,
            price: "Rp 150rb/bulan"@,
            features: STARTER_FEATURES@,
        },
        PackageRecordView {
            name: "Standard"@,
            speed: "100 Mbps"@,
            price: "Rp 250rb/bulan"@,
            features: STANDARD_FEATURES@,
        },
        PackageRecordView {
            name: "Premium"@,
            speed: "300 Mbps"@,
            price: "Rp 450rb/bulan"@,
            features: PREMIUM_FEATURES@,
        },
        PackageRecordView {
            name: "Business"@,
            speed: "1 Gbps"@,
            price: "Rp 850rb/bulan"@,
            features: BUSINESS_FEATURES@,
        },
    ]
}

/// The commands that prepare a store before its packages are counted: the
/// three tables, then one seeding command for each default setting.
pub open spec fn preparation() -> Seq<CommandView> {
    seq![
        CommandView::CreateSettings,
        CommandView::CreatePackages,
        CommandView::CreateRegistrations,
    ] + Seq::new(default_settings().len(), |i: int| CommandView::SeedSetting(default_settings()[i]))
}

/// The commands that stock an empty catalog: one for each default package.
pub open spec fn stocking() -> Seq<CommandView> {
    Seq::new(default_catalog().len(), |i: int| CommandView::InsertPackage(default_catalog()[i]))
}

/// The number of preparing commands.
pub const PREPARING: usize = 11;

/// The number of stocking commands.
pub const STOCKING: usize = 4;

/// How far the start-up has come.
#[derive(Debug, Clone, Copy, PartialEq, Eq, Structural)]
pub enum InitState {
    /// The store is being opened.
    Opening,
    /// The preparing command of this index is running.
    Preparing(usize),
    /// The packages are being counted.
    Counting,
    /// The stocking command of this index is running.
    Stocking(usize),
    /// The store is ready for the service.
    Ready,
    /// The start-up was given up.
    Failed,
}

/// What the program has to do next for the start-up.
#[derive(Debug, Clone, PartialEq, Eq)]
pub enum InitAction {
    /// Open the store in the file of this name, creating it if need be.
    Open(String),
    /// Run this command.
    Run(Command),
    /// Run this query.
    Ask(Query),
    /// Nothing more: hand the open store to the service.
    Finish,
    /// Nothing more: the service cannot start, for this reason.
    Abort(StoreError),
}

/// The mathematical value of an [`InitAction`].
pub enum InitActionView {
    Open(Seq<char>),
    Run(CommandView),
    Ask(Query),
    Finish,
    Abort(StoreErrorView),
}

impl View for InitAction {
    type V = InitActionView;

    open spec fn view(&self) -> InitActionView {
        match *self {
            InitAction::Open(path) => InitActionView::Open(path@),
            InitAction::Run(command) => InitActionView::Run(command@),
            InitAction::Ask(query) => InitActionView::Ask(query),
            InitAction::Finish => InitActionView::Finish,
            InitAction::Abort(error) => InitActionView::Abort(error@),
        }
    }
}

/// The number of packages that the report on the count holds: the integer
/// in the first column of the first row.
pub open spec fn count_of(rows: Seq<Seq<Cell>>) -> Result<int, ReasonView> {
    if rows.len() == 0 {
        Err(ReasonView::MissingRow)
    } else {
        number_in(rows[0], 0)
    }
}

/// The start of the conversation: the store has to be opened.
pub open spec fn init_start() -> (InitState, InitActionView) {
    (InitState::Opening, InitActionView::Open(STORE_PATH@))
}

/// Giving up the start-up for a reason.
pub open spec fn give_up(reason: ReasonView) -> (InitState, InitActionView) {
    (InitState::Failed, InitActionView::Abort(StoreErrorView::Unavailable(reason)))
}

/// Giving up on a report that is no success: for the engine's message where
/// it failed, as unexpected otherwise.
pub open spec fn give_up_on(outcome: OutcomeView) -> (InitState, InitActionView) {
    match outcome {
        OutcomeView::Failed(text) => give_up(ReasonView::Reported(text)),
        _ => give_up(ReasonView::Unexpected),
    }
}

/// What follows preparing command `index`.
pub open spec fn after_preparing(index: int) -> (InitState, InitActionView) {
    if 0 <= index + 1 < preparation().len() {
        (InitState::Preparing((index + 1) as usize), InitActionView::Run(preparation()[index + 1]))
    } else {
        (InitState::Counting, InitActionView::Ask(Query::CountPackages))
    }
}

/// What follows stocking command `index`.
pub open spec fn after_stocking(index: int) -> (InitState, InitActionView) {
    if 0 <= index + 1 < stocking().len() {
        (InitState::Stocking((index + 1) as usize), InitActionView::Run(stocking()[index + 1]))
    } else {
        (InitState::Ready, InitActionView::Finish)
    }
}

/// What follows the count: the catalog is stocked only where there is no
/// package.
pub open spec fn after_counting(rows: Seq<Seq<Cell>>) -> (InitState, InitActionView) {
    match count_of(rows) {
        Err(reason) => give_up(reason),
        Ok(count) => if count == 0 {
            (InitState::Stocking(0), InitActionView::Run(stocking()[0]))
        } else {
            (InitState::Ready, InitActionView::Finish)
        },
    }
}

/// The next state and the next thing to do, given the state and the report
/// on what was done last.  Any failure ends the start-up.
pub open spec fn init_step(state: InitState, outcome: OutcomeView) -> (InitState, InitActionView) {
    match state {
        InitState::Opening => match outcome {
            OutcomeView::Opened => (InitState::Preparing(0), InitActionView::Run(preparation()[0])),
            _ => give_up_on(outcome),
        },
        InitState::Preparing(index) => match outcome {
            OutcomeView::Changed(_) => after_preparing(index as int),
            _ => give_up_on(outcome),
        },
        InitState::Counting => match outcome {
            OutcomeView::Rows(rows) => after_counting(rows),
            _ => give_up_on(outcome),
        },
        InitState::Stocking(index) => match outcome {
            OutcomeView::Changed(_) => after_stocking(index as int),
            _ => give_up_on(outcome),
        },
        InitState::Ready => (InitState::Ready, InitActionView::Finish),
        InitState::Failed => give_up(ReasonView::Unexpected),
    }
}

/// The default setting of this index.
fn default_setting(index: usize) -> (setting: Setting)
    requires
        index < default_settings().len(),
    ensures
        setting@ == default_settings()[index as int],
{
    if index == 0 {
        Setting { key: String::from_str("site_title"), value: String::from_str("UNNET") }
    } else if index == 1 {
        Setting {
            key: String::from_str("whatsapp_number"),
            value: String::from_str("6285233053443"),
        }
    } else if index == 2 {
        Setting {
            key: String::from_str("address"),
            value: String::from_str("Jawa Timur & Sekitarnya"),
        }
    } else if index == 3 {
        Setting { key: String::from_str("email"), value: String::from_str("info@unnet.id") }
    } else if index == 4 {
        Setting {
            key: String::from_str("work_hours"),
            value: String::from_str("Senin - Sabtu: 08:00 - 20:00"),
        }
    } else if index == 5 {
        Setting {
            key: String::from_str("tagline"),
            value: String::from_str("Teknisi Cepat Tanggap"),
        }
    } else if index == 6 {
        Setting {
            key: String::from_str("map_embed_url"),
            value: String::from_str(MAP_EMBED_URL),
        }
    } else {
        Setting {
            key: String::from_str("map_direct_url"),
            value: String::from_str(MAP_DIRECT_URL),
        }
    }
}

/// The default package of this index.
fn default_package(index: usize) -> (record: PackageRecord)
    requires
        index < default_catalog().len(),
    ensures
        record@ == default_catalog()[index as int],
{
    if index == 0 {
        PackageRecord {
            name: String::from_str("Starter"),
            speed: String::from_str("30 Mbps"),
            price: String::from_str("Rp 150rb/bulan"),
            features: String::from_str(STARTER_FEATURES),
        }
    } else if index == 1 {
        PackageRecord {
            name: String::from_str("Standard"),
            speed: String::from_str("100 Mbps"),
            price: String::from_str("Rp 250rb/bulan"),
            features: String::from_str(STANDARD_FEATURES),
        }
    } else if index == 2 {
        PackageRecord {
            name: String::from_str("Premium"),
            speed: String::from_str("300 Mbps"),
            price: String::from_str("Rp 450rb/bulan"),
            features: String::from_str(PREMIUM_FEATURES),
        }
    } else {
        PackageRecord {
            name: String::from_str("Business"),
            speed: String::from_str("1 Gbps"),
            price: String::from_str("Rp 850rb/bulan"),
            features: String::from_str(BUSINESS_FEATURES),
        }
    }
}

/// The preparing command of this index.
fn preparing_command(index: usize) -> (command: Command)
    requires
        index < preparation().len(),
    ensures
        command@ == preparation()[index as int],
{
    if index == 0 {
        Command::CreateSettings
    } else if index == 1 {
        Command::CreatePackages
    } else if index == 2 {
        Command::CreateRegistrations
    } else {
        Command::SeedSetting(default_setting(index - 3))
    }
}

/// The stocking command of this index.
fn stocking_command(index: usize) -> (command: Command)
    requires
        index < stocking().len(),
    ensures
        command@ == stocking()[index as int],
{
    Command::InsertPackage(default_package(index))
}

/// Reads the number of packages out of the rows of the count.
pub fn count_from(rows: &Vec<Vec<SqlValue>>) -> (res: Result<i32, Reason>)
    ensures
        match res {
            Ok(count) => count_of(rows.deep_view()) == Ok::<int, ReasonView>(count as int),
            Err(reason) => count_of(rows.deep_view()) == Err::<int, ReasonView>(reason@),
        },
{
    if rows.len() == 0 {
        return Err(Reason::MissingRow);
    }
    number_at(&rows[0], 0)
}

/// Gives up the start-up on a report that is no success.
fn abort_on(outcome: &Outcome) -> (next: (InitState, InitAction))
    ensures
        next.0 == give_up_on(outcome@).0,
        next.1@ == give_up_on(outcome@).1,
{
    match outcome {
        Outcome::Failed(text) => (
            InitState::Failed,
            InitAction::Abort(StoreError::Unavailable(Reason::Reported(text.clone()))),
        ),
        _ => (InitState::Failed, InitAction::Abort(StoreError::Unavailable(Reason::Unexpected))),
    }
}

/// Starts the preparation of the store: the first thing to do is to open it.
pub fn init_db() -> (next: (InitState, InitAction))
    ensures
        next.0 == init_start().0,
        next.1@ == init_start().1,
{
    (InitState::Opening, InitAction::Open(String::from_str(STORE_PATH)))
}

/// Goes on with the preparation of the store: takes the report on what
/// [`init_db`] or the call before asked for, and gives the next thing to do.
pub fn init_next(state: InitState, outcome: &Outcome) -> (next: (InitState, InitAction))
    ensures
        next.0 == init_step(state, outcome@).0,
        next.1@ == init_step(state, outcome@).1,
{
    match state {
        InitState::Opening => match outcome {
            Outcome::Opened => (InitState::Preparing(0), InitAction::Run(preparing_command(0))),
            _ => abort_on(outcome),
        },
        InitState::Preparing(index) => match outcome {
            Outcome::Changed(_) => {
                if index < PREPARING - 1 {
                    (
                        InitState::Preparing(index + 1),
                        InitAction::Run(preparing_command(index + 1)),
                    )
                } else {
                    (InitState::Counting, InitAction::Ask(Query::CountPackages))
                }
            },
            _ => abort_on(outcome),
        },
        InitState::Counting => match outcome {
            Outcome::Rows(rows) => match count_from(rows) {
                Err(reason) => (
                    InitState::Failed,
                    InitAction::Abort(StoreError::Unavailable(reason)),
                ),
                Ok(count) => {
                    if count == 0 {
                        (InitState::Stocking(0), InitAction::Run(stocking_command(0)))
                    } else {
                        (InitState::Ready, InitAction::Finish)
                    }
                },
            },
            _ => abort_on(outcome),
        },
        InitState::Stocking(index) => match outcome {
            Outcome::Changed(_) => {
                if index < STOCKING - 1 {
                    (InitState::Stocking(index + 1), InitAction::Run(stocking_command(index + 1)))
                } else {
                    (InitState::Ready, InitAction::Finish)
                }
            },
            _ => abort_on(outcome),
        },
        InitState::Ready => (InitState::Ready, InitAction::Finish),
        InitState::Failed => (
            InitState::Failed,
            InitAction::Abort(StoreError::Unavailable(Reason::Unexpected)),
        ),
    }
}

} // verus!
