//! Persistence and data-access rules of a small internet-provider site:
//! a catalog of service packages, site-wide settings and captured
//! registrations.
//!
//! The library never touches storage itself.  It decides which statement
//! the storage engine has to run next and what the engine's report means;
//! the program around it runs the statement and hands the report back.
//!
//! - `entity`, `value`, `error`: the data.
//! - `command`, `exchange`: the statements that go out and the reports that
//!   come back.
//! - `settings`, `packages`, `registrations`: the operations on each entity.
//! - `features`: the feature list of a package as the text that a row stores.
//! - `init`: preparing the store at start-up.
//! - `reply`: what a request is answered with.
//! - `model`: what the tables hold, what a command makes of them and what a
//!   query answers, as the library expects it of storage.
//! - `startup`, `laws`: what follows for the start-up and for the
//!   operations whenever storage behaves as `model` says.
//! - `memory`: a store in memory that behaves as `model` says.

pub mod command;
pub mod entity;
pub mod error;
pub mod exchange;
pub mod features;
pub mod init;
pub mod laws;
pub mod memory;
pub mod model;
pub mod packages;
pub mod registrations;
pub mod reply;
pub mod settings;
pub mod startup;
pub mod value;
