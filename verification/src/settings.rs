//! Settings: listed as a whole, written one key at a time.

use crate::command::{Command, CommandView, Query};
use crate::entity::{Setting, SettingView};
use crate::error::{Reason, ReasonView, StoreError, StoreErrorView};
use crate::exchange::{answered, read_result, Outcome, OutcomeView};
use crate::value::{gather, lemma_gather_refused, lemma_gather_step, text_at, text_in, Cell, SqlValue};
use vstd::prelude::*;

verus! {

/// The setting that a row of the list stands for: two text columns.
pub open spec fn setting_of_row(row: Seq<Cell>) -> Result<SettingView, ReasonView> {
    match text_in(row, 0) {
        Err(reason) => Err(reason),
        Ok(key) => match text_in(row, 1) {
            Err(reason) => Err(reason),
            Ok(value) => Ok(SettingView { key, value }),
        },
    }
}

/// The settings that the rows of the list stand for.
pub open spec fn settings_of_rows(rows: Seq<Seq<Cell>>) -> Result<Seq<SettingView>, ReasonView> {
    gather(rows, |row: Seq<Cell>| setting_of_row(row))
}

/// The settings that the report on the list holds.
pub open spec fn listed_settings(outcome: OutcomeView) -> Result<Seq<SettingView>, StoreErrorView> {
    match read_result(outcome) {
        Err(error) => Err(error),
        Ok(rows) => match settings_of_rows(rows) {
            Err(reason) => Err(StoreErrorView::Failed(reason)),
            Ok(settings) => Ok(settings),
        },
    }
}

/// The query that lists every setting.
pub fn list() -> (query: Query)
    ensures
        query == Query::ListSettings,
{
    Query::ListSettings
}

/// Reads one row of the list.
pub fn setting_from_row(row: &Vec<SqlValue>) -> (res: Result<Setting, Reason>)
    ensures
        match res {
            Ok(setting) => setting_of_row(row.deep_view()) == Ok::<SettingView, ReasonView>(
                setting@,
            ),
            Err(reason) => setting_of_row(row.deep_view()) == Err::<SettingView, ReasonView>(
                reason@,
            ),
        },
{
    let key = match text_at(row, 0) {
        Ok(text) => text,
        Err(reason) => { return Err(reason); },
    };
    let value = match text_at(row, 1) {
        Ok(text) => text,
        Err(reason) => { return Err(reason); },
    };
    Ok(Setting { key, value })
}

/// Reads the rows of the list, in their order.
pub fn settings_from_rows(rows: &Vec<Vec<SqlValue>>) -> (res: Result<Vec<Setting>, Reason>)
    ensures
        match res {
            Ok(settings) => settings_of_rows(rows.deep_view()) == Ok::<
                Seq<SettingView>,
                ReasonView,
            >(settings.deep_view()),
            Err(reason) => settings_of_rows(rows.deep_view()) == Err::<
                Seq<SettingView>,
                ReasonView,
            >(reason@),
        },
{
    let ghost read = |row: Seq<Cell>| setting_of_row(row);
    let mut settings: Vec<Setting> = Vec::new();
    let mut index: usize = 0;
    assert(settings.deep_view() =~= Seq::<SettingView>::empty());
    while index < rows.len()
        invariant
            index <= rows.len(),
            read == (|row: Seq<Cell>| setting_of_row(row)),
            gather(rows.deep_view().take(index as int), read) == Ok::<Seq<SettingView>, ReasonView>(
                settings.deep_view(),
            ),
        decreases rows.len() - index,
    {
        proof {
            lemma_gather_step(rows.deep_view(), read, index as int);
        }
        let ghost before = settings.deep_view();
        match setting_from_row(&rows[index]) {
            Ok(setting) => {
                settings.push(setting);
                assert(settings.deep_view() =~= before.push(setting@));
            },
            Err(reason) => {
                proof {
                    lemma_gather_refused(rows.deep_view(), read, index as int + 1);
                }
                return Err(reason);
            },
        }
        index = index + 1;
    }
    assert(rows.deep_view().take(index as int) =~= rows.deep_view());
    Ok(settings)
}

/// Reads the settings out of the report on [`list`].
pub fn listed(outcome: &Outcome) -> (res: Result<Vec<Setting>, StoreError>)
    ensures
        match res {
            Ok(settings) => listed_settings(outcome@) == Ok::<Seq<SettingView>, StoreErrorView>(
                settings.deep_view(),
            ),
            Err(error) => listed_settings(outcome@) == Err::<Seq<SettingView>, StoreErrorView>(
                error@,
            ),
        },
{
    match answered(outcome) {
        Err(error) => Err(error),
        Ok(rows) => match settings_from_rows(rows) {
            Ok(settings) => Ok(settings),
            Err(reason) => Err(StoreError::Failed(reason)),
        },
    }
}

/// The command that stores `value` under `key`, whether or not the key is
/// present.  Any key is accepted.
pub fn upsert(key: &str, value: &str) -> (command: Command)
    ensures
        command@ == CommandView::UpsertSetting(SettingView { key: key@, value: value@ }),
{
    Command::UpsertSetting(Setting { key: String::from_str(key), value: String::from_str(value) })
}

} // verus!
