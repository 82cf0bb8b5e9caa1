//! What holds of the operations whenever storage behaves as `model` says.

use crate::command::{CommandView, PackageRecordView, Query};
use crate::entity::{PackageView, RegistrationFormView, RegistrationView, SettingView};
use crate::error::ReasonView;
use crate::exchange::{write_result, OutcomeView};
use crate::features::{decoded_features, json_of_strings, storable};
use crate::model::{
    after,
    answer,
    effect,
    enumerates,
    package_rows,
    representable,
    setting_rows,
    unused,
    Tables,
};
use crate::packages::{package_of_row, packages_of_rows, write_of};
use crate::registrations::{registration_of_row, registrations_of_rows};
use crate::settings::{setting_of_row, settings_of_rows};
use crate::value::{lemma_gather_all, Cell};
use vstd::prelude::*;

verus! {

/// Whether a list shows the settings as they are stored: every entry is a
/// stored setting, no key comes twice, and no stored key is missing.
pub open spec fn shows_settings(list: Seq<SettingView>, settings: Map<Seq<char>, Seq<char>>) -> bool {
    &&& forall|i: int|
        0 <= i < list.len() ==> settings.contains_pair((#[trigger] list[i]).key, list[i].value)
    &&& forall|i: int, j: int|
        0 <= i < j < list.len() ==> (#[trigger] list[i]).key != (#[trigger] list[j]).key
    &&& forall|key: Seq<char>| #[trigger]
        settings.contains_key(key) ==> exists|i: int|
            0 <= i < list.len() && (#[trigger] list[i]).key == key
}

/// The package that the list shows for a stored row.
pub open spec fn shown_package(id: int, record: PackageRecordView) -> PackageView {
    PackageView {
        id: Some(id),
        name: record.name,
        speed: record.speed,
        price: record.price,
        features: decoded_features(record.features),
    }
}

/// Whether a list shows the packages as they are stored: every entry is a
/// stored package with its features read from the stored text, no id comes
/// twice, and no stored id is missing.
pub open spec fn shows_packages(list: Seq<PackageView>, packages: Map<int, PackageRecordView>) -> bool {
    &&& forall|i: int|
        0 <= i < list.len() ==> ((#[trigger] list[i]).id matches Some(id) && packages.contains_key(
            id,
        ) && list[i] == shown_package(id, packages[id]))
    &&& forall|i: int, j: int|
        0 <= i < j < list.len() ==> (#[trigger] list[i]).id != (#[trigger] list[j]).id
    &&& forall|id: int| #[trigger]
        packages.contains_key(id) ==> exists|i: int|
            0 <= i < list.len() && (#[trigger] list[i]).id == Some(id)
}

/// Whether entry `i` of a list is this setting, and the only entry of its
/// key.
pub open spec fn holds_once(list: Seq<SettingView>, i: int, setting: SettingView) -> bool {
    &&& 0 <= i < list.len()
    &&& list[i] == setting
    &&& forall|j: int| 0 <= j < list.len() && (#[trigger] list[j]).key == setting.key ==> j == i
}

/// Whether entry `i` of a list is a stored package with the columns and
/// the features of `package`, under the id of `package` where it has one.
pub open spec fn holds_saved(list: Seq<PackageView>, i: int, package: PackageView) -> bool {
    &&& 0 <= i < list.len()
    &&& list[i].features == package.features
    &&& list[i].name == package.name
    &&& list[i].speed == package.speed
    &&& list[i].price == package.price
    &&& list[i].id is Some
    &&& package.id is Some ==> list[i].id == package.id
}

/// The list of the settings shows the stored settings, each key once.
pub proof fn law_settings_listed(tables: Tables, rows: Seq<Seq<Cell>>)
    requires
        answer(tables, Query::ListSettings, rows),
    ensures
        settings_of_rows(rows) is Ok,
        shows_settings(settings_of_rows(rows)->Ok_0, tables.settings),
        settings_of_rows(rows)->Ok_0.len() == rows.len(),
{
    let keys = choose|keys: Seq<Seq<char>>|
        enumerates(keys, tables.settings.dom()) && rows == #[trigger] setting_rows(tables, keys);
    let read = |row: Seq<Cell>| setting_of_row(row);
    assert forall|i: int| 0 <= i < rows.len() implies (#[trigger] read(rows[i])) is Ok by {}
    lemma_gather_all(rows, read);
    let list = settings_of_rows(rows)->Ok_0;
    assert forall|key: Seq<char>| #[trigger] tables.settings.contains_key(key) implies exists|
        i: int,
    |
        0 <= i < list.len() && (#[trigger] list[i]).key == key by {
        let i = choose|i: int| 0 <= i < keys.len() && keys[i] == key;
        assert(list[i].key == key);
    }
}

/// The list of the packages shows the stored packages, each id once, with
/// the features that the stored text reads as.
pub proof fn law_packages_listed(tables: Tables, rows: Seq<Seq<Cell>>)
    requires
        tables.valid(),
        answer(tables, Query::ListPackages, rows),
    ensures
        packages_of_rows(rows) is Ok,
        shows_packages(packages_of_rows(rows)->Ok_0, tables.packages),
        packages_of_rows(rows)->Ok_0.len() == rows.len(),
{
    let ids = choose|ids: Seq<int>|
        enumerates(ids, tables.packages.dom()) && rows == #[trigger] package_rows(tables, ids);
    let read = |row: Seq<Cell>| package_of_row(row);
    assert forall|i: int| 0 <= i < rows.len() implies (#[trigger] read(rows[i])) is Ok by {
        assert(representable(ids[i]));
    }
    lemma_gather_all(rows, read);
    let list = packages_of_rows(rows)->Ok_0;
    assert forall|id: int| #[trigger] tables.packages.contains_key(id) implies exists|i: int|
        0 <= i < list.len() && (#[trigger] list[i]).id == Some(id) by {
        let i = choose|i: int| 0 <= i < ids.len() && ids[i] == id;
        assert(list[i].id == Some(id));
    }
}

/// The list of the registrations shows every stored registration, the one
/// created last first.
pub proof fn law_registrations_listed(tables: Tables, rows: Seq<Seq<Cell>>)
    requires
        tables.valid(),
        answer(tables, Query::ListRegistrations, rows),
    ensures
        registrations_of_rows(rows) == Ok::<Seq<RegistrationView>, ReasonView>(
            tables.registrations.reverse(),
        ),
{
    let read = |row: Seq<Cell>| registration_of_row(row);
    assert forall|i: int| 0 <= i < rows.len() implies (#[trigger] read(rows[i])) is Ok by {}
    lemma_gather_all(rows, read);
    assert(registrations_of_rows(rows)->Ok_0 =~= tables.registrations.reverse());
}

/// A saved package is listed with the features it was saved with, in their
/// order.  This holds of a package that is added, and of one that
/// overwrites a stored package of its id.
pub proof fn law_saved_features_are_listed(
    package: PackageView,
    pre: Tables,
    post: Tables,
    rows: Seq<Seq<Cell>>,
)
    requires
        storable(package.features),
        package.id matches Some(id) ==> pre.packages.contains_key(id),
        effect(pre, write_of(package, json_of_strings(package.features)->Some_0), post),
        post.valid(),
        answer(post, Query::ListPackages, rows),
    ensures
        packages_of_rows(rows) is Ok,
        exists|i: int| #[trigger] holds_saved(packages_of_rows(rows)->Ok_0, i, package),
{
    let text = json_of_strings(package.features)->Some_0;
    let command = write_of(package, text);
    let (id, created_at) = choose|id: int, created_at: Seq<char>|
        unused(pre, command, id) && post == #[trigger] after(pre, command, id, created_at);
    let stored = match package.id {
        Some(target) => target,
        None => id,
    };
    assert(post.packages.contains_key(stored));
    law_packages_listed(post, rows);
    let list = packages_of_rows(rows)->Ok_0;
    let i = choose|i: int| 0 <= i < list.len() && (#[trigger] list[i]).id == Some(stored);
    assert(holds_saved(list, i, package));
}

/// Writing a setting twice under one key leaves one setting of that key,
/// with the value written last.
pub proof fn law_upsert_keeps_one(
    key: Seq<char>,
    first: Seq<char>,
    second: Seq<char>,
    start: Tables,
    between: Tables,
    end: Tables,
    rows: Seq<Seq<Cell>>,
)
    requires
        effect(start, CommandView::UpsertSetting(SettingView { key, value: first }), between),
        effect(between, CommandView::UpsertSetting(SettingView { key, value: second }), end),
        answer(end, Query::ListSettings, rows),
    ensures
        settings_of_rows(rows) is Ok,
        exists|i: int| #[trigger]
            holds_once(settings_of_rows(rows)->Ok_0, i, SettingView { key, value: second }),
{
    assert(end.settings.contains_pair(key, second));
    law_settings_listed(end, rows);
    let list = settings_of_rows(rows)->Ok_0;
    let i = choose|i: int| 0 <= i < list.len() && (#[trigger] list[i]).key == key;
    assert(holds_once(list, i, SettingView { key, value: second }));
}

/// Deleting a package twice: the first deletion removes it, the second
/// changes nothing, and the report of a command that changed no row is a
/// success.
pub proof fn law_delete_twice(id: int, start: Tables, between: Tables, end: Tables)
    requires
        effect(start, CommandView::DeletePackage(id), between),
        effect(between, CommandView::DeletePackage(id), end),
    ensures
        !between.packages.contains_key(id),
        end == between,
        write_result(OutcomeView::Changed(0)) is Ok,
{
}

/// Three registrations created one after the other are listed last, second,
/// first, before everything that was stored earlier.
pub proof fn law_newest_registration_first(
    first: RegistrationFormView,
    second: RegistrationFormView,
    third: RegistrationFormView,
    start: Tables,
    one: Tables,
    two: Tables,
    three: Tables,
    rows: Seq<Seq<Cell>>,
)
    requires
        effect(start, CommandView::InsertRegistration(first), one),
        effect(one, CommandView::InsertRegistration(second), two),
        effect(two, CommandView::InsertRegistration(third), three),
        three.valid(),
        answer(three, Query::ListRegistrations, rows),
    ensures
        registrations_of_rows(rows) is Ok,
        ({
            let list = registrations_of_rows(rows)->Ok_0;
            &&& list.len() == start.registrations.len() + 3
            &&& list[0].form == third
            &&& list[1].form == second
            &&& list[2].form == first
            &&& list.skip(3) == start.registrations.reverse()
        }),
{
    law_registrations_listed(three, rows);
}

} // verus!
