//! A store in memory that does to its tables what `model` says of each
//! statement.  It stands in for the storage engine where none is at hand,
//! and it shows that what `model` asks can be done.

use crate::command::{Command, CommandView, PackageRecord, PackageRecordView, Query};
use crate::entity::{RegistrationForm, RegistrationView, Setting};
use crate::error::StoreError;
use crate::exchange::{Outcome, OutcomeView};
use crate::init::{init_db, init_next, InitAction, InitState, PREPARING, STOCKING};
use crate::model::{
    after,
    asks,
    enumerates,
    package_row,
    package_rows,
    registration_row,
    runs,
    setting_row,
    setting_rows,
    Tables,
};
use crate::startup::{
    initialized,
    kept,
    lemma_reached_next,
    lemma_step_progress,
    progress,
    reached,
    Moment,
};
use crate::value::{Cell, SqlValue};
use vstd::prelude::*;

verus! {

/// Whether no two rows have the same key.
pub open spec fn distinct<K, V>(rows: Seq<(K, V)>) -> bool {
    forall|i: int, j: int|
        0 <= i < j < rows.len() ==> (#[trigger] rows[i]).0 != (#[trigger] rows[j]).0
}

/// Whether a row of this key is among the rows.
pub open spec fn has_key<K, V>(rows: Seq<(K, V)>, key: K) -> bool {
    exists|i: int| 0 <= i < rows.len() && (#[trigger] rows[i]).0 == key
}

/// The index of a row of this key.
pub open spec fn index_of<K, V>(rows: Seq<(K, V)>, key: K) -> int {
    choose|i: int| 0 <= i < rows.len() && (#[trigger] rows[i]).0 == key
}

/// The rows as a map from key to value.
pub open spec fn as_map<K, V>(rows: Seq<(K, V)>) -> Map<K, V> {
    Map::new(|key: K| has_key(rows, key), |key: K| rows[index_of(rows, key)].1)
}

/// The keys of the rows, in their order.
pub open spec fn keys_of<K, V>(rows: Seq<(K, V)>) -> Seq<K> {
    Seq::new(rows.len(), |i: int| rows[i].0)
}

/// A row is found in the map under its key.
pub proof fn lemma_row_in_map<K, V>(rows: Seq<(K, V)>, i: int)
    requires
        distinct(rows),
        0 <= i < rows.len(),
    ensures
        as_map(rows).contains_pair(rows[i].0, rows[i].1),
{
    let found = index_of(rows, rows[i].0);
}

/// A row of a new key, added at the end, is one more entry of the map.
pub proof fn lemma_push_row<K, V>(rows: Seq<(K, V)>, key: K, value: V)
    requires
        distinct(rows),
        !has_key(rows, key),
    ensures
        distinct(rows.push((key, value))),
        as_map(rows.push((key, value))) == as_map(rows).insert(key, value),
{
    let more = rows.push((key, value));
    assert(distinct(more));
    assert forall|other: K| as_map(more).contains_key(other) <==> as_map(rows).insert(
        key,
        value,
    ).contains_key(other) by {
        if has_key(rows, other) {
            assert(more[index_of(rows, other)].0 == other);
        }
        if other == key {
            assert(more[rows.len() as int].0 == key);
        }
    }
    assert forall|other: K| as_map(more).contains_key(other) implies as_map(more)[other]
        == as_map(rows).insert(key, value)[other] by {
        let i = index_of(more, other);
        lemma_row_in_map(more, i);
        if i < rows.len() {
            lemma_row_in_map(rows, i);
        }
    }
}

/// A row that gets a new value keeps its key, and the map has the new value
/// under that key.
pub proof fn lemma_update_row<K, V>(rows: Seq<(K, V)>, i: int, value: V)
    requires
        distinct(rows),
        0 <= i < rows.len(),
    ensures
        distinct(rows.update(i, (rows[i].0, value))),
        as_map(rows.update(i, (rows[i].0, value))) == as_map(rows).insert(rows[i].0, value),
{
    let key = rows[i].0;
    let changed = rows.update(i, (key, value));
    assert(distinct(changed));
    assert forall|other: K| as_map(changed).contains_key(other) <==> as_map(rows).insert(
        key,
        value,
    ).contains_key(other) by {
        if has_key(rows, other) {
            assert(changed[index_of(rows, other)].0 == other);
        }
    }
    assert forall|other: K| as_map(changed).contains_key(other) implies as_map(changed)[other]
        == as_map(rows).insert(key, value)[other] by {
        let a = index_of(changed, other);
        lemma_row_in_map(changed, a);
        if a != i {
            lemma_row_in_map(rows, a);
        }
    }
}

/// A row that is taken out is taken out of the map.
pub proof fn lemma_remove_row<K, V>(rows: Seq<(K, V)>, i: int)
    requires
        distinct(rows),
        0 <= i < rows.len(),
    ensures
        distinct(rows.remove(i)),
        as_map(rows.remove(i)) == as_map(rows).remove(rows[i].0),
{
    let key = rows[i].0;
    let fewer = rows.remove(i);
    assert forall|a: int| 0 <= a < fewer.len() implies #[trigger] fewer[a] == rows[if a < i {
        a
    } else {
        a + 1
    }] && fewer[a].0 != key by {}
    assert(distinct(fewer));
    assert forall|other: K| as_map(fewer).contains_key(other) <==> as_map(rows).remove(
        key,
    ).contains_key(other) by {
        if has_key(rows, other) && other != key {
            let a = index_of(rows, other);
            assert(fewer[if a < i {
                a
            } else {
                a - 1
            }].0 == other);
        }
    }
    assert forall|other: K| as_map(fewer).contains_key(other) implies as_map(fewer)[other]
        == as_map(rows).remove(key)[other] by {
        let a = index_of(fewer, other);
        lemma_row_in_map(fewer, a);
        lemma_row_in_map(rows, if a < i {
            a
        } else {
            a + 1
        });
    }
}

/// The keys of the rows list the keys of the map, each once.
pub proof fn lemma_keys_enumerate<K, V>(rows: Seq<(K, V)>)
    requires
        distinct(rows),
    ensures
        enumerates(keys_of(rows), as_map(rows).dom()),
        as_map(rows).dom().finite(),
        as_map(rows).dom().len() == rows.len(),
{
    let keys = keys_of(rows);
    assert(keys.no_duplicates());
    assert forall|key: K| keys.to_set().contains(key) <==> as_map(rows).dom().contains(key) by {
        if has_key(rows, key) {
            assert(keys[index_of(rows, key)] == key);
        }
    }
    assert(keys.to_set() =~= as_map(rows).dom());
    keys.unique_seq_to_set();
    vstd::seq_lib::seq_to_set_is_finite(keys);
}

/// The settings as rows of key and value.
pub open spec fn setting_pairs(settings: Seq<Setting>) -> Seq<(Seq<char>, Seq<char>)> {
    Seq::new(settings.len(), |i: int| (settings[i].key@, settings[i].value@))
}

/// The packages as rows of id and columns.
pub open spec fn package_pairs(packages: Seq<(i64, PackageRecord)>) -> Seq<
    (int, PackageRecordView),
> {
    Seq::new(packages.len(), |i: int| (packages[i].0 as int, packages[i].1@))
}

/// The registrations as they are stored, oldest first.
pub open spec fn stored_registrations(
    registrations: Seq<(i64, RegistrationForm, String)>,
) -> Seq<RegistrationView> {
    Seq::new(
        registrations.len(),
        |i: int|
            RegistrationView {
                id: registrations[i].0 as int,
                form: registrations[i].1@,
                created_at: registrations[i].2@,
            },
    )
}

/// Whether every id among the rows is below `next`.
pub open spec fn below<V>(rows: Seq<(int, V)>, next: int) -> bool {
    forall|i: int| 0 <= i < rows.len() ==> (#[trigger] rows[i]).0 < next
}

/// Whether every id among the registrations is below `next`.
pub open spec fn all_below(registrations: Seq<RegistrationView>, next: int) -> bool {
    forall|i: int| 0 <= i < registrations.len() ==> (#[trigger] registrations[i]).id < next
}

/// A copy of a setting.
fn copy_setting(setting: &Setting) -> (copy: Setting)
    ensures
        copy@ == setting@,
{
    Setting { key: setting.key.clone(), value: setting.value.clone() }
}

/// A copy of a package record.
fn copy_record(record: &PackageRecord) -> (copy: PackageRecord)
    ensures
        copy@ == record@,
{
    PackageRecord {
        name: record.name.clone(),
        speed: record.speed.clone(),
        price: record.price.clone(),
        features: record.features.clone(),
    }
}

/// A copy of a form.
fn copy_form(form: &RegistrationForm) -> (copy: RegistrationForm)
    ensures
        copy@ == form@,
{
    RegistrationForm {
        name: form.name.clone(),
        phone: form.phone.clone(),
        address: form.address.clone(),
        package: form.package.clone(),
        notes: form.notes.clone(),
    }
}

/// The index of the setting of this key, if there is one.
fn find_setting(settings: &Vec<Setting>, key: &String) -> (found: Option<usize>)
    ensures
        match found {
            Some(index) => index < settings.len() && settings@[index as int].key@ == key@,
            None => !has_key(setting_pairs(settings@), key@),
        },
{
    let mut index: usize = 0;
    while index < settings.len()
        invariant
            index <= settings.len(),
            forall|i: int| 0 <= i < index ==> settings@[i].key@ != key@,
        decreases settings.len() - index,
    {
        if settings[index].key == *key {
            return Some(index);
        }
        index = index + 1;
    }
    assert forall|i: int| 0 <= i < setting_pairs(settings@).len() implies (
    #[trigger] setting_pairs(settings@)[i]).0 != key@ by {}
    None
}

/// The index of the package of this id, if there is one.
fn find_package(packages: &Vec<(i64, PackageRecord)>, id: i64) -> (found: Option<usize>)
    ensures
        match found {
            Some(index) => index < packages.len() && packages@[index as int].0 == id,
            None => !has_key(package_pairs(packages@), id as int),
        },
{
    let mut index: usize = 0;
    while index < packages.len()
        invariant
            index <= packages.len(),
            forall|i: int| 0 <= i < index ==> packages@[i].0 != id,
        decreases packages.len() - index,
    {
        if packages[index].0 == id {
            return Some(index);
        }
        index = index + 1;
    }
    assert forall|i: int| 0 <= i < package_pairs(packages@).len() implies (
    #[trigger] package_pairs(packages@)[i]).0 != id as int by {}
    None
}

/// Adds a setting at the end unless its key is present.  Gives the number
/// of rows added.
fn seed_setting(settings: &mut Vec<Setting>, offered: &Setting) -> (count: usize)
    requires
        distinct(setting_pairs(old(settings)@)),
    ensures
        distinct(setting_pairs(final(settings)@)),
        count == if as_map(setting_pairs(old(settings)@)).contains_key(offered.key@) {
            0int
        } else {
            1int
        },
        as_map(setting_pairs(final(settings)@)) == if as_map(
            setting_pairs(old(settings)@),
        ).contains_key(offered.key@) {
            as_map(setting_pairs(old(settings)@))
        } else {
            as_map(setting_pairs(old(settings)@)).insert(offered.key@, offered.value@)
        },
{
    match find_setting(settings, &offered.key) {
        Some(index) => {
            assert(setting_pairs(settings@)[index as int].0 == offered.key@);
            0
        },
        None => {
            proof {
                lemma_push_row(setting_pairs(settings@), offered.key@, offered.value@);
            }
            let ghost before = setting_pairs(settings@);
            settings.push(copy_setting(offered));
            assert(setting_pairs(settings@) =~= before.push((offered.key@, offered.value@)));
            1
        },
    }
}

/// Takes out the setting of the key, if there is one, and adds the setting
/// at the end.
fn replace_setting(settings: &mut Vec<Setting>, written: &Setting)
    requires
        distinct(setting_pairs(old(settings)@)),
    ensures
        distinct(setting_pairs(final(settings)@)),
        as_map(setting_pairs(final(settings)@)) == as_map(setting_pairs(old(settings)@)).insert(
            written.key@,
            written.value@,
        ),
{
    let ghost start = setting_pairs(settings@);
    match find_setting(settings, &written.key) {
        Some(index) => {
            proof {
                lemma_remove_row(start, index as int);
            }
            settings.remove(index);
            assert(setting_pairs(settings@) =~= start.remove(index as int));
        },
        None => {},
    }
    let ghost before = setting_pairs(settings@);
    proof {
        lemma_push_row(before, written.key@, written.value@);
    }
    settings.push(copy_setting(written));
    assert(setting_pairs(settings@) =~= before.push((written.key@, written.value@)));
}

/// Overwrites the columns of the package of the id, if there is one.  Gives
/// the number of rows changed.
fn update_package(packages: &mut Vec<(i64, PackageRecord)>, id: i64, record: &PackageRecord) -> (count:
    usize)
    requires
        distinct(package_pairs(old(packages)@)),
    ensures
        distinct(package_pairs(final(packages)@)),
        final(packages)@.len() == old(packages)@.len(),
        count == if as_map(package_pairs(old(packages)@)).contains_key(id as int) {
            1int
        } else {
            0int
        },
        forall|next: int|
            below(package_pairs(old(packages)@), next) ==> below(
                package_pairs(final(packages)@),
                next,
            ),
        as_map(package_pairs(final(packages)@)) == if as_map(
            package_pairs(old(packages)@),
        ).contains_key(id as int) {
            as_map(package_pairs(old(packages)@)).insert(id as int, record@)
        } else {
            as_map(package_pairs(old(packages)@))
        },
{
    let ghost start = package_pairs(packages@);
    match find_package(packages, id) {
        Some(index) => {
            proof {
                lemma_update_row(start, index as int, record@);
            }
            packages.set(index, (id, copy_record(record)));
            assert(package_pairs(packages@) =~= start.update(index as int, (id as int, record@)));
            1
        },
        None => 0,
    }
}

/// Takes out the package of the id, if there is one.  Gives the number of
/// rows taken out.
fn delete_package(packages: &mut Vec<(i64, PackageRecord)>, id: i64) -> (count: usize)
    requires
        distinct(package_pairs(old(packages)@)),
    ensures
        distinct(package_pairs(final(packages)@)),
        final(packages)@.len() <= old(packages)@.len(),
        count == if as_map(package_pairs(old(packages)@)).contains_key(id as int) {
            1int
        } else {
            0int
        },
        forall|next: int|
            below(package_pairs(old(packages)@), next) ==> below(
                package_pairs(final(packages)@),
                next,
            ),
        as_map(package_pairs(final(packages)@)) == as_map(package_pairs(old(packages)@)).remove(
            id as int,
        ),
{
    let ghost start = package_pairs(packages@);
    match find_package(packages, id) {
        Some(index) => {
            proof {
                lemma_remove_row(start, index as int);
            }
            packages.remove(index);
            assert(package_pairs(packages@) =~= start.remove(index as int));
            1
        },
        None => 0,
    }
}

/// The cells of a setting's row.
fn setting_cells(setting: &Setting) -> (cells: Vec<SqlValue>)
    ensures
        cells.deep_view() == setting_row(setting.key@, setting.value@),
{
    let mut cells: Vec<SqlValue> = Vec::new();
    cells.push(SqlValue::Text(setting.key.clone()));
    cells.push(SqlValue::Text(setting.value.clone()));
    cells
}

/// The cells of a package's row.
fn package_cells(id: i64, record: &PackageRecord) -> (cells: Vec<SqlValue>)
    ensures
        cells.deep_view() == package_row(id as int, record@),
{
    let mut cells: Vec<SqlValue> = Vec::new();
    cells.push(SqlValue::Integer(id));
    cells.push(SqlValue::Text(record.name.clone()));
    cells.push(SqlValue::Text(record.speed.clone()));
    cells.push(SqlValue::Text(record.price.clone()));
    cells.push(SqlValue::Text(record.features.clone()));
    cells
}

/// The cells of a registration's row.
fn registration_cells(id: i64, form: &RegistrationForm, created_at: &String) -> (cells: Vec<
    SqlValue,
>)
    ensures
        cells.deep_view() == registration_row(
            RegistrationView { id: id as int, form: form@, created_at: created_at@ },
        ),
{
    let mut cells: Vec<SqlValue> = Vec::new();
    cells.push(SqlValue::Integer(id));
    cells.push(SqlValue::Text(form.name.clone()));
    cells.push(SqlValue::Text(form.phone.clone()));
    cells.push(SqlValue::Text(form.address.clone()));
    cells.push(SqlValue::Text(form.package.clone()));
    cells.push(SqlValue::Text(form.notes.clone()));
    cells.push(SqlValue::Text(created_at.clone()));
    cells
}

/// What a store hands out to the rows that it adds: the next id of each
/// table, and the time of creation.
pub struct Handout {
    pub package: int,
    pub registration: int,
    pub stamp: Seq<char>,
}

/// What the store says when it has no id left.
pub const FULL: &'static str = "database or disk is full";

/// The id that the row of a command gets.
pub open spec fn id_for(handout: Handout, command: CommandView) -> int {
    match command {
        CommandView::InsertPackage(_) => handout.package,
        CommandView::InsertRegistration(_) => handout.registration,
        _ => 0,
    }
}

/// Whether no id is left for the row of a command.
pub open spec fn none_left(handout: Handout, command: CommandView) -> bool {
    (command is InsertPackage || command is InsertRegistration) && id_for(handout, command)
        == i64::MAX
}

/// What is handed out after a command that ran: an id that was given is
/// followed by the next.
pub open spec fn handed(handout: Handout, command: CommandView) -> Handout {
    match command {
        CommandView::InsertPackage(_) => Handout { package: handout.package + 1, ..handout },
        CommandView::InsertRegistration(_) => Handout {
            registration: handout.registration + 1,
            ..handout
        },
        _ => handout,
    }
}

/// The number of rows that a command changes.
pub open spec fn changed_rows(pre: Tables, command: CommandView) -> int {
    match command {
        CommandView::CreateSettings => 0,
        CommandView::CreatePackages => 0,
        CommandView::CreateRegistrations => 0,
        CommandView::SeedSetting(setting) => if pre.settings.contains_key(setting.key) {
            0
        } else {
            1
        },
        CommandView::UpsertSetting(_) => 1,
        CommandView::InsertPackage(_) => 1,
        CommandView::UpdatePackage(id, _) => if pre.packages.contains_key(id) {
            1
        } else {
            0
        },
        CommandView::DeletePackage(id) => if pre.packages.contains_key(id) {
            1
        } else {
            0
        },
        CommandView::InsertRegistration(_) => 1,
    }
}

/// A store in memory.  It hands out ids as the storage engine does: one
/// after the other, and none twice.
pub struct MemoryStore {
    settings: Vec<Setting>,
    packages: Vec<(i64, PackageRecord)>,
    registrations: Vec<(i64, RegistrationForm, String)>,
    next_package: i64,
    next_registration: i64,
    clock: String,
}

impl View for MemoryStore {
    type V = Tables;

    closed spec fn view(&self) -> Tables {
        Tables {
            settings: as_map(setting_pairs(self.settings@)),
            packages: as_map(package_pairs(self.packages@)),
            registrations: stored_registrations(self.registrations@),
        }
    }
}

impl MemoryStore {
    /// No key and no id comes twice, and every id is below the next to be
    /// handed out.
    #[verifier::type_invariant]
    spec fn sound(&self) -> bool {
        &&& distinct(setting_pairs(self.settings@))
        &&& distinct(package_pairs(self.packages@))
        &&& below(package_pairs(self.packages@), self.next_package as int)
        &&& self.packages@.len() < self.next_package
        &&& all_below(stored_registrations(self.registrations@), self.next_registration as int)
    }

    /// What the store hands out next.
    pub closed spec fn handout(&self) -> Handout {
        Handout {
            package: self.next_package as int,
            registration: self.next_registration as int,
            stamp: self.clock@,
        }
    }

    /// Whether the store has no id left for the row that a command adds.
    pub open spec fn exhausted(&self, command: CommandView) -> bool {
        none_left(self.handout(), command)
    }

    /// Whether the store holds finitely many settings and packages, as every
    /// store does.
    pub open spec fn finite(&self) -> bool {
        self@.settings.dom().finite() && self@.packages.dom().finite()
    }

    /// An empty store.  Its ids start at 1, and its registrations are
    /// stamped with the empty text until [`MemoryStore::set_clock`] says
    /// otherwise.
    pub fn new() -> (store: Self)
        ensures
            store@ == Tables::empty(),
            store.handout() == (Handout { package: 1, registration: 1, stamp: Seq::empty() }),
            store.finite(),
    {
        MemoryStore {
            settings: Vec::new(),
            packages: Vec::new(),
            registrations: Vec::new(),
            next_package: 1,
            next_registration: 1,
            clock: String::new(),
        }
    }

    /// Sets the time with which the registrations to come are stamped.
    pub fn set_clock(&mut self, now: &str)
        ensures
            final(self)@ == old(self)@,
            final(self).handout() == (Handout { stamp: now@, ..old(self).handout() }),
    {
        proof {
            use_type_invariant(&*self);
        }
        self.clock = String::from_str(now);
    }

    /// Runs a command.  It fails only where no id is left for a row to add,
    /// and then it changes nothing.  A row that it adds gets the id and the
    /// time that the store hands out.
    pub fn run(&mut self, command: &Command) -> (outcome: Outcome)
        ensures
            runs(old(self)@, command@, outcome@, final(self)@),
            final(self).finite(),
            if old(self).exhausted(command@) {
                &&& outcome@ == OutcomeView::Failed(FULL@)
                &&& final(self)@ == old(self)@
                &&& final(self).handout() == old(self).handout()
            } else {
                &&& outcome@ == OutcomeView::Changed(changed_rows(old(self)@, command@))
                &&& final(self)@ == after(
                    old(self)@,
                    command@,
                    id_for(old(self).handout(), command@),
                    old(self).handout().stamp,
                )
                &&& final(self).handout() == handed(old(self).handout(), command@)
            },
    {
        proof {
            use_type_invariant(&*self);
            lemma_keys_enumerate(setting_pairs(self.settings@));
            lemma_keys_enumerate(package_pairs(self.packages@));
        }
        let ghost pre = self@;
        let ghost stamp = self.clock@;
        match command {
            Command::CreateSettings | Command::CreatePackages | Command::CreateRegistrations => {
                assert(self@ == after(pre, command@, 0, stamp));
                Outcome::Changed(0)
            },
            Command::SeedSetting(offered) => {
                let mut settings: Vec<Setting> = Vec::new();
                std::mem::swap(&mut settings, &mut self.settings);
                let count = seed_setting(&mut settings, offered);
                self.settings = settings;
                assert(self@ =~= after(pre, command@, 0, stamp));
                Outcome::Changed(count)
            },
            Command::UpsertSetting(written) => {
                let mut settings: Vec<Setting> = Vec::new();
                std::mem::swap(&mut settings, &mut self.settings);
                replace_setting(&mut settings, written);
                self.settings = settings;
                assert(self@ =~= after(pre, command@, 0, stamp));
                Outcome::Changed(1)
            },
            Command::InsertPackage(record) => {
                if self.next_package == i64::MAX {
                    return Outcome::Failed(String::from_str(FULL));
                }
                let id: i64 = self.next_package;
                let mut packages: Vec<(i64, PackageRecord)> = Vec::new();
                std::mem::swap(&mut packages, &mut self.packages);
                let ghost before = package_pairs(packages@);
                proof {
                    lemma_push_row(before, id as int, record@);
                }
                packages.push((id, copy_record(record)));
                assert(package_pairs(packages@) =~= before.push((id as int, record@)));
                self.next_package = id + 1;
                self.packages = packages;
                assert(self@ =~= after(pre, command@, id as int, stamp));
                Outcome::Changed(1)
            },
            Command::UpdatePackage(id, record) => {
                let mut packages: Vec<(i64, PackageRecord)> = Vec::new();
                std::mem::swap(&mut packages, &mut self.packages);
                let count = update_package(&mut packages, *id as i64, record);
                self.packages = packages;
                assert(self@ =~= after(pre, command@, 0, stamp));
                Outcome::Changed(count)
            },
            Command::DeletePackage(id) => {
                let mut packages: Vec<(i64, PackageRecord)> = Vec::new();
                std::mem::swap(&mut packages, &mut self.packages);
                let count = delete_package(&mut packages, *id as i64);
                self.packages = packages;
                assert(self@ =~= after(pre, command@, 0, stamp));
                Outcome::Changed(count)
            },
            Command::InsertRegistration(form) => {
                if self.next_registration == i64::MAX {
                    return Outcome::Failed(String::from_str(FULL));
                }
                let id: i64 = self.next_registration;
                let mut registrations: Vec<(i64, RegistrationForm, String)> = Vec::new();
                std::mem::swap(&mut registrations, &mut self.registrations);
                let ghost before = stored_registrations(registrations@);
                let created_at = self.clock.clone();
                registrations.push((id, copy_form(form), created_at));
                assert(stored_registrations(registrations@) =~= before.push(
                    RegistrationView { id: id as int, form: form@, created_at: stamp },
                ));
                self.next_registration = id + 1;
                self.registrations = registrations;
                assert(self@ =~= after(pre, command@, id as int, stamp));
                Outcome::Changed(1)
            },
        }
    }

    /// Whether the store can be prepared: it has ids left for the default
    /// catalog, and no more packages than the start-up can count.
    pub open spec fn roomy(&self) -> bool {
        &&& self.handout().package + STOCKING <= i64::MAX
        &&& self@.packages.dom().len() <= i32::MAX
    }

    /// Prepares the store as the service does at its start: does what the
    /// start-up asks for, one report after the other, until it ends.  A
    /// store that is roomy ends up initialized; one that is not may end up
    /// so, or else with all that it held.
    pub fn prepare(&mut self) -> (res: Result<(), StoreError>)
        ensures
            match res {
                Ok(_) => initialized(old(self)@, final(self)@),
                Err(error) => error@ is Unavailable && kept(old(self)@, final(self)@),
            },
            old(self).roomy() ==> res is Ok,
            final(self).finite(),
    {
        proof {
            use_type_invariant(&*self);
            lemma_keys_enumerate(setting_pairs(self.settings@));
            lemma_keys_enumerate(package_pairs(self.packages@));
        }
        let ghost start = self@;
        let first = init_db();
        let mut state: InitState = first.0;
        let mut action: InitAction = first.1;
        loop
            invariant
                start == old(self)@,
                reached(start, Moment { state, action: action@, tables: self@ }),
                start.packages.dom().finite(),
                self.finite(),
                old(self).roomy() ==> !(state is Failed),
                !(state is Ready || state is Failed) ==> self.handout().package == old(
                    self,
                ).handout().package + (
                match state {
                    InitState::Stocking(index) => index as int,
                    _ => 0,
                }),
            decreases 2 + PREPARING + STOCKING - progress(state),
        {
            let ghost now = Moment { state, action: action@, tables: self@ };
            let outcome = match action {
                InitAction::Finish => {
                    return Ok(());
                },
                InitAction::Abort(error) => {
                    return Err(error);
                },
                InitAction::Open(_) => Outcome::Opened,
                InitAction::Run(command) => self.run(&command),
                InitAction::Ask(query) => self.ask(&query),
            };
            let next = init_next(state, &outcome);
            state = next.0;
            action = next.1;
            proof {
                let then = Moment { state, action: action@, tables: self@ };
                lemma_reached_next(start, now, outcome@, then);
                lemma_step_progress(start, now, outcome@, then);
            }
        }
    }

    /// Runs a query.  It never fails.
    pub fn ask(&self, query: &Query) -> (outcome: Outcome)
        ensures
            outcome@ is Rows,
            asks(self@, *query, outcome@),
    {
        proof {
            use_type_invariant(self);
        }
        let mut rows: Vec<Vec<SqlValue>> = Vec::new();
        match query {
            Query::ListSettings => {
                let ghost pairs = setting_pairs(self.settings@);
                let mut index: usize = 0;
                while index < self.settings.len()
                    invariant
                        index <= self.settings.len(),
                        pairs == setting_pairs(self.settings@),
                        rows.deep_view() == Seq::new(
                            index as nat,
                            |i: int| setting_row(pairs[i].0, pairs[i].1),
                        ),
                    decreases self.settings.len() - index,
                {
                    let ghost before = rows.deep_view();
                    let cells = setting_cells(&self.settings[index]);
                    rows.push(cells);
                    assert(rows.deep_view() =~= before.push(cells.deep_view()));
                    index = index + 1;
                }
                proof {
                    lemma_keys_enumerate(pairs);
                    assert forall|i: int| 0 <= i < pairs.len() implies as_map(pairs)[pairs[i].0]
                        == pairs[i].1 by {
                        lemma_row_in_map(pairs, i);
                    }
                    assert(rows.deep_view() =~= setting_rows(self@, keys_of(pairs)));
                }
            },
            Query::ListPackages => {
                let ghost pairs = package_pairs(self.packages@);
                let mut index: usize = 0;
                while index < self.packages.len()
                    invariant
                        index <= self.packages.len(),
                        pairs == package_pairs(self.packages@),
                        rows.deep_view() == Seq::new(
                            index as nat,
                            |i: int| package_row(pairs[i].0, pairs[i].1),
                        ),
                    decreases self.packages.len() - index,
                {
                    let ghost before = rows.deep_view();
                    let cells = package_cells(self.packages[index].0, &self.packages[index].1);
                    rows.push(cells);
                    assert(rows.deep_view() =~= before.push(cells.deep_view()));
                    index = index + 1;
                }
                proof {
                    lemma_keys_enumerate(pairs);
                    assert forall|i: int| 0 <= i < pairs.len() implies as_map(pairs)[pairs[i].0]
                        == pairs[i].1 by {
                        lemma_row_in_map(pairs, i);
                    }
                    assert(rows.deep_view() =~= package_rows(self@, keys_of(pairs)));
                }
            },
            Query::CountPackages => {
                let count: i64 = self.packages.len() as i64;
                let mut cells: Vec<SqlValue> = Vec::new();
                cells.push(SqlValue::Integer(count));
                rows.push(cells);
                proof {
                    lemma_keys_enumerate(package_pairs(self.packages@));
                    assert(rows@[0].deep_view() =~= seq![Cell::Integer(count as int)]);
                    assert(rows.deep_view() =~= seq![seq![Cell::Integer(count as int)]]);
                }
            },
            Query::ListRegistrations => {
                let ghost stored = stored_registrations(self.registrations@);
                let total: usize = self.registrations.len();
                let mut index: usize = 0;
                while index < total
                    invariant
                        index <= total,
                        total == self.registrations.len(),
                        stored == stored_registrations(self.registrations@),
                        rows.deep_view() == Seq::new(
                            index as nat,
                            |i: int| registration_row(stored[total - 1 - i]),
                        ),
                    decreases total - index,
                {
                    let ghost before = rows.deep_view();
                    let entry = &self.registrations[total - 1 - index];
                    let cells = registration_cells(entry.0, &entry.1, &entry.2);
                    rows.push(cells);
                    assert(rows.deep_view() =~= before.push(cells.deep_view()));
                    index = index + 1;
                }
            },
        }
        Outcome::Rows(rows)
    }
}

} // verus!
