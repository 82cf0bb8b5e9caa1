//! What the library expects of storage: the tables as mathematical values,
//! what each command makes of them and what each query answers.
//!
//! Storage picks the id of a row that it adds, the time of a registration
//! and the order in which it lists settings and packages; the model leaves
//! these open.  It takes one thing for granted: registrations are listed
//! in the reverse of the order in which they were created, which asks of
//! storage that its clock does not run backwards.
//!
//! `memory` is a store that meets the model.  The storage engine is held to
//! it by running the same statements against both.

use crate::command::{CommandView, PackageRecordView, Query};
use crate::entity::RegistrationView;
use crate::exchange::OutcomeView;
use crate::value::Cell;
use vstd::prelude::*;

verus! {

/// The content of the three tables.
#[verifier::ext_equal]
pub struct Tables {
    /// The settings: a key occurs once.
    pub settings: Map<Seq<char>, Seq<char>>,
    /// The packages by id, each with its columns as stored.
    pub packages: Map<int, PackageRecordView>,
    /// The registrations in the order in which they were created.
    pub registrations: Seq<RegistrationView>,
}

/// Whether an id fits the 32 bits in which an entity holds it.
pub open spec fn representable(id: int) -> bool {
    i32::MIN <= id <= i32::MAX
}

impl Tables {
    /// Tables without a row.
    pub open spec fn empty() -> Tables {
        Tables { settings: Map::empty(), packages: Map::empty(), registrations: Seq::empty() }
    }

    /// Finitely many rows, every id representable, and no two registrations
    /// with the same id.
    pub open spec fn valid(self) -> bool {
        &&& self.settings.dom().finite()
        &&& self.packages.dom().finite()
        &&& forall|id: int| self.packages.contains_key(id) ==> representable(id)
        &&& forall|i: int|
            0 <= i < self.registrations.len() ==> representable(
                (#[trigger] self.registrations[i]).id,
            )
        &&& forall|i: int, j: int|
            0 <= i < j < self.registrations.len() ==> (#[trigger] self.registrations[i]).id != (
            #[trigger] self.registrations[j]).id
    }

    /// Whether a registration of this id is stored.
    pub open spec fn has_registration(self, id: int) -> bool {
        exists|i: int| 0 <= i < self.registrations.len() && (#[trigger] self.registrations[i]).id == id
    }
}

/// The tables after a command, where storage picks `id` and `created_at`
/// for a row that it adds.
pub open spec fn after(pre: Tables, command: CommandView, id: int, created_at: Seq<char>) -> Tables {
    match command {
        CommandView::CreateSettings => pre,
        CommandView::CreatePackages => pre,
        CommandView::CreateRegistrations => pre,
        CommandView::SeedSetting(setting) => if pre.settings.contains_key(setting.key) {
            pre
        } else {
            Tables { settings: pre.settings.insert(setting.key, setting.value), ..pre }
        },
        CommandView::UpsertSetting(setting) => Tables {
            settings: pre.settings.insert(setting.key, setting.value),
            ..pre
        },
        CommandView::InsertPackage(record) => Tables {
            packages: pre.packages.insert(id, record),
            ..pre
        },
        CommandView::UpdatePackage(target, record) => if pre.packages.contains_key(target) {
            Tables { packages: pre.packages.insert(target, record), ..pre }
        } else {
            pre
        },
        CommandView::DeletePackage(target) => Tables {
            packages: pre.packages.remove(target),
            ..pre
        },
        CommandView::InsertRegistration(form) => Tables {
            registrations: pre.registrations.push(RegistrationView { id, form, created_at }),
            ..pre
        },
    }
}

/// Whether storage may pick `id` for the row that a command adds: no row of
/// the table has it.
pub open spec fn unused(pre: Tables, command: CommandView, id: int) -> bool {
    match command {
        CommandView::InsertPackage(_) => !pre.packages.contains_key(id),
        CommandView::InsertRegistration(_) => !pre.has_registration(id),
        _ => true,
    }
}

/// Whether `post` is what a command that succeeded may make of `pre`.
pub open spec fn effect(pre: Tables, command: CommandView, post: Tables) -> bool {
    exists|id: int, created_at: Seq<char>|
        unused(pre, command, id) && post == #[trigger] after(pre, command, id, created_at)
}

/// Whether `order` lists each member of `domain` once.
pub open spec fn enumerates<K>(order: Seq<K>, domain: Set<K>) -> bool {
    order.no_duplicates() && order.to_set() == domain
}

/// The row of a setting: key, value.
pub open spec fn setting_row(key: Seq<char>, value: Seq<char>) -> Seq<Cell> {
    seq![Cell::Text(key), Cell::Text(value)]
}

/// The row of a package: id, name, speed, price, features.
pub open spec fn package_row(id: int, record: PackageRecordView) -> Seq<Cell> {
    seq![
        Cell::Integer(id),
        Cell::Text(record.name),
        Cell::Text(record.speed),
        Cell::Text(record.price),
        Cell::Text(record.features),
    ]
}

/// The row of a registration: id, name, phone, address, package, notes,
/// created_at.
pub open spec fn registration_row(registration: RegistrationView) -> Seq<Cell> {
    seq![
        Cell::Integer(registration.id),
        Cell::Text(registration.form.name),
        Cell::Text(registration.form.phone),
        Cell::Text(registration.form.address),
        Cell::Text(registration.form.package),
        Cell::Text(registration.form.notes),
        Cell::Text(registration.created_at),
    ]
}

/// The rows of the settings, listed in the order `keys`.
pub open spec fn setting_rows(tables: Tables, keys: Seq<Seq<char>>) -> Seq<Seq<Cell>> {
    Seq::new(keys.len(), |i: int| setting_row(keys[i], tables.settings[keys[i]]))
}

/// The rows of the packages, listed in the order `ids`.
pub open spec fn package_rows(tables: Tables, ids: Seq<int>) -> Seq<Seq<Cell>> {
    Seq::new(ids.len(), |i: int| package_row(ids[i], tables.packages[ids[i]]))
}

/// The rows of the registrations, newest first.
pub open spec fn registration_rows(tables: Tables) -> Seq<Seq<Cell>> {
    Seq::new(
        tables.registrations.len(),
        |i: int| registration_row(tables.registrations[tables.registrations.len() - 1 - i]),
    )
}

/// Whether `rows` is what a query that succeeded may answer on `tables`.
/// Settings and packages come in an order that storage chooses, each row
/// once; registrations come newest first.
pub open spec fn answer(tables: Tables, query: Query, rows: Seq<Seq<Cell>>) -> bool {
    match query {
        Query::ListSettings => exists|keys: Seq<Seq<char>>|
            enumerates(keys, tables.settings.dom()) && rows == #[trigger] setting_rows(
                tables,
                keys,
            ),
        Query::ListPackages => exists|ids: Seq<int>|
            enumerates(ids, tables.packages.dom()) && rows == #[trigger] package_rows(tables, ids),
        Query::CountPackages => rows == seq![seq![Cell::Integer(tables.packages.dom().len() as int)]],
        Query::ListRegistrations => rows == registration_rows(tables),
    }
}

/// A bound above every member of a finite set of integers.
proof fn lemma_bounded(ids: Set<int>) -> (bound: int)
    requires
        ids.finite(),
    ensures
        forall|id: int| ids.contains(id) ==> id < bound,
    decreases ids.len(),
{
    if ids.len() == 0 {
        assert forall|id: int| ids.contains(id) implies id < 0 by {
            ids.lemma_len0_is_empty();
        }
        0
    } else {
        let one = ids.choose();
        let rest = lemma_bounded(ids.remove(one));
        let bound = if one < rest {
            rest
        } else {
            one + 1
        };
        bound
    }
}

/// Every finite set can be listed, each member once.
pub proof fn lemma_can_be_listed<K>(domain: Set<K>) -> (order: Seq<K>)
    requires
        domain.finite(),
    ensures
        enumerates(order, domain),
    decreases domain.len(),
{
    if domain.len() == 0 {
        domain.lemma_len0_is_empty();
        let order = Seq::<K>::empty();
        assert(order.to_set() =~= domain);
        order
    } else {
        let one = domain.choose();
        let rest = lemma_can_be_listed(domain.remove(one));
        let order = rest.push(one);
        assert forall|member: K| order.to_set().contains(member) <==> domain.contains(member) by {
            if domain.contains(member) {
                if member == one {
                    assert(order[rest.len() as int] == member);
                } else {
                    let i = choose|i: int| 0 <= i < rest.len() && rest[i] == member;
                    assert(order[i] == member);
                }
            }
        }
        assert(order.to_set() =~= domain);
        order
    }
}

/// The model asks nothing impossible of a command: whatever valid tables
/// hold, there are tables that the command may leave.
pub proof fn law_command_can_run(pre: Tables, command: CommandView)
    requires
        pre.valid(),
    ensures
        exists|post: Tables| effect(pre, command, post),
{
    let stored = pre.registrations;
    let taken = Seq::new(stored.len(), |i: int| stored[i].id).to_set();
    vstd::seq_lib::seq_to_set_is_finite(Seq::new(stored.len(), |i: int| stored[i].id));
    let above_packages = lemma_bounded(pre.packages.dom());
    let above_registrations = lemma_bounded(taken);
    let id = if above_packages < above_registrations {
        above_registrations
    } else {
        above_packages
    };
    assert(!pre.has_registration(id)) by {
        if pre.has_registration(id) {
            let i = choose|i: int| 0 <= i < stored.len() && (#[trigger] stored[i]).id == id;
            assert(Seq::new(stored.len(), |i: int| stored[i].id)[i] == id);
            assert(taken.contains(id));
        }
    }
    let post = after(pre, command, id, Seq::empty());
    assert(effect(pre, command, post));
}

/// The model asks nothing impossible of a query: whatever valid tables
/// hold, there are rows that the query may answer.
pub proof fn law_query_can_answer(tables: Tables, query: Query)
    requires
        tables.valid(),
    ensures
        exists|rows: Seq<Seq<Cell>>| answer(tables, query, rows),
{
    match query {
        Query::ListSettings => {
            let keys = lemma_can_be_listed(tables.settings.dom());
            assert(answer(tables, query, setting_rows(tables, keys)));
        },
        Query::ListPackages => {
            let ids = lemma_can_be_listed(tables.packages.dom());
            assert(answer(tables, query, package_rows(tables, ids)));
        },
        Query::CountPackages => {
            assert(answer(
                tables,
                query,
                seq![seq![Cell::Integer(tables.packages.dom().len() as int)]],
            ));
        },
        Query::ListRegistrations => {
            assert(answer(tables, query, registration_rows(tables)));
        },
    }
}

/// Whether storage that holds `pre` may report `outcome` on a command and
/// hold `post` afterwards.  A command that fails changes nothing.
pub open spec fn runs(pre: Tables, command: CommandView, outcome: OutcomeView, post: Tables) -> bool {
    match outcome {
        OutcomeView::Changed(_) => effect(pre, command, post),
        OutcomeView::Failed(_) => post == pre,
        _ => false,
    }
}

/// Whether storage that holds `tables` may report `outcome` on a query.
pub open spec fn asks(tables: Tables, query: Query, outcome: OutcomeView) -> bool {
    match outcome {
        OutcomeView::Rows(rows) => answer(tables, query, rows),
        OutcomeView::Failed(_) => true,
        _ => false,
    }
}

} // verus!
