//! Packages: listed as a whole, saved and deleted one at a time.  A row
//! stores the feature list as one text.

use crate::command::{Command, CommandView, PackageRecord, PackageRecordView, Query};
use crate::entity::{Package, PackageView};
use crate::error::{Reason, ReasonView, StoreError, StoreErrorView};
use crate::exchange::{answered, read_result, Outcome, OutcomeView};
use crate::features::{decode_features, decoded_features, encode_features, json_of_strings, storable};
use crate::value::{
    gather,
    lemma_gather_refused,
    lemma_gather_step,
    optional_number_at,
    optional_number_in,
    text_at,
    text_in,
    Cell,
    SqlValue,
};
use vstd::prelude::*;

verus! {

/// The package that a row of the list stands for.  The columns are read
/// from the left, and the first that cannot be read is the reason.  The
/// features are what the stored text reads as; a text that cannot be read
/// stands for no features and is no error.
pub open spec fn package_of_row(row: Seq<Cell>) -> Result<PackageView, ReasonView> {
    match optional_number_in(row, 0) {
        Err(reason) => Err(reason),
        Ok(id) => match text_in(row, 1) {
            Err(reason) => Err(reason),
            Ok(name) => match text_in(row, 2) {
                Err(reason) => Err(reason),
                Ok(speed) => match text_in(row, 3) {
                    Err(reason) => Err(reason),
                    Ok(price) => match text_in(row, 4) {
                        Err(reason) => Err(reason),
                        Ok(text) => Ok(
                            PackageView { id, name, speed, price, features: decoded_features(text) },
                        ),
                    },
                },
            },
        },
    }
}

/// The packages that the rows of the list stand for.
pub open spec fn packages_of_rows(rows: Seq<Seq<Cell>>) -> Result<Seq<PackageView>, ReasonView> {
    gather(rows, |row: Seq<Cell>| package_of_row(row))
}

/// The packages that the report on the list holds.
pub open spec fn listed_packages(outcome: OutcomeView) -> Result<Seq<PackageView>, StoreErrorView> {
    match read_result(outcome) {
        Err(error) => Err(error),
        Ok(rows) => match packages_of_rows(rows) {
            Err(reason) => Err(StoreErrorView::Failed(reason)),
            Ok(packages) => Ok(packages),
        },
    }
}

/// The command that saves a package whose features are stored as `text`:
/// a package without an id is added, one with an id overwrites the row of
/// that id.
pub open spec fn write_of(package: PackageView, text: Seq<char>) -> CommandView {
    let record = PackageRecordView {
        name: package.name,
        speed: package.speed,
        price: package.price,
        features: text,
    };
    match package.id {
        None => CommandView::InsertPackage(record),
        Some(id) => CommandView::UpdatePackage(id, record),
    }
}

/// The query that lists every package.
pub fn list() -> (query: Query)
    ensures
        query == Query::ListPackages,
{
    Query::ListPackages
}

/// Reads one row of the list.
pub fn package_from_row(row: &Vec<SqlValue>) -> (res: Result<Package, Reason>)
    ensures
        match res {
            Ok(package) => package_of_row(row.deep_view()) == Ok::<PackageView, ReasonView>(
                package@,
            ),
            Err(reason) => package_of_row(row.deep_view()) == Err::<PackageView, ReasonView>(
                reason@,
            ),
        },
{
    let id = match optional_number_at(row, 0) {
        Ok(id) => id,
        Err(reason) => { return Err(reason); },
    };
    let name = match text_at(row, 1) {
        Ok(text) => text,
        Err(reason) => { return Err(reason); },
    };
    let speed = match text_at(row, 2) {
        Ok(text) => text,
        Err(reason) => { return Err(reason); },
    };
    let price = match text_at(row, 3) {
        Ok(text) => text,
        Err(reason) => { return Err(reason); },
    };
    let text = match text_at(row, 4) {
        Ok(text) => text,
        Err(reason) => { return Err(reason); },
    };
    let features = decode_features(text.as_str());
    Ok(Package { id, name, speed, price, features })
}

/// Reads the rows of the list, in their order.
pub fn packages_from_rows(rows: &Vec<Vec<SqlValue>>) -> (res: Result<Vec<Package>, Reason>)
    ensures
        match res {
            Ok(packages) => packages_of_rows(rows.deep_view()) == Ok::<
                Seq<PackageView>,
                ReasonView,
            >(packages.deep_view()),
            Err(reason) => packages_of_rows(rows.deep_view()) == Err::<
                Seq<PackageView>,
                ReasonView,
            >(reason@),
        },
{
    let ghost read = |row: Seq<Cell>| package_of_row(row);
    let mut packages: Vec<Package> = Vec::new();
    let mut index: usize = 0;
    assert(packages.deep_view() =~= Seq::<PackageView>::empty());
    while index < rows.len()
        invariant
            index <= rows.len(),
            read == (|row: Seq<Cell>| package_of_row(row)),
            gather(rows.deep_view().take(index as int), read) == Ok::<Seq<PackageView>, ReasonView>(
                packages.deep_view(),
            ),
        decreases rows.len() - index,
    {
        proof {
            lemma_gather_step(rows.deep_view(), read, index as int);
        }
        let ghost before = packages.deep_view();
        match package_from_row(&rows[index]) {
            Ok(package) => {
                packages.push(package);
                assert(packages.deep_view() =~= before.push(package@));
            },
            Err(reason) => {
                proof {
                    lemma_gather_refused(rows.deep_view(), read, index as int + 1);
                }
                return Err(reason);
            },
        }
        index = index + 1;
    }
    assert(rows.deep_view().take(index as int) =~= rows.deep_view());
    Ok(packages)
}

/// Reads the packages out of the report on [`list`].
pub fn listed(outcome: &Outcome) -> (res: Result<Vec<Package>, StoreError>)
    ensures
        match res {
            Ok(packages) => listed_packages(outcome@) == Ok::<Seq<PackageView>, StoreErrorView>(
                packages.deep_view(),
            ),
            Err(error) => listed_packages(outcome@) == Err::<Seq<PackageView>, StoreErrorView>(
                error@,
            ),
        },
{
    match answered(outcome) {
        Err(error) => Err(error),
        Ok(rows) => match packages_from_rows(rows) {
            Ok(packages) => Ok(packages),
            Err(reason) => Err(StoreError::Failed(reason)),
        },
    }
}

/// The command that saves `package` with `text` as its stored features.
pub fn write(package: &Package, text: String) -> (command: Command)
    ensures
        command@ == write_of(package@, text@),
{
    let record = PackageRecord {
        name: package.name.clone(),
        speed: package.speed.clone(),
        price: package.price.clone(),
        features: text,
    };
    match package.id {
        None => Command::InsertPackage(record),
        Some(id) => Command::UpdatePackage(id, record),
    }
}

/// The command that saves a package: it adds the package where it has no
/// id, and overwrites the stored package of its id where it has one.  The
/// features are stored as a text that reads back as the same list; a list
/// without such a text is refused.
pub fn save(package: &Package) -> (res: Result<Command, StoreError>)
    ensures
        res is Ok <==> storable(package@.features),
        match res {
            Ok(command) => command@ == write_of(
                package@,
                json_of_strings(package@.features)->Some_0,
            ),
            Err(error) => error@ == StoreErrorView::Failed(ReasonView::Encoding),
        },
{
    match encode_features(&package.features) {
        Ok(text) => Ok(write(package, text)),
        Err(reason) => Err(StoreError::Failed(reason)),
    }
}

/// The command that deletes the package of this id.  It succeeds whether or
/// not such a package is stored.
pub fn delete(id: i32) -> (command: Command)
    ensures
        command@ == CommandView::DeletePackage(id as int),
{
    Command::DeletePackage(id)
}

} // verus!
