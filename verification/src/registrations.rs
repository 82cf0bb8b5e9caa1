//! Registrations: created one at a time, never changed, listed newest
//! first.  No field of a form is checked for its shape.

use crate::command::{Command, CommandView, Query};
use crate::entity::{Registration, RegistrationForm, RegistrationFormView, RegistrationView};
use crate::error::{Reason, ReasonView, StoreError, StoreErrorView};
use crate::exchange::{answered, read_result, Outcome, OutcomeView};
use crate::value::{
    gather,
    lemma_gather_refused,
    lemma_gather_step,
    number_at,
    number_in,
    text_at,
    text_in,
    Cell,
    SqlValue,
};
use vstd::prelude::*;

verus! {

/// The form whose fields are the text columns 1 to 5 of a row.
pub open spec fn form_of_row(row: Seq<Cell>) -> Result<RegistrationFormView, ReasonView> {
    match text_in(row, 1) {
        Err(reason) => Err(reason),
        Ok(name) => match text_in(row, 2) {
            Err(reason) => Err(reason),
            Ok(phone) => match text_in(row, 3) {
                Err(reason) => Err(reason),
                Ok(address) => match text_in(row, 4) {
                    Err(reason) => Err(reason),
                    Ok(package) => match text_in(row, 5) {
                        Err(reason) => Err(reason),
                        Ok(notes) => Ok(
                            RegistrationFormView { name, phone, address, package, notes },
                        ),
                    },
                },
            },
        },
    }
}

/// The registration that a row of the list stands for.  The columns are
/// read from the left, and the first that cannot be read is the reason.
pub open spec fn registration_of_row(row: Seq<Cell>) -> Result<RegistrationView, ReasonView> {
    match number_in(row, 0) {
        Err(reason) => Err(reason),
        Ok(id) => match form_of_row(row) {
            Err(reason) => Err(reason),
            Ok(form) => match text_in(row, 6) {
                Err(reason) => Err(reason),
                Ok(created_at) => Ok(RegistrationView { id, form, created_at }),
            },
        },
    }
}

/// The registrations that the rows of the list stand for.
pub open spec fn registrations_of_rows(rows: Seq<Seq<Cell>>) -> Result<
    Seq<RegistrationView>,
    ReasonView,
> {
    gather(rows, |row: Seq<Cell>| registration_of_row(row))
}

/// The registrations that the report on the list holds.
pub open spec fn listed_registrations(outcome: OutcomeView) -> Result<
    Seq<RegistrationView>,
    StoreErrorView,
> {
    match read_result(outcome) {
        Err(error) => Err(error),
        Ok(rows) => match registrations_of_rows(rows) {
            Err(reason) => Err(StoreErrorView::Failed(reason)),
            Ok(registrations) => Ok(registrations),
        },
    }
}

/// The lines that the console shows for a stored registration.
pub open spec fn notice_lines(form: RegistrationFormView) -> Seq<Seq<char>> {
    seq![
        "Pendaftaran Baru:"@,
        "Nama: "@ + form.name + ", HP: "@ + form.phone + ", Paket: "@ + form.package,
    ]
}

/// The command that stores a registration as it was sent.  Storage assigns
/// the id and the time of creation.
pub fn create(form: &RegistrationForm) -> (command: Command)
    ensures
        command@ == CommandView::InsertRegistration(form@),
{
    Command::InsertRegistration(
        RegistrationForm {
            name: form.name.clone(),
            phone: form.phone.clone(),
            address: form.address.clone(),
            package: form.package.clone(),
            notes: form.notes.clone(),
        },
    )
}

/// The query that lists every registration, newest first.
pub fn list() -> (query: Query)
    ensures
        query == Query::ListRegistrations,
{
    Query::ListRegistrations
}

/// Reads one row of the list.
pub fn registration_from_row(row: &Vec<SqlValue>) -> (res: Result<Registration, Reason>)
    ensures
        match res {
            Ok(registration) => registration_of_row(row.deep_view()) == Ok::<
                RegistrationView,
                ReasonView,
            >(registration@),
            Err(reason) => registration_of_row(row.deep_view()) == Err::<
                RegistrationView,
                ReasonView,
            >(reason@),
        },
{
    let id = match number_at(row, 0) {
        Ok(number) => number,
        Err(reason) => { return Err(reason); },
    };
    let name = match text_at(row, 1) {
        Ok(text) => text,
        Err(reason) => { return Err(reason); },
    };
    let phone = match text_at(row, 2) {
        Ok(text) => text,
        Err(reason) => { return Err(reason); },
    };
    let address = match text_at(row, 3) {
        Ok(text) => text,
        Err(reason) => { return Err(reason); },
    };
    let package = match text_at(row, 4) {
        Ok(text) => text,
        Err(reason) => { return Err(reason); },
    };
    let notes = match text_at(row, 5) {
        Ok(text) => text,
        Err(reason) => { return Err(reason); },
    };
    let created_at = match text_at(row, 6) {
        Ok(text) => text,
        Err(reason) => { return Err(reason); },
    };
    Ok(Registration { id, name, phone, address, package, notes, created_at })
}

/// Reads the rows of the list, in their order.
pub fn registrations_from_rows(rows: &Vec<Vec<SqlValue>>) -> (res: Result<
    Vec<Registration>,
    Reason,
>)
    ensures
        match res {
            Ok(registrations) => registrations_of_rows(rows.deep_view()) == Ok::<
                Seq<RegistrationView>,
                ReasonView,
            >(registrations.deep_view()),
            Err(reason) => registrations_of_rows(rows.deep_view()) == Err::<
                Seq<RegistrationView>,
                ReasonView,
            >(reason@),
        },
{
    let ghost read = |row: Seq<Cell>| registration_of_row(row);
    let mut registrations: Vec<Registration> = Vec::new();
    let mut index: usize = 0;
    assert(registrations.deep_view() =~= Seq::<RegistrationView>::empty());
    while index < rows.len()
        invariant
            index <= rows.len(),
            read == (|row: Seq<Cell>| registration_of_row(row)),
            gather(rows.deep_view().take(index as int), read) == Ok::<
                Seq<RegistrationView>,
                ReasonView,
            >(registrations.deep_view()),
        decreases rows.len() - index,
    {
        proof {
            lemma_gather_step(rows.deep_view(), read, index as int);
        }
        let ghost before = registrations.deep_view();
        match registration_from_row(&rows[index]) {
            Ok(registration) => {
                registrations.push(registration);
                assert(registrations.deep_view() =~= before.push(registration@));
            },
            Err(reason) => {
                proof {
                    lemma_gather_refused(rows.deep_view(), read, index as int + 1);
                }
                return Err(reason);
            },
        }
        index = index + 1;
    }
    assert(rows.deep_view().take(index as int) =~= rows.deep_view());
    Ok(registrations)
}

/// Reads the registrations out of the report on [`list`], newest first as
/// the rows come.
pub fn listed(outcome: &Outcome) -> (res: Result<Vec<Registration>, StoreError>)
    ensures
        match res {
            Ok(registrations) => listed_registrations(outcome@) == Ok::<
                Seq<RegistrationView>,
                StoreErrorView,
            >(registrations.deep_view()),
            Err(error) => listed_registrations(outcome@) == Err::<
                Seq<RegistrationView>,
                StoreErrorView,
            >(error@),
        },
{
    match answered(outcome) {
        Err(error) => Err(error),
        Ok(rows) => match registrations_from_rows(rows) {
            Ok(registrations) => Ok(registrations),
            Err(reason) => Err(StoreError::Failed(reason)),
        },
    }
}

/// The lines for the console once a registration is stored.
pub fn notice(form: &RegistrationForm) -> (lines: Vec<String>)
    ensures
        lines.deep_view() == notice_lines(form@),
{
    let head = String::from_str("Pendaftaran Baru:");
    let mut line = String::from_str("Nama: ");
    line.append(form.name.as_str());
    line.append(", HP: ");
    line.append(form.phone.as_str());
    line.append(", Paket: ");
    line.append(form.package.as_str());
    let mut lines: Vec<String> = Vec::new();
    lines.push(head);
    lines.push(line);
    lines
}

} // verus!
