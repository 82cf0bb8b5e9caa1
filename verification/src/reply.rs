//! What a request is answered with once its work is done: a status and a
//! message.  Lists are answered with the list itself; only their failures
//! are answered from here.

use crate::entity::{ContactForm, ContactFormView, RegistrationForm, RegistrationFormView};
use crate::error::{error_text, StoreError, StoreErrorView};
use crate::exchange::{write_result, written, Outcome, OutcomeView};
use crate::registrations::{notice, notice_lines};
use vstd::prelude::*;

verus! {

/// A request that is answered with a message.
#[derive(Debug, Clone, Copy, PartialEq, Eq, Structural)]
pub enum Operation {
    /// A contact form was sent.
    Contact,
    /// A setting was written.
    UpdateSetting,
    /// A package was saved.
    SavePackage,
    /// A package was deleted.
    DeletePackage,
    /// A registration was sent.
    SaveRegistration,
}

/// The answer to a request.
#[derive(Debug, Clone, PartialEq, Eq)]
pub struct Reply {
    /// The status code of the response.
    pub status: u16,
    /// The text of the response's `message` field.
    pub message: String,
}

/// The mathematical value of a [`Reply`].
pub struct ReplyView {
    pub status: int,
    pub message: Seq<char>,
}

impl View for Reply {
    type V = ReplyView;

    open spec fn view(&self) -> ReplyView {
        ReplyView { status: self.status as int, message: self.message@ }
    }
}

/// The message that confirms an operation.
pub open spec fn confirmation(operation: Operation) -> Seq<char> {
    match operation {
        Operation::Contact =>
            "Pendaftaran berhasil diterima! Tim kami akan segera menghubungi Anda."@,
        Operation::UpdateSetting => "Setting updated"@,
        Operation::SavePackage => "Package saved"@,
        Operation::DeletePackage => "Package deleted"@,
        Operation::SaveRegistration => "Registration saved"@,
    }
}

/// The answer to an operation that ended with `result`: status 200 and the
/// confirmation on success, status 500 and the error's message on failure.
pub open spec fn reply_for(operation: Operation, result: Result<(), StoreErrorView>) -> ReplyView {
    match result {
        Ok(_) => ReplyView { status: 200, message: confirmation(operation) },
        Err(error) => ReplyView { status: 500, message: error_text(error) },
    }
}

/// The lines that the console shows for a contact form.
pub open spec fn contact_lines(form: ContactFormView) -> Seq<Seq<char>> {
    seq![
        "Menerima Data Pendaftaran Baru:"@,
        "-------------------------------------------------"@,
        "Nama    : "@ + form.name,
        "Telepon : "@ + form.phone,
        "Alamat  : "@ + form.address,
        "Paket   : "@ + form.package,
        "-------------------------------------------------"@,
    ]
}

/// Confirms an operation: status 200 and its message.
pub fn confirm(operation: Operation) -> (reply: Reply)
    ensures
        reply@ == (ReplyView { status: 200, message: confirmation(operation) }),
{
    let message = match operation {
        Operation::Contact => String::from_str(
            "Pendaftaran berhasil diterima! Tim kami akan segera menghubungi Anda.",
        ),
        Operation::UpdateSetting => String::from_str("Setting updated"),
        Operation::SavePackage => String::from_str("Package saved"),
        Operation::DeletePackage => String::from_str("Package deleted"),
        Operation::SaveRegistration => String::from_str("Registration saved"),
    };
    Reply { status: 200, message }
}

/// Reports a failure of the store: status 500 and the error's message.  The
/// service goes on.
pub fn refuse(error: &StoreError) -> (reply: Reply)
    ensures
        reply@ == (ReplyView { status: 500, message: error_text(error@) }),
{
    Reply { status: 500, message: error.message() }
}

/// Answers an operation that ended with `result`.
pub fn reply_to(operation: Operation, result: &Result<(), StoreError>) -> (reply: Reply)
    ensures
        reply@ == reply_for(
            operation,
            match *result {
                Ok(_) => Ok(()),
                Err(error) => Err(error@),
            },
        ),
{
    match result {
        Ok(_) => confirm(operation),
        Err(error) => refuse(error),
    }
}

/// Answers an operation from the report on its command.
pub fn reply_to_report(operation: Operation, outcome: &Outcome) -> (reply: Reply)
    ensures
        reply@ == reply_for(operation, write_result(outcome@)),
{
    let result = written(outcome);
    reply_to(operation, &result)
}

/// The lines that the console shows once the command of a registration was
/// reported on: the notice where it was stored, nothing where it was not.
pub open spec fn registration_lines(
    form: RegistrationFormView,
    outcome: OutcomeView,
) -> Seq<Seq<char>> {
    if outcome is Changed {
        notice_lines(form)
    } else {
        Seq::empty()
    }
}

/// Concludes a registration from the report on its command.  Gives the
/// lines for the console and the answer.
pub fn registration_saved(form: &RegistrationForm, outcome: &Outcome) -> (res: (Vec<String>, Reply))
    ensures
        res.0.deep_view() == registration_lines(form@, outcome@),
        res.1@ == reply_for(Operation::SaveRegistration, write_result(outcome@)),
{
    let result = written(outcome);
    let lines = match result {
        Ok(_) => notice(form),
        Err(_) => {
            let none: Vec<String> = Vec::new();
            none
        },
    };
    (lines, reply_to(Operation::SaveRegistration, &result))
}

/// Takes a contact form: nothing is stored.  Gives the lines for the
/// console and the confirmation.
pub fn contact_message(form: &ContactForm) -> (res: (Vec<String>, Reply))
    ensures
        res.0.deep_view() == contact_lines(form@),
        res.1@ == reply_for(Operation::Contact, Ok(())),
{
    let rule = "-------------------------------------------------";
    let mut name = String::from_str("Nama    : ");
    name.append(form.name.as_str());
    let mut phone = String::from_str("Telepon : ");
    phone.append(form.phone.as_str());
    let mut address = String::from_str("Alamat  : ");
    address.append(form.address.as_str());
    let mut package = String::from_str("Paket   : ");
    package.append(form.package.as_str());
    let mut lines: Vec<String> = Vec::new();
    lines.push(String::from_str("Menerima Data Pendaftaran Baru:"));
    lines.push(String::from_str(rule));
    lines.push(name);
    lines.push(phone);
    lines.push(address);
    lines.push(package);
    lines.push(String::from_str(rule));
    (lines, confirm(Operation::Contact))
}

} // verus!
