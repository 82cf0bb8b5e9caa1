//! The failures of the store: when one happened, and why.

use vstd::prelude::*;

verus! {

/// Why an operation on the store did not succeed.
#[derive(Debug, Clone, PartialEq, Eq)]
pub enum Reason {
    /// The storage engine reported a failure; the text is its message.
    Reported(String),
    /// A query that has to give a row gave none.
    MissingRow,
    /// A result row has no column at this index.
    MissingColumn(usize),
    /// The column at this index does not hold the kind of value asked for.
    WrongType(usize),
    /// The integer in the column at this index does not fit the field it is read into.
    OutOfRange(usize),
    /// The storage engine answered with a report that the statement cannot produce.
    Unexpected,
    /// A feature list has no stored text that reads back as the same list.
    Encoding,
}

/// The mathematical value of a [`Reason`].
pub enum ReasonView {
    Reported(Seq<char>),
    MissingRow,
    MissingColumn(int),
    WrongType(int),
    OutOfRange(int),
    Unexpected,
    Encoding,
}

impl View for Reason {
    type V = ReasonView;

    open spec fn view(&self) -> ReasonView {
        match *self {
            Reason::Reported(text) => ReasonView::Reported(text@),
            Reason::MissingRow => ReasonView::MissingRow,
            Reason::MissingColumn(index) => ReasonView::MissingColumn(index as int),
            Reason::WrongType(index) => ReasonView::WrongType(index as int),
            Reason::OutOfRange(index) => ReasonView::OutOfRange(index as int),
            Reason::Unexpected => ReasonView::Unexpected,
            Reason::Encoding => ReasonView::Encoding,
        }
    }
}

/// A failure of the store, by the moment at which it happened.
#[derive(Debug, Clone, PartialEq, Eq)]
pub enum StoreError {
    /// The store could not be opened or prepared: the service cannot start.
    Unavailable(Reason),
    /// One operation against a prepared store failed: the service goes on.
    Failed(Reason),
}

/// The mathematical value of a [`StoreError`].
pub enum StoreErrorView {
    Unavailable(ReasonView),
    Failed(ReasonView),
}

impl View for StoreError {
    type V = StoreErrorView;

    open spec fn view(&self) -> StoreErrorView {
        match *self {
            StoreError::Unavailable(reason) => StoreErrorView::Unavailable(reason@),
            StoreError::Failed(reason) => StoreErrorView::Failed(reason@),
        }
    }
}

/// The text that [`Reason::message`] gives for a reason.
pub open spec fn reason_text(reason: ReasonView) -> Seq<char> {
    match reason {
        ReasonView::Reported(text) => text,
        ReasonView::MissingRow => "a query gave no row"@,
        ReasonView::MissingColumn(_) => "a result row has too few columns"@,
        ReasonView::WrongType(_) => "a result column holds a value of the wrong type"@,
        ReasonView::OutOfRange(_) => "a stored integer is out of range"@,
        ReasonView::Unexpected => "the storage engine gave an unexpected report"@,
        ReasonView::Encoding => "the feature list cannot be stored"@,
    }
}

/// The text that [`StoreError::message`] gives for an error.
pub open spec fn error_text(error: StoreErrorView) -> Seq<char> {
    match error {
        StoreErrorView::Unavailable(reason) => "storage unavailable: "@ + reason_text(reason),
        StoreErrorView::Failed(reason) => "storage error: "@ + reason_text(reason),
    }
}

impl Reason {
    /// A sentence for people, without the column index.
    pub fn message(&self) -> (text: String)
        ensures
            text@ == reason_text(self@),
    {
        match self {
            Reason::Reported(text) => text.clone(),
            Reason::MissingRow => String::from_str("a query gave no row"),
            Reason::MissingColumn(_) => String::from_str("a result row has too few columns"),
            Reason::WrongType(_) => String::from_str(
                "a result column holds a value of the wrong type",
            ),
            Reason::OutOfRange(_) => String::from_str("a stored integer is out of range"),
            Reason::Unexpected => String::from_str("the storage engine gave an unexpected report"),
            Reason::Encoding => String::from_str("the feature list cannot be stored"),
        }
    }
}

impl StoreError {
    /// The reason that the error carries.
    pub fn reason(&self) -> (reason: &Reason)
        ensures
            reason@ == match self@ {
                StoreErrorView::Unavailable(r) => r,
                StoreErrorView::Failed(r) => r,
            },
    {
        match self {
            StoreError::Unavailable(reason) => reason,
            StoreError::Failed(reason) => reason,
        }
    }

    /// The message that goes out with an error response.
    pub fn message(&self) -> (text: String)
        ensures
            text@ == error_text(self@),
    {
        match self {
            StoreError::Unavailable(reason) => {
                let head = String::from_str("storage unavailable: ");
                let tail = reason.message();
                head.concat(tail.as_str())
            },
            StoreError::Failed(reason) => {
                let head = String::from_str("storage error: ");
                let tail = reason.message();
                head.concat(tail.as_str())
            },
        }
    }
}

} // verus!
