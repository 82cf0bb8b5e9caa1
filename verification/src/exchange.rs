//! The reports of the storage engine, and what they mean for an operation.

use crate::error::{Reason, ReasonView, StoreError, StoreErrorView};
use crate::value::{Cell, SqlValue};
use vstd::prelude::*;

verus! {

/// What the storage engine reports after it was asked to do something.
#[derive(Debug, Clone, PartialEq, Eq)]
pub enum Outcome {
    /// The store is open.
    Opened,
    /// A command ran; the number is the count of rows it changed.
    Changed(usize),
    /// A query ran; these are its rows, in the order it gave them.
    Rows(Vec<Vec<SqlValue>>),
    /// The engine failed; the text is its message.
    Failed(String),
}

/// The mathematical value of an [`Outcome`].
pub enum OutcomeView {
    Opened,
    Changed(int),
    Rows(Seq<Seq<Cell>>),
    Failed(Seq<char>),
}

impl View for Outcome {
    type V = OutcomeView;

    open spec fn view(&self) -> OutcomeView {
        match *self {
            Outcome::Opened => OutcomeView::Opened,
            Outcome::Changed(count) => OutcomeView::Changed(count as int),
            Outcome::Rows(rows) => OutcomeView::Rows(rows.deep_view()),
            Outcome::Failed(text) => OutcomeView::Failed(text@),
        }
    }
}

/// What the report on a command means for the caller: any count of changed
/// rows is a success, zero too.
pub open spec fn write_result(outcome: OutcomeView) -> Result<(), StoreErrorView> {
    match outcome {
        OutcomeView::Changed(_) => Ok(()),
        OutcomeView::Failed(text) => Err(StoreErrorView::Failed(ReasonView::Reported(text))),
        _ => Err(StoreErrorView::Failed(ReasonView::Unexpected)),
    }
}

/// What the report on a query holds for the caller: its rows, or the error.
pub open spec fn read_result(outcome: OutcomeView) -> Result<Seq<Seq<Cell>>, StoreErrorView> {
    match outcome {
        OutcomeView::Rows(rows) => Ok(rows),
        OutcomeView::Failed(text) => Err(StoreErrorView::Failed(ReasonView::Reported(text))),
        _ => Err(StoreErrorView::Failed(ReasonView::Unexpected)),
    }
}

/// Judges the report on a command.  A command that found no row to change
/// has succeeded.
pub fn written(outcome: &Outcome) -> (res: Result<(), StoreError>)
    ensures
        res is Ok <==> outcome@ is Changed,
        match res {
            Ok(_) => write_result(outcome@) is Ok,
            Err(error) => write_result(outcome@) == Err::<(), StoreErrorView>(error@),
        },
{
    match outcome {
        Outcome::Changed(_) => Ok(()),
        Outcome::Failed(text) => Err(StoreError::Failed(Reason::Reported(text.clone()))),
        _ => Err(StoreError::Failed(Reason::Unexpected)),
    }
}

/// Takes the rows out of the report on a query.
pub fn answered(outcome: &Outcome) -> (res: Result<&Vec<Vec<SqlValue>>, StoreError>)
    ensures
        res is Ok <==> outcome@ is Rows,
        match res {
            Ok(rows) => read_result(outcome@) == Ok::<Seq<Seq<Cell>>, StoreErrorView>(
                rows.deep_view(),
            ),
            Err(error) => read_result(outcome@) == Err::<Seq<Seq<Cell>>, StoreErrorView>(error@),
        },
{
    match outcome {
        Outcome::Rows(rows) => Ok(rows),
        Outcome::Failed(text) => Err(StoreError::Failed(Reason::Reported(text.clone()))),
        _ => Err(StoreError::Failed(Reason::Unexpected)),
    }
}

} // verus!
