//! The values in the rows of the store, and how a column is read from a
//! row as the kind of value that a field asks for.

use crate::error::{Reason, ReasonView};
use vstd::prelude::*;

verus! {

/// One value that crosses the border to the storage engine: a statement's
/// parameter on the way out, a cell of a result row on the way back.
#[derive(Debug, Clone, PartialEq, Eq)]
pub enum SqlValue {
    /// The engine's null.
    Null,
    /// A signed integer, as wide as the engine stores it.
    Integer(i64),
    /// A text.
    Text(String),
    /// A value of a kind that no table of this store holds.
    Other,
}

/// The mathematical value of a [`SqlValue`].
pub enum Cell {
    Null,
    Integer(int),
    Text(Seq<char>),
    Other,
}

impl View for SqlValue {
    type V = Cell;

    open spec fn view(&self) -> Cell {
        match *self {
            SqlValue::Null => Cell::Null,
            SqlValue::Integer(number) => Cell::Integer(number as int),
            SqlValue::Text(text) => Cell::Text(text@),
            SqlValue::Other => Cell::Other,
        }
    }
}

impl DeepView for SqlValue {
    type V = Cell;

    open spec fn deep_view(&self) -> Cell {
        self@
    }
}

/// The text in column `index` of a row: only a text cell has one.
pub open spec fn text_in(row: Seq<Cell>, index: int) -> Result<Seq<char>, ReasonView> {
    if !(0 <= index < row.len()) {
        Err(ReasonView::MissingColumn(index))
    } else {
        match row[index] {
            Cell::Text(text) => Ok(text),
            _ => Err(ReasonView::WrongType(index)),
        }
    }
}

/// The integer in column `index` of a row, which has to fit 32 bits.
pub open spec fn number_in(row: Seq<Cell>, index: int) -> Result<int, ReasonView> {
    if !(0 <= index < row.len()) {
        Err(ReasonView::MissingColumn(index))
    } else {
        match row[index] {
            Cell::Integer(number) => if i32::MIN <= number <= i32::MAX {
                Ok(number)
            } else {
                Err(ReasonView::OutOfRange(index))
            },
            _ => Err(ReasonView::WrongType(index)),
        }
    }
}

/// As [`number_in`], but a null cell stands for "no number".
pub open spec fn optional_number_in(row: Seq<Cell>, index: int) -> Result<
    Option<int>,
    ReasonView,
> {
    if 0 <= index < row.len() && row[index] is Null {
        Ok(None)
    } else {
        match number_in(row, index) {
            Ok(number) => Ok(Some(number)),
            Err(reason) => Err(reason),
        }
    }
}

/// Reads every row with `read`, in order: the items of all the rows, or the
/// reason for which the first unreadable row was refused.
pub open spec fn gather<T>(
    rows: Seq<Seq<Cell>>,
    read: spec_fn(Seq<Cell>) -> Result<T, ReasonView>,
) -> Result<Seq<T>, ReasonView>
    decreases rows.len(),
{
    if rows.len() == 0 {
        Ok(Seq::empty())
    } else {
        match gather(rows.drop_last(), read) {
            Err(reason) => Err(reason),
            Ok(items) => match read(rows.last()) {
                Err(reason) => Err(reason),
                Ok(item) => Ok(items.push(item)),
            },
        }
    }
}

/// Reading one row more: the items so far and the item of row `count`, or
/// the first refusal.
pub proof fn lemma_gather_step<T>(
    rows: Seq<Seq<Cell>>,
    read: spec_fn(Seq<Cell>) -> Result<T, ReasonView>,
    count: int,
)
    requires
        0 <= count < rows.len(),
    ensures
        gather(rows.take(count + 1), read) == match gather(rows.take(count), read) {
            Err(reason) => Err::<Seq<T>, ReasonView>(reason),
            Ok(items) => match read(rows[count]) {
                Err(reason) => Err(reason),
                Ok(item) => Ok(items.push(item)),
            },
        },
{
    assert(rows.take(count + 1).drop_last() =~= rows.take(count));
}

/// A refusal among the first `count` rows is the refusal of the whole.
pub proof fn lemma_gather_refused<T>(
    rows: Seq<Seq<Cell>>,
    read: spec_fn(Seq<Cell>) -> Result<T, ReasonView>,
    count: int,
)
    requires
        0 <= count <= rows.len(),
        gather(rows.take(count), read) is Err,
    ensures
        gather(rows, read) == gather(rows.take(count), read),
    decreases rows.len() - count,
{
    if count == rows.len() {
        assert(rows.take(count) =~= rows);
    } else {
        lemma_gather_step(rows, read, count);
        lemma_gather_refused(rows, read, count + 1);
    }
}

/// Where every row can be read, the items are the rows' items, one for one.
pub proof fn lemma_gather_all<T>(
    rows: Seq<Seq<Cell>>,
    read: spec_fn(Seq<Cell>) -> Result<T, ReasonView>,
)
    requires
        forall|i: int| 0 <= i < rows.len() ==> (#[trigger] read(rows[i])) is Ok,
    ensures
        gather(rows, read) == Ok::<Seq<T>, ReasonView>(
            Seq::new(rows.len(), |i: int| read(rows[i])->Ok_0),
        ),
    decreases rows.len(),
{
    if rows.len() == 0 {
        assert(Seq::new(rows.len(), |i: int| read(rows[i])->Ok_0) =~= Seq::<T>::empty());
    } else {
        let front = rows.drop_last();
        lemma_gather_all(front, read);
        assert(Seq::new(front.len(), |i: int| read(front[i])->Ok_0).push(read(rows.last())->Ok_0)
            =~= Seq::new(rows.len(), |i: int| read(rows[i])->Ok_0));
    }
}

/// Reads the text in column `index`.
pub fn text_at(row: &Vec<SqlValue>, index: usize) -> (res: Result<String, Reason>)
    ensures
        match res {
            Ok(text) => text_in(row.deep_view(), index as int) == Ok::<Seq<char>, ReasonView>(
                text@,
            ),
            Err(reason) => text_in(row.deep_view(), index as int) == Err::<
                Seq<char>,
                ReasonView,
            >(reason@),
        },
{
    if index >= row.len() {
        return Err(Reason::MissingColumn(index));
    }
    match &row[index] {
        SqlValue::Text(text) => Ok(text.clone()),
        _ => Err(Reason::WrongType(index)),
    }
}

/// Reads the integer in column `index` into 32 bits.
pub fn number_at(row: &Vec<SqlValue>, index: usize) -> (res: Result<i32, Reason>)
    ensures
        match res {
            Ok(number) => number_in(row.deep_view(), index as int) == Ok::<int, ReasonView>(
                number as int,
            ),
            Err(reason) => number_in(row.deep_view(), index as int) == Err::<int, ReasonView>(
                reason@,
            ),
        },
{
    if index >= row.len() {
        return Err(Reason::MissingColumn(index));
    }
    match &row[index] {
        SqlValue::Integer(number) => {
            let number: i64 = *number;
            if -2147483648 <= number && number <= 2147483647 {
                Ok(number as i32)
            } else {
                Err(Reason::OutOfRange(index))
            }
        },
        _ => Err(Reason::WrongType(index)),
    }
}

/// Reads the integer in column `index` into 32 bits, or nothing from a null.
pub fn optional_number_at(row: &Vec<SqlValue>, index: usize) -> (res: Result<Option<i32>, Reason>)
    ensures
        match res {
            Ok(Some(number)) => optional_number_in(row.deep_view(), index as int) == Ok::<
                Option<int>,
                ReasonView,
            >(Some(number as int)),
            Ok(None) => optional_number_in(row.deep_view(), index as int) == Ok::<
                Option<int>,
                ReasonView,
            >(None),
            Err(reason) => optional_number_in(row.deep_view(), index as int) == Err::<
                Option<int>,
                ReasonView,
            >(reason@),
        },
{
    if index < row.len() {
        if let SqlValue::Null = &row[index] {
            return Ok(None);
        }
    }
    match number_at(row, index) {
        Ok(number) => Ok(Some(number)),
        Err(reason) => Err(reason),
    }
}

} // verus!
