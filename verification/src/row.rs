//! Typed readers of result rows. A row is the sequence of its cells; a
//! reader either accepts the cell at a position or finds it unreadable,
//! and a position past the end of the row is unreadable.

use crate::error::{viewed, StorageError, StorageErrorView};
use crate::value::{Cell, CellView};
use vstd::prelude::*;

verus! {

/// The cell at position `i`, if the row is that long.
pub open spec fn cell_at(row: Seq<CellView>, i: int) -> Option<CellView> {
    if 0 <= i < row.len() {
        Some(row[i])
    } else {
        None
    }
}

/// A required 32-bit integer: an integer cell whose value fits.
pub open spec fn int_at(row: Seq<CellView>, i: int) -> Option<i32> {
    match cell_at(row, i) {
        Some(CellView::Integer(v)) => if i32::MIN <= v <= i32::MAX {
            Some(v as i32)
        } else {
            None
        },
        _ => None,
    }
}

/// An optional 32-bit integer: `NULL` reads as absent.
pub open spec fn optional_int_at(row: Seq<CellView>, i: int) -> Option<Option<i32>> {
    match cell_at(row, i) {
        Some(CellView::Null) => Some(None),
        _ => match int_at(row, i) {
            Some(v) => Some(Some(v)),
            None => None,
        },
    }
}

/// A required text.
pub open spec fn text_at(row: Seq<CellView>, i: int) -> Option<Seq<char>> {
    match cell_at(row, i) {
        Some(CellView::Text(s)) => Some(s),
        _ => None,
    }
}

/// An optional text: `NULL` reads as absent.
pub open spec fn optional_text_at(row: Seq<CellView>, i: int) -> Option<Option<Seq<char>>> {
    match cell_at(row, i) {
        Some(CellView::Null) => Some(None),
        Some(CellView::Text(s)) => Some(Some(s)),
        _ => None,
    }
}

/// Reads [`int_at`].
pub fn read_int(row: &Vec<Cell>, i: usize) -> (r: Option<i32>)
    ensures
        r == int_at(row.deep_view(), i as int),
{
    if i >= row.len() {
        return None;
    }
    match &row[i] {
        Cell::Integer(v) => {
            if -0x8000_0000 <= *v && *v <= 0x7fff_ffff {
                Some(*v as i32)
            } else {
                None
            }
        },
        _ => None,
    }
}

/// Reads [`optional_int_at`].
pub fn read_optional_int(row: &Vec<Cell>, i: usize) -> (r: Option<Option<i32>>)
    ensures
        r == optional_int_at(row.deep_view(), i as int),
{
    if i >= row.len() {
        return None;
    }
    match &row[i] {
        Cell::Null => Some(None),
        _ => match read_int(row, i) {
            Some(v) => Some(Some(v)),
            None => None,
        },
    }
}

/// Reads [`text_at`].
pub fn read_text(row: &Vec<Cell>, i: usize) -> (r: Option<String>)
    ensures
        r.deep_view() == text_at(row.deep_view(), i as int),
{
    if i >= row.len() {
        return None;
    }
    match &row[i] {
        Cell::Text(s) => Some(s.clone()),
        _ => None,
    }
}

/// Reads [`optional_text_at`].
pub fn read_optional_text(row: &Vec<Cell>, i: usize) -> (r: Option<Option<String>>)
    ensures
        r.deep_view() == optional_text_at(row.deep_view(), i as int),
{
    if i >= row.len() {
        return None;
    }
    match &row[i] {
        Cell::Null => Some(None),
        Cell::Text(s) => Some(Some(s.clone())),
        _ => None,
    }
}

/// A record that is read from one row.
pub trait FromRow: DeepView + Sized {
    /// Whether the row has the shape of this record.
    spec fn readable(row: Seq<CellView>) -> bool;

    /// The record that a readable row holds.
    spec fn of_row(row: Seq<CellView>) -> Self::V;

    /// Reads the row, or returns `None` where it is not readable.
    fn from_row(row: &Vec<Cell>) -> (r: Option<Self>)
        ensures
            r is Some <==> Self::readable(row.deep_view()),
            r matches Some(v) ==> v.deep_view() == Self::of_row(row.deep_view()),
    ;
}

/// Every row is readable.
pub open spec fn all_readable<T: FromRow>(rows: Seq<Seq<CellView>>) -> bool {
    forall|i: int| 0 <= i < rows.len() ==> T::readable(#[trigger] rows[i])
}

/// Row `k` is the first that is not readable.
pub open spec fn first_unreadable<T: FromRow>(rows: Seq<Seq<CellView>>, k: int) -> bool {
    &&& 0 <= k < rows.len()
    &&& !T::readable(rows[k])
    &&& forall|j: int| 0 <= j < k ==> T::readable(#[trigger] rows[j])
}

/// The record of each row, in order.
pub open spec fn records_of<T: FromRow>(rows: Seq<Seq<CellView>>) -> Seq<T::V> {
    Seq::new(rows.len(), |i: int| T::of_row(rows[i]))
}

/// What reading a result gives: the record of each row, in order. One
/// unreadable row fails the whole result, and the failure names the first
/// such row.
pub open spec fn read_all<T: FromRow>(rows: Seq<Seq<CellView>>) -> Result<
    Seq<T::V>,
    StorageErrorView,
> {
    if all_readable::<T>(rows) {
        Ok(records_of::<T>(rows))
    } else {
        Err(
            StorageErrorView::MalformedRow {
                row: (choose|k: int| first_unreadable::<T>(rows, k)) as usize,
            },
        )
    }
}

/// Only one row is the first unreadable one, and the failure of the
/// result names it.
pub proof fn law_failure_names_first_unreadable<T: FromRow>(rows: Seq<Seq<CellView>>, k: int)
    requires
        first_unreadable::<T>(rows, k),
    ensures
        !all_readable::<T>(rows),
        (choose|j: int| first_unreadable::<T>(rows, j)) == k,
        read_all::<T>(rows) == Err::<Seq<T::V>, _>(
            StorageErrorView::MalformedRow { row: k as usize },
        ),
{
    let j = choose|j: int| first_unreadable::<T>(rows, j);
    assert(first_unreadable::<T>(rows, j));
    if j < k {
        assert(T::readable(rows[j]));
    }
    if k < j {
        assert(T::readable(rows[k]));
    }
}

/// Reads every row of a result: [`read_all`].
pub fn read_rows<T: FromRow>(rows: &Vec<Vec<Cell>>) -> (r: Result<Vec<T>, StorageError>)
    ensures
        viewed(r) == read_all::<T>(rows.deep_view()),
{
    let mut values: Vec<T> = Vec::new();
    let mut i: usize = 0;
    while i < rows.len()
        invariant
            i <= rows.len(),
            values.len() == i,
            forall|j: int|
                0 <= j < i ==> T::readable(#[trigger] rows.deep_view()[j])
                    && values[j].deep_view() == T::of_row(rows.deep_view()[j]),
        decreases rows.len() - i,
    {
        assert(rows.deep_view()[i as int] == rows[i as int].deep_view());
        match T::from_row(&rows[i]) {
            Some(v) => {
                values.push(v);
            },
            None => {
                proof {
                    law_failure_names_first_unreadable::<T>(rows.deep_view(), i as int);
                }
                return Err(StorageError::MalformedRow { row: i });
            },
        }
        i += 1;
    }
    assert(values.deep_view() =~= records_of::<T>(rows.deep_view()));
    Ok(values)
}

/// The single text that a lookup by key returns: absent where no row came
/// back or the cell is `NULL`.
pub open spec fn looked_up_text(rows: Seq<Seq<CellView>>) -> Result<
    Option<Seq<char>>,
    StorageErrorView,
> {
    if rows.len() == 0 {
        Ok(None)
    } else {
        match optional_text_at(rows[0], 0) {
            Some(t) => Ok(t),
            None => Err(StorageErrorView::MalformedRow { row: 0 }),
        }
    }
}

/// Reads [`looked_up_text`].
pub fn read_looked_up_text(rows: &Vec<Vec<Cell>>) -> (r: Result<Option<String>, StorageError>)
    ensures
        viewed(r) == looked_up_text(rows.deep_view()),
{
    if rows.len() == 0 {
        return Ok(None);
    }
    assert(rows.deep_view()[0] == rows[0].deep_view());
    match read_optional_text(&rows[0], 0) {
        Some(t) => Ok(t),
        None => Err(StorageError::MalformedRow { row: 0 }),
    }
}

/// The number that a counting statement returns: the first cell of the
/// first row.
pub open spec fn counted(rows: Seq<Seq<CellView>>) -> Result<i32, StorageErrorView> {
    if rows.len() == 0 {
        Err(StorageErrorView::MalformedRow { row: 0 })
    } else {
        match int_at(rows[0], 0) {
            Some(n) => Ok(n),
            None => Err(StorageErrorView::MalformedRow { row: 0 }),
        }
    }
}

/// Reads [`counted`].
pub fn read_count(rows: &Vec<Vec<Cell>>) -> (r: Result<i32, StorageError>)
    ensures
        viewed(r) == counted(rows.deep_view()),
{
    if rows.len() == 0 {
        return Err(StorageError::MalformedRow { row: 0 });
    }
    assert(rows.deep_view()[0] == rows[0].deep_view());
    match read_int(&rows[0], 0) {
        Some(n) => Ok(n),
        None => Err(StorageError::MalformedRow { row: 0 }),
    }
}

} // verus!
