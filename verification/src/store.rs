//! The values of a result row and how a column of a declared type is read
//! from one.

use vstd::prelude::*;
use vstd::string::*;

verus! {

/// One value of a result row, as the relational store hands it out.
#[derive(Debug)]
pub enum Cell {
    /// The SQL `NULL`.
    Null,
    /// A signed 64-bit integer.
    Integer(i64),
    /// A floating-point number. No column read here has that type, so the
    /// number itself is not kept.
    Real,
    /// Text that is valid UTF-8.
    Text(String),
    /// Text that is not valid UTF-8.
    InvalidText,
    /// A blob. No column read here has that type, so its bytes are not kept.
    Blob,
}

/// A `Cell` with its text as a sequence of characters.
pub enum CellView {
    Null,
    Integer(i64),
    Real,
    Text(Seq<char>),
    InvalidText,
    Blob,
}

impl View for Cell {
    type V = CellView;

    open spec fn view(&self) -> CellView {
        match *self {
            Cell::Null => CellView::Null,
            Cell::Integer(i) => CellView::Integer(i),
            Cell::Real => CellView::Real,
            Cell::Text(s) => CellView::Text(s@),
            Cell::InvalidText => CellView::InvalidText,
            Cell::Blob => CellView::Blob,
        }
    }
}

/// The cells of a row, each by its view.
pub open spec fn row_view(row: Seq<Cell>) -> Seq<CellView> {
    row.map_values(|c: Cell| c@)
}

/// Why a column could not be read as its declared type.
#[derive(Debug, Clone, Copy, PartialEq, Eq, Structural)]
pub enum ViolationKind {
    /// The row has no column at that index.
    MissingColumn,
    /// The value has another type than the column's.
    InvalidType,
    /// The value is text, but not valid UTF-8.
    InvalidText,
    /// The value is an integer that the column's type cannot hold, or a
    /// time that the calendar cannot hold.
    OutOfRange,
}

/// A row that does not match the declared schema: the first column of the
/// first row that could not be read.
#[derive(Debug, Clone, Copy, PartialEq, Eq, Structural)]
pub struct SchemaViolation {
    pub row: usize,
    pub column: usize,
    pub kind: ViolationKind,
}

/// Why a store gave no history.
#[derive(Debug, Clone, Copy, PartialEq, Eq, Structural)]
pub enum ReadError {
    /// The store has no snapshot, and the live file is never queried.
    NotSnapshotted,
    /// A row does not match the declared schema.
    Schema(SchemaViolation),
}

/// The cell at `column`, or what stands for a missing one.
pub open spec fn cell_in(row: Seq<CellView>, column: int) -> Result<CellView, ViolationKind> {
    if 0 <= column < row.len() {
        Ok(row[column])
    } else {
        Err(ViolationKind::MissingColumn)
    }
}

/// A cell read as an integer column: only an integer is one.
pub open spec fn integer_in(cell: CellView) -> Result<i64, ViolationKind> {
    match cell {
        CellView::Integer(i) => Ok(i),
        _ => Err(ViolationKind::InvalidType),
    }
}

/// A cell read as a text column: only text is text, and it must be valid
/// UTF-8.
pub open spec fn text_in(cell: CellView) -> Result<Seq<char>, ViolationKind> {
    match cell {
        CellView::Text(s) => Ok(s),
        CellView::InvalidText => Err(ViolationKind::InvalidText),
        _ => Err(ViolationKind::InvalidType),
    }
}

/// A cell read as a boolean column: an integer, true unless it is zero.
pub open spec fn flag_in(cell: CellView) -> Result<bool, ViolationKind> {
    match integer_in(cell) {
        Ok(i) => Ok(i != 0),
        Err(kind) => Err(kind),
    }
}

/// A cell read as an unsigned 32-bit column: an integer within that range.
pub open spec fn unsigned_in(cell: CellView) -> Result<u32, ViolationKind> {
    match integer_in(cell) {
        Ok(i) => if 0 <= i <= u32::MAX {
            Ok(i as u32)
        } else {
            Err(ViolationKind::OutOfRange)
        },
        Err(kind) => Err(kind),
    }
}

/// A cell read as an optional integer column: `NULL` is the absent value.
pub open spec fn optional_integer_in(cell: CellView) -> Result<Option<i64>, ViolationKind> {
    match cell {
        CellView::Null => Ok(None),
        _ => match integer_in(cell) {
            Ok(i) => Ok(Some(i)),
            Err(kind) => Err(kind),
        },
    }
}

/// A cell read as an optional text column: `NULL` is the absent value.
pub open spec fn optional_text_in(cell: CellView) -> Result<Option<Seq<char>>, ViolationKind> {
    match cell {
        CellView::Null => Ok(None),
        _ => match text_in(cell) {
            Ok(s) => Ok(Some(s)),
            Err(kind) => Err(kind),
        },
    }
}

/// The cell of `row` at `column`.
pub fn cell_at(row: &Vec<Cell>, column: usize) -> (r: Result<&Cell, ViolationKind>)
    ensures
        match r {
            Ok(cell) => cell_in(row_view(row@), column as int) == Ok::<CellView, ViolationKind>(
                cell@,
            ),
            Err(kind) => cell_in(row_view(row@), column as int) == Err::<CellView, ViolationKind>(
                kind,
            ),
        },
{
    if column < row.len() {
        Ok(&row[column])
    } else {
        Err(ViolationKind::MissingColumn)
    }
}

/// Reads a cell as an integer column.
pub fn integer(cell: &Cell) -> (r: Result<i64, ViolationKind>)
    ensures
        r == integer_in(cell@),
{
    match cell {
        Cell::Integer(i) => Ok(*i),
        _ => Err(ViolationKind::InvalidType),
    }
}

/// Reads a cell as a text column.
pub fn text(cell: &Cell) -> (r: Result<String, ViolationKind>)
    ensures
        match r {
            Ok(s) => text_in(cell@) == Ok::<Seq<char>, ViolationKind>(s@),
            Err(kind) => text_in(cell@) == Err::<Seq<char>, ViolationKind>(kind),
        },
{
    match cell {
        Cell::Text(s) => Ok(String::from_str(s.as_str())),
        Cell::InvalidText => Err(ViolationKind::InvalidText),
        _ => Err(ViolationKind::InvalidType),
    }
}

/// Reads a cell as a boolean column.
pub fn flag(cell: &Cell) -> (r: Result<bool, ViolationKind>)
    ensures
        r == flag_in(cell@),
{
    match integer(cell) {
        Ok(i) => Ok(i != 0),
        Err(kind) => Err(kind),
    }
}

/// Reads a cell as an unsigned 32-bit column.
pub fn unsigned(cell: &Cell) -> (r: Result<u32, ViolationKind>)
    ensures
        r == unsigned_in(cell@),
{
    match integer(cell) {
        Ok(i) => if 0 <= i && i <= 0xffff_ffff {
            Ok(i as u32)
        } else {
            Err(ViolationKind::OutOfRange)
        },
        Err(kind) => Err(kind),
    }
}

/// Reads a cell as an optional integer column.
pub fn optional_integer(cell: &Cell) -> (r: Result<Option<i64>, ViolationKind>)
    ensures
        r == optional_integer_in(cell@),
{
    match cell {
        Cell::Null => Ok(None),
        _ => match integer(cell) {
            Ok(i) => Ok(Some(i)),
            Err(kind) => Err(kind),
        },
    }
}

/// Reads a cell as an optional text column.
pub fn optional_text(cell: &Cell) -> (r: Result<Option<String>, ViolationKind>)
    ensures
        match r {
            Ok(s) => optional_text_in(cell@) == Ok::<Option<Seq<char>>, ViolationKind>(
                crate::text::text_of(s),
            ),
            Err(kind) => optional_text_in(cell@) == Err::<Option<Seq<char>>, ViolationKind>(kind),
        },
{
    match cell {
        Cell::Null => Ok(None),
        _ => match text(cell) {
            Ok(s) => Ok(Some(s)),
            Err(kind) => Err(kind),
        },
    }
}

/// The column of a row read as text.
pub open spec fn text_at(row: Seq<CellView>, column: int) -> Result<Seq<char>, ViolationKind> {
    match cell_in(row, column) {
        Ok(cell) => text_in(cell),
        Err(kind) => Err(kind),
    }
}

/// The column of a row read as optional text.
pub open spec fn optional_text_at(row: Seq<CellView>, column: int) -> Result<
    Option<Seq<char>>,
    ViolationKind,
> {
    match cell_in(row, column) {
        Ok(cell) => optional_text_in(cell),
        Err(kind) => Err(kind),
    }
}

/// The column of a row read as an optional integer.
pub open spec fn optional_integer_at(row: Seq<CellView>, column: int) -> Result<
    Option<i64>,
    ViolationKind,
> {
    match cell_in(row, column) {
        Ok(cell) => optional_integer_in(cell),
        Err(kind) => Err(kind),
    }
}

/// The column of a row read as a boolean.
pub open spec fn flag_at(row: Seq<CellView>, column: int) -> Result<bool, ViolationKind> {
    match cell_in(row, column) {
        Ok(cell) => flag_in(cell),
        Err(kind) => Err(kind),
    }
}

/// The column of a row read as an unsigned 32-bit integer.
pub open spec fn unsigned_at(row: Seq<CellView>, column: int) -> Result<u32, ViolationKind> {
    match cell_in(row, column) {
        Ok(cell) => unsigned_in(cell),
        Err(kind) => Err(kind),
    }
}

/// Reads the column of a row as text.
pub fn read_text(row: &Vec<Cell>, column: usize) -> (r: Result<String, ViolationKind>)
    ensures
        match r {
            Ok(s) => text_at(row_view(row@), column as int) == Ok::<Seq<char>, ViolationKind>(s@),
            Err(kind) => text_at(row_view(row@), column as int) == Err::<Seq<char>, ViolationKind>(
                kind,
            ),
        },
{
    match cell_at(row, column) {
        Ok(cell) => text(cell),
        Err(kind) => Err(kind),
    }
}

/// Reads the column of a row as optional text.
pub fn read_optional_text(row: &Vec<Cell>, column: usize) -> (r: Result<
    Option<String>,
    ViolationKind,
>)
    ensures
        match r {
            Ok(s) => optional_text_at(row_view(row@), column as int) == Ok::<
                Option<Seq<char>>,
                ViolationKind,
            >(crate::text::text_of(s)),
            Err(kind) => optional_text_at(row_view(row@), column as int) == Err::<
                Option<Seq<char>>,
                ViolationKind,
            >(kind),
        },
{
    match cell_at(row, column) {
        Ok(cell) => optional_text(cell),
        Err(kind) => Err(kind),
    }
}

/// Reads the column of a row as an optional integer.
pub fn read_optional_integer(row: &Vec<Cell>, column: usize) -> (r: Result<
    Option<i64>,
    ViolationKind,
>)
    ensures
        r == optional_integer_at(row_view(row@), column as int),
{
    match cell_at(row, column) {
        Ok(cell) => optional_integer(cell),
        Err(kind) => Err(kind),
    }
}

/// Reads the column of a row as a boolean.
pub fn read_flag(row: &Vec<Cell>, column: usize) -> (r: Result<bool, ViolationKind>)
    ensures
        r == flag_at(row_view(row@), column as int),
{
    match cell_at(row, column) {
        Ok(cell) => flag(cell),
        Err(kind) => Err(kind),
    }
}

/// Reads the column of a row as an unsigned 32-bit integer.
pub fn read_unsigned(row: &Vec<Cell>, column: usize) -> (r: Result<u32, ViolationKind>)
    ensures
        r == unsigned_at(row_view(row@), column as int),
{
    match cell_at(row, column) {
        Ok(cell) => unsigned(cell),
        Err(kind) => Err(kind),
    }
}

/// The rows of a result, each by the views of its cells.
pub open spec fn rows_view(rows: Seq<Vec<Cell>>) -> Seq<Seq<CellView>> {
    rows.map_values(|row: Vec<Cell>| row_view(row@))
}

} // verus!
