//! Rows and the columns they must have.
//!
//! A row is a sequence of text cells. A schema gives each column a kind, and a
//! row is read column by column: the first cell that its kind refuses is the
//! row's fault. Cells beyond the schema are not looked at.

use crate::coordinate::Coordinate;
use crate::date::Date;
use crate::text::{is_float, parse_i64, parsed_i64};
use vstd::prelude::*;
use vstd::string::*;

verus! {

/// What a column holds.
#[derive(Clone, Copy, Debug, PartialEq, Eq, Structural)]
pub enum ColumnKind {
    /// Any text, the empty one too.
    Text,
    /// A 64-bit integer.
    Integer,
    /// A floating-point number, kept as text.
    Float,
    /// A text; an empty or absent cell stands for none.
    OptionalText,
    /// One character; an empty or absent cell stands for none.
    OptionalCharacter,
    /// A 64-bit integer; an empty or absent cell stands for none.
    OptionalInteger,
    /// A calendar date.
    Date,
}

/// Why a cell was refused.
#[derive(Clone, Copy, Debug, PartialEq, Eq, Structural)]
pub enum Fault {
    /// The row ends before the column.
    Missing,
    /// The cell is no integer, or one that does not fit in 64 bits.
    Integer,
    /// The cell is no floating-point number.
    Float,
    /// The cell holds more than one character.
    Character,
    /// The cell is no date.
    Date,
}

/// A row that does not follow its schema: the first column at fault, counted
/// from 0, and why.
#[derive(Clone, Copy, Debug, PartialEq, Eq, Structural)]
pub struct SchemaError {
    pub column: usize,
    pub fault: Fault,
}

/// A row as a sequence of cells.
pub type Row = Seq<Seq<char>>;

/// The cell of `row` in `column`, if the row is that long.
pub open spec fn cell(row: Row, column: int) -> Option<Seq<char>> {
    if 0 <= column < row.len() {
        Some(row[column])
    } else {
        None
    }
}

/// What a column of `kind` has against `cell`, if anything. `date` is what
/// reading the row's date cell gave; only the kind `Date` looks at it.
pub open spec fn fault_of(
    kind: ColumnKind,
    cell: Option<Seq<char>>,
    date: Option<Date>,
) -> Option<Fault> {
    match kind {
        ColumnKind::Text => if cell is None {
            Some(Fault::Missing)
        } else {
            None
        },
        ColumnKind::Integer => if cell is None {
            Some(Fault::Missing)
        } else if parsed_i64(cell.unwrap()) is None {
            Some(Fault::Integer)
        } else {
            None
        },
        ColumnKind::Float => if cell is None {
            Some(Fault::Missing)
        } else if !is_float(cell.unwrap()) {
            Some(Fault::Float)
        } else {
            None
        },
        ColumnKind::OptionalText => None,
        ColumnKind::OptionalCharacter => if cell is Some && cell.unwrap().len() > 1 {
            Some(Fault::Character)
        } else {
            None
        },
        ColumnKind::OptionalInteger => if cell is Some && cell.unwrap().len() > 0 && parsed_i64(
            cell.unwrap(),
        ) is None {
            Some(Fault::Integer)
        } else {
            None
        },
        ColumnKind::Date => if cell is None {
            Some(Fault::Missing)
        } else if date is None {
            Some(Fault::Date)
        } else {
            None
        },
    }
}

/// The fault of `row` in `column` under `schema`.
pub open spec fn fault_at(
    schema: Seq<ColumnKind>,
    row: Row,
    date: Option<Date>,
    column: int,
) -> Option<Fault> {
    fault_of(schema[column], cell(row, column), date)
}

/// The first fault of `row` in the columns from `from` on.
pub open spec fn first_fault_from(
    schema: Seq<ColumnKind>,
    row: Row,
    date: Option<Date>,
    from: int,
) -> Option<SchemaError>
    decreases schema.len() - from,
{
    if from < 0 || from >= schema.len() {
        None
    } else if fault_at(schema, row, date, from) is Some {
        let fault = fault_at(schema, row, date, from).unwrap();
        Some(SchemaError { column: from as usize, fault })
    } else {
        first_fault_from(schema, row, date, from + 1)
    }
}

/// The first fault of `row` under `schema`; `None` where the row follows it.
pub open spec fn first_fault(schema: Seq<ColumnKind>, row: Row, date: Option<Date>) -> Option<
    SchemaError,
> {
    first_fault_from(schema, row, date, 0)
}

/// The integer in an optional column.
pub open spec fn optional_integer(cell: Option<Seq<char>>) -> Option<i64> {
    if cell is Some && cell.unwrap().len() > 0 {
        parsed_i64(cell.unwrap())
    } else {
        None
    }
}

/// The character in an optional column.
pub open spec fn optional_character(cell: Option<Seq<char>>) -> Option<char> {
    if cell is Some && cell.unwrap().len() == 1 {
        Some(cell.unwrap()[0])
    } else {
        None
    }
}

/// The text in an optional column.
pub open spec fn optional_text(cell: Option<Seq<char>>) -> Option<Seq<char>> {
    if cell is Some && cell.unwrap().len() > 0 {
        cell
    } else {
        None
    }
}

/// A column without fault passes the search for the first fault on to the
/// next column.
pub proof fn lemma_column_sound(schema: Seq<ColumnKind>, row: Row, date: Option<Date>, column: int)
    requires
        0 <= column < schema.len(),
        fault_at(schema, row, date, column) is None,
    ensures
        first_fault_from(schema, row, date, column) == first_fault_from(
            schema,
            row,
            date,
            column + 1,
        ),
{
}

/// A column at fault ends the search for the first fault.
pub proof fn lemma_column_at_fault(
    schema: Seq<ColumnKind>,
    row: Row,
    date: Option<Date>,
    column: int,
    fault: Fault,
)
    requires
        0 <= column < schema.len(),
        fault_at(schema, row, date, column) == Some(fault),
    ensures
        first_fault_from(schema, row, date, column) == Some(
            SchemaError { column: column as usize, fault },
        ),
{
}

/// Behind the last column there is no fault.
pub proof fn lemma_columns_done(schema: Seq<ColumnKind>, row: Row, date: Option<Date>)
    ensures
        first_fault_from(schema, row, date, schema.len() as int) is None,
{
}

/// The cell of `row` in `column`.
pub fn cell_at(row: &Vec<String>, column: usize) -> (c: Option<&str>)
    ensures
        c.deep_view() == cell(row.deep_view(), column as int),
{
    if column < row.len() {
        Some(row[column].as_str())
    } else {
        None
    }
}

/// The one character of `text`, where it has exactly one.
pub fn single_character(text: &str) -> (c: Option<char>)
    ensures
        c == if text@.len() == 1 {
            Some(text@[0])
        } else {
            None
        },
{
    broadcast use vstd::string::group_string_axioms;

    let mut it = text.chars();
    match it.next() {
        None => None,
        Some(first) => match it.next() {
            None => Some(first),
            Some(_) => None,
        },
    }
}

/// Reads a column of kind `Text`.
pub fn read_text(row: &Vec<String>, column: usize) -> (r: Result<String, SchemaError>)
    ensures
        match r {
            Ok(t) => cell(row.deep_view(), column as int) == Some(t@),
            Err(e) => e == (SchemaError { column, fault: Fault::Missing }) && cell(
                row.deep_view(),
                column as int,
            ) is None,
        },
{
    match cell_at(row, column) {
        Some(t) => Ok(t.to_owned()),
        None => Err(SchemaError { column, fault: Fault::Missing }),
    }
}

/// Reads a column of kind `Integer`.
pub fn read_integer(row: &Vec<String>, column: usize) -> (r: Result<i64, SchemaError>)
    ensures
        match r {
            Ok(v) => cell(row.deep_view(), column as int) is Some && parsed_i64(
                row.deep_view()[column as int],
            ) == Some(v),
            Err(e) => e.column == column && fault_of(
                ColumnKind::Integer,
                cell(row.deep_view(), column as int),
                None,
            ) == Some(e.fault),
        },
{
    match cell_at(row, column) {
        None => Err(SchemaError { column, fault: Fault::Missing }),
        Some(t) => match parse_i64(t) {
            Some(v) => Ok(v),
            None => Err(SchemaError { column, fault: Fault::Integer }),
        },
    }
}

/// Reads a column of kind `Float`.
pub fn read_float(row: &Vec<String>, column: usize) -> (r: Result<Coordinate, SchemaError>)
    ensures
        match r {
            Ok(c) => cell(row.deep_view(), column as int) == Some(c@) && is_float(c@),
            Err(e) => e.column == column && fault_of(
                ColumnKind::Float,
                cell(row.deep_view(), column as int),
                None,
            ) == Some(e.fault),
        },
{
    match cell_at(row, column) {
        None => Err(SchemaError { column, fault: Fault::Missing }),
        Some(text) => match Coordinate::parse(text) {
            Some(c) => Ok(c),
            None => Err(SchemaError { column, fault: Fault::Float }),
        },
    }
}

/// Reads a column of kind `OptionalInteger`.
pub fn read_optional_integer(row: &Vec<String>, column: usize) -> (r: Result<
    Option<i64>,
    SchemaError,
>)
    ensures
        match r {
            Ok(v) => v == optional_integer(cell(row.deep_view(), column as int)) && fault_of(
                ColumnKind::OptionalInteger,
                cell(row.deep_view(), column as int),
                None,
            ) is None,
            Err(e) => e.column == column && fault_of(
                ColumnKind::OptionalInteger,
                cell(row.deep_view(), column as int),
                None,
            ) == Some(e.fault),
        },
{
    match cell_at(row, column) {
        None => Ok(None),
        Some(t) => if t.is_empty() {
            Ok(None)
        } else {
            match parse_i64(t) {
                Some(v) => Ok(Some(v)),
                None => Err(SchemaError { column, fault: Fault::Integer }),
            }
        },
    }
}

/// Reads a column of kind `OptionalCharacter`.
pub fn read_optional_character(row: &Vec<String>, column: usize) -> (r: Result<
    Option<char>,
    SchemaError,
>)
    ensures
        match r {
            Ok(v) => v == optional_character(cell(row.deep_view(), column as int)) && fault_of(
                ColumnKind::OptionalCharacter,
                cell(row.deep_view(), column as int),
                None,
            ) is None,
            Err(e) => e.column == column && fault_of(
                ColumnKind::OptionalCharacter,
                cell(row.deep_view(), column as int),
                None,
            ) == Some(e.fault),
        },
{
    match cell_at(row, column) {
        None => Ok(None),
        Some(t) => if t.is_empty() {
            Ok(None)
        } else {
            match single_character(t) {
                Some(c) => Ok(Some(c)),
                None => Err(SchemaError { column, fault: Fault::Character }),
            }
        },
    }
}

/// Reads a column of kind `OptionalText`.
pub fn read_optional_text(row: &Vec<String>, column: usize) -> (t: Option<String>)
    ensures
        t.deep_view() == optional_text(cell(row.deep_view(), column as int)),
{
    match cell_at(row, column) {
        None => None,
        Some(t) => if t.is_empty() {
            None
        } else {
            Some(t.to_owned())
        },
    }
}

} // verus!
