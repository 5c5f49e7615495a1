//! Spreadsheet cells and their normalisation to strings.
use vstd::prelude::*;
use vstd::string::*;
use crate::text::{decimal_text, int_text};
use crate::timestamp::{timestamp_in_range, utc_text, utc_timestamp_text};

verus! {

/// The error values a spreadsheet cell can hold.
#[derive(Debug, Clone, Copy, PartialEq, Eq, Structural)]
pub enum CellErrorKind {
    Div0,
    NA,
    Name,
    Null,
    Num,
    Ref,
    Value,
    GettingData,
}

/// The variant name of an error value.
pub open spec fn error_name(k: CellErrorKind) -> Seq<char> {
    match k {
        CellErrorKind::Div0 => "Div0"@,
        CellErrorKind::NA => "NA"@,
        CellErrorKind::Name => "Name"@,
        CellErrorKind::Null => "Null"@,
        CellErrorKind::Num => "Num"@,
        CellErrorKind::Ref => "Ref"@,
        CellErrorKind::Value => "Value"@,
        CellErrorKind::GettingData => "GettingData"@,
    }
}

/// The spreadsheet notation of an error value.
pub open spec fn error_notation(k: CellErrorKind) -> Seq<char> {
    match k {
        CellErrorKind::Div0 => "#DIV/0!"@,
        CellErrorKind::NA => "#N/A"@,
        CellErrorKind::Name => "#NAME?"@,
        CellErrorKind::Null => "#NULL!"@,
        CellErrorKind::Num => "#NUM!"@,
        CellErrorKind::Ref => "#REF!"@,
        CellErrorKind::Value => "#VALUE!"@,
        CellErrorKind::GettingData => "#DATA!"@,
    }
}

impl CellErrorKind {
    /// The variant name, as `Debug` writes it.
    pub fn name(&self) -> (r: &'static str)
        ensures
            r@ == error_name(*self),
    {
        match self {
            CellErrorKind::Div0 => "Div0",
            CellErrorKind::NA => "NA",
            CellErrorKind::Name => "Name",
            CellErrorKind::Null => "Null",
            CellErrorKind::Num => "Num",
            CellErrorKind::Ref => "Ref",
            CellErrorKind::Value => "Value",
            CellErrorKind::GettingData => "GettingData",
        }
    }

    /// The spreadsheet notation (`#DIV/0!`).
    pub fn notation(&self) -> (r: &'static str)
        ensures
            r@ == error_notation(*self),
    {
        match self {
            CellErrorKind::Div0 => "#DIV/0!",
            CellErrorKind::NA => "#N/A",
            CellErrorKind::Name => "#NAME?",
            CellErrorKind::Null => "#NULL!",
            CellErrorKind::Num => "#NUM!",
            CellErrorKind::Ref => "#REF!",
            CellErrorKind::Value => "#VALUE!",
            CellErrorKind::GettingData => "#DATA!",
        }
    }
}

/// One cell of a sheet.
///
/// A floating-point value is carried as its shortest decimal text, the form
/// in which the library uses it. A date-time carries both the text of its
/// serial number and the whole seconds since the Unix epoch that it stands
/// for.
#[derive(Debug, Clone, PartialEq)]
pub enum Cell {
    Empty,
    Text(String),
    Float(String),
    Int(i64),
    Bool(bool),
    Error(CellErrorKind),
    DateTime { serial: String, seconds: i64 },
}

/// Why a sheet could not be converted.
#[derive(Debug, Clone, Copy, PartialEq, Eq, Structural)]
pub enum ConvertError {
    /// A date-time cell whose seconds lie outside the calendar.
    TimestampOutOfRange(i64),
}

/// The plain text of a cell, used for the header rows: the value as the
/// spreadsheet shows it, with errors in spreadsheet notation and date-times
/// as their serial number.
pub open spec fn plain_text(c: Cell) -> Seq<char> {
    match c {
        Cell::Empty => Seq::empty(),
        Cell::Text(s) => s@,
        Cell::Float(t) => t@,
        Cell::Int(i) => decimal_text(i as int),
        Cell::Bool(b) => if b { "true"@ } else { "false"@ },
        Cell::Error(k) => error_notation(k),
        Cell::DateTime { serial, seconds } => serial@,
    }
}

/// The normalised string of a data cell, or the error that stops the
/// conversion.
pub open spec fn normalized(c: Cell) -> Result<Seq<char>, ConvertError> {
    match c {
        Cell::Empty => Ok(Seq::empty()),
        Cell::Text(s) => Ok(s@),
        Cell::Float(t) => Ok(t@),
        Cell::Int(i) => Ok(decimal_text(i as int)),
        Cell::Bool(b) => Ok(if b { "true"@ } else { "false"@ }),
        Cell::Error(k) => Ok("Error: "@ + error_name(k)),
        Cell::DateTime { serial, seconds } => if timestamp_in_range(seconds as int) {
            Ok(utc_text(seconds as int))
        } else {
            Err(ConvertError::TimestampOutOfRange(seconds))
        },
    }
}

fn bool_text(b: bool) -> (r: String)
    ensures
        r@ == (if b { "true"@ } else { "false"@ }),
{
    if b {
        String::from_str("true")
    } else {
        String::from_str("false")
    }
}

impl Cell {
    /// The plain text of the cell, as used for the header rows.
    pub fn plain_text(&self) -> (r: String)
        ensures
            r@ == plain_text(*self),
    {
        match self {
            Cell::Empty => String::new(),
            Cell::Text(s) => s.clone(),
            Cell::Float(t) => t.clone(),
            Cell::Int(i) => int_text(*i),
            Cell::Bool(b) => bool_text(*b),
            Cell::Error(k) => String::from_str(k.notation()),
            Cell::DateTime { serial, seconds: _ } => serial.clone(),
        }
    }
}

/// Normalises a data cell to its string: empty to `""`, text verbatim,
/// numbers in decimal, booleans as `true`/`false`, errors as `Error: <name>`
/// and date-times as UTC calendar text. A date-time outside the calendar is
/// an error.
pub fn cell_to_string(cell: &Cell) -> (r: Result<String, ConvertError>)
    ensures
        r is Ok <==> normalized(*cell) is Ok,
        r matches Ok(s) ==> normalized(*cell) == Ok::<Seq<char>, ConvertError>(s@),
        r matches Err(e) ==> normalized(*cell) == Err::<Seq<char>, ConvertError>(e),
{
    match cell {
        Cell::Empty => Ok(String::new()),
        Cell::Text(s) => Ok(s.clone()),
        Cell::Float(t) => Ok(t.clone()),
        Cell::Int(i) => Ok(int_text(*i)),
        Cell::Bool(b) => Ok(bool_text(*b)),
        Cell::Error(k) => {
            let mut out = String::from_str("Error: ");
            out.append(k.name());
            Ok(out)
        },
        Cell::DateTime { serial: _, seconds } => match utc_timestamp_text(*seconds) {
            Some(s) => Ok(s),
            None => Err(ConvertError::TimestampOutOfRange(*seconds)),
        },
    }
}

/// A text cell normalises to its text, unchanged.
pub proof fn lemma_text_cell_round_trip(s: String)
    ensures
        normalized(Cell::Text(s)) == Ok::<Seq<char>, ConvertError>(s@),
{
}

} // verus!
