//! The roles of a sheet's rows and their classification.
use vstd::prelude::*;
use crate::cell::{Cell, ConvertError, cell_to_string, normalized, plain_text};

verus! {

/// Index of the row that names the columns.
pub const COLUMN_NAMES_ROW: usize = 0;

/// Index of the row that declares the column types.
pub const DATA_TYPES_ROW: usize = 1;

/// Index of the row that holds the column categories.
pub const CATEGORIES_ROW: usize = 2;

/// Index of the first data row.
pub const FIRST_DATA_ROW: usize = 3;

/// What a row of a sheet holds, by its position.
#[derive(Debug, Clone, Copy, PartialEq, Eq, Structural)]
pub enum RowRole {
    ColumnNames,
    DataTypes,
    Categories,
    Data,
}

pub open spec fn role_of(i: int) -> RowRole {
    if i == COLUMN_NAMES_ROW {
        RowRole::ColumnNames
    } else if i == DATA_TYPES_ROW {
        RowRole::DataTypes
    } else if i == CATEGORIES_ROW {
        RowRole::Categories
    } else {
        RowRole::Data
    }
}

/// The role of the row at index `i`.
pub fn row_role(i: usize) -> (r: RowRole)
    ensures
        r == role_of(i as int),
{
    if i == COLUMN_NAMES_ROW {
        RowRole::ColumnNames
    } else if i == DATA_TYPES_ROW {
        RowRole::DataTypes
    } else if i == CATEGORIES_ROW {
        RowRole::Categories
    } else {
        RowRole::Data
    }
}

/// The cells of each row of a sheet.
pub open spec fn rows_view(rows: Seq<Vec<Cell>>) -> Seq<Seq<Cell>> {
    rows.map_values(|r: Vec<Cell>| r@)
}

/// The plain texts of a row's cells.
pub open spec fn plain_row(row: Seq<Cell>) -> Seq<Seq<char>> {
    row.map_values(|c: Cell| plain_text(c))
}

/// The plain texts of the row at `k`, or nothing when the sheet is shorter.
pub open spec fn header_row(rows: Seq<Seq<Cell>>, k: int) -> Seq<Seq<char>> {
    if 0 <= k < rows.len() {
        plain_row(rows[k])
    } else {
        Seq::empty()
    }
}

/// Whether every cell of a data row normalises.
pub open spec fn row_ok(row: Seq<Cell>) -> bool {
    forall|j: int| 0 <= j < row.len() ==> (#[trigger] normalized(row[j])) is Ok
}

/// The normalised strings of a data row whose cells all normalise.
pub open spec fn normalized_row(row: Seq<Cell>) -> Seq<Seq<char>> {
    row.map_values(|c: Cell| normalized(c)->Ok_0)
}

/// Whether every data row of a sheet normalises.
pub open spec fn sheet_ok(rows: Seq<Seq<Cell>>) -> bool {
    forall|i: int| FIRST_DATA_ROW <= i < rows.len() ==> row_ok(#[trigger] rows[i])
}

/// The number of data rows of a sheet.
pub open spec fn data_count(rows: Seq<Seq<Cell>>) -> nat {
    if rows.len() > FIRST_DATA_ROW {
        (rows.len() - FIRST_DATA_ROW) as nat
    } else {
        0
    }
}

/// The normalised data rows of a sheet, in order.
pub open spec fn data_rows(rows: Seq<Seq<Cell>>) -> Seq<Seq<Seq<char>>> {
    Seq::new(data_count(rows), |i: int| normalized_row(rows[i + FIRST_DATA_ROW]))
}

/// A sheet split by row role.
pub struct SheetLayout {
    pub column_names: Vec<String>,
    pub data_types: Vec<String>,
    pub categories: Vec<String>,
    pub data: Vec<Vec<String>>,
}

impl SheetLayout {
    /// Whether this layout is the classification of `rows`.
    pub open spec fn classifies(&self, rows: Seq<Seq<Cell>>) -> bool {
        &&& self.column_names.deep_view() == header_row(rows, COLUMN_NAMES_ROW as int)
        &&& self.data_types.deep_view() == header_row(rows, DATA_TYPES_ROW as int)
        &&& self.categories.deep_view() == header_row(rows, CATEGORIES_ROW as int)
        &&& self.data.deep_view() == data_rows(rows)
    }
}

/// The plain texts of a row's cells.
pub fn plain_texts(row: &Vec<Cell>) -> (r: Vec<String>)
    ensures
        r.deep_view() == plain_row(row@),
{
    let mut out: Vec<String> = Vec::new();
    let mut j: usize = 0;
    while j < row.len()
        invariant
            j <= row.len(),
            out@.len() == j,
            forall|k: int| 0 <= k < j ==> #[trigger] out@[k]@ == plain_text(row@[k]),
        decreases row.len() - j,
    {
        let t = row[j].plain_text();
        out.push(t);
        j += 1;
    }
    assert(out.deep_view() =~= plain_row(row@));
    out
}

/// The normalised strings of a data row, or the error of its first cell
/// that does not normalise.
pub fn normalize_row(row: &Vec<Cell>) -> (r: Result<Vec<String>, ConvertError>)
    ensures
        r is Ok <==> row_ok(row@),
        r matches Ok(v) ==> v.deep_view() == normalized_row(row@),
        r matches Err(e) ==> exists|j: int|
            0 <= j < row.len() && #[trigger] normalized(row@[j]) == Err::<Seq<char>, ConvertError>(e),
{
    let mut out: Vec<String> = Vec::new();
    let mut j: usize = 0;
    while j < row.len()
        invariant
            j <= row.len(),
            forall|k: int| 0 <= k < j ==> (#[trigger] normalized(row@[k])) is Ok,
            out@.len() == j,
            forall|k: int| 0 <= k < j ==> #[trigger] out@[k]@ == normalized(row@[k])->Ok_0,
        decreases row.len() - j,
    {
        match cell_to_string(&row[j]) {
            Ok(s) => {
                out.push(s);
            },
            Err(e) => {
                return Err(e);
            },
        }
        j += 1;
    }
    assert(out.deep_view() =~= normalized_row(row@));
    Ok(out)
}

/// Splits the rows of a sheet by role: the plain texts of the column-name,
/// type and category rows, and the normalised strings of every data row. A
/// sheet shorter than three rows gets empty sequences for the rows it lacks.
/// Fails with the error of a data cell that does not normalise.
pub fn classify_rows(rows: &Vec<Vec<Cell>>) -> (r: Result<SheetLayout, ConvertError>)
    ensures
        r is Ok <==> sheet_ok(rows_view(rows@)),
        r matches Ok(layout) ==> layout.classifies(rows_view(rows@)),
        r matches Err(e) ==> exists|i: int, j: int|
            FIRST_DATA_ROW <= i < rows.len() && 0 <= j < rows[i].len()
                && #[trigger] normalized(rows[i]@[j]) == Err::<Seq<char>, ConvertError>(e),
{
    let ghost rs = rows_view(rows@);
    assert(forall|i: int| 0 <= i < rows.len() ==> #[trigger] rs[i] == rows[i]@);
    let mut column_names: Vec<String> = Vec::new();
    let mut data_types: Vec<String> = Vec::new();
    let mut categories: Vec<String> = Vec::new();
    let mut data: Vec<Vec<String>> = Vec::new();
    let mut i: usize = 0;
    while i < rows.len()
        invariant
            i <= rows.len(),
            rs == rows_view(rows@),
            forall|k: int| 0 <= k < rows.len() ==> #[trigger] rs[k] == rows[k]@,
            column_names.deep_view() == (if i > COLUMN_NAMES_ROW {
                header_row(rs, COLUMN_NAMES_ROW as int)
            } else {
                Seq::empty()
            }),
            data_types.deep_view() == (if i > DATA_TYPES_ROW {
                header_row(rs, DATA_TYPES_ROW as int)
            } else {
                Seq::empty()
            }),
            categories.deep_view() == (if i > CATEGORIES_ROW {
                header_row(rs, CATEGORIES_ROW as int)
            } else {
                Seq::empty()
            }),
            forall|k: int| FIRST_DATA_ROW <= k < i ==> row_ok(#[trigger] rs[k]),
            data@.len() == (if i > FIRST_DATA_ROW { i - FIRST_DATA_ROW } else { 0 }),
            forall|k: int| 0 <= k < data@.len() ==>
                #[trigger] data@[k].deep_view() == normalized_row(rs[k + FIRST_DATA_ROW]),
        decreases rows.len() - i,
    {
        match row_role(i) {
            RowRole::ColumnNames => {
                column_names = plain_texts(&rows[i]);
            },
            RowRole::DataTypes => {
                data_types = plain_texts(&rows[i]);
            },
            RowRole::Categories => {
                categories = plain_texts(&rows[i]);
            },
            RowRole::Data => {
                match normalize_row(&rows[i]) {
                    Ok(v) => {
                        data.push(v);
                    },
                    Err(e) => {
                        assert(!row_ok(rs[i as int]));
                        return Err(e);
                    },
                }
            },
        }
        i += 1;
    }
    assert(column_names.deep_view() =~= header_row(rs, COLUMN_NAMES_ROW as int));
    assert(data_types.deep_view() =~= header_row(rs, DATA_TYPES_ROW as int));
    assert(categories.deep_view() =~= header_row(rs, CATEGORIES_ROW as int));
    assert(data.deep_view() =~= data_rows(rs));
    Ok(SheetLayout { column_names, data_types, categories, data })
}

} // verus!
