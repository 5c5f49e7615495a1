//! Conversion of one sheet into its class stub and its JSON text.
use vstd::prelude::*;
use crate::cell::{Cell, ConvertError, normalized};
use crate::json::{pretty_json, objects_entries, to_pretty_text};
use crate::layout::{
    CATEGORIES_ROW, COLUMN_NAMES_ROW, DATA_TYPES_ROW, FIRST_DATA_ROW, classify_rows, data_rows,
    header_row, rows_view, sheet_ok,
};
use crate::records::{json_records, lemma_one_record_per_row, min2, records_of};
use crate::stub::{class_stub, stub_text};

verus! {

/// The two texts generated for a sheet.
pub struct SheetOutput {
    /// The class stub.
    pub class_code: String,
    /// The pretty-printed JSON array of row records.
    pub json_text: String,
}

/// The class stub of a sheet with the given rows.
pub open spec fn sheet_stub(sheet_name: Seq<char>, rows: Seq<Seq<Cell>>) -> Seq<char> {
    stub_text(
        sheet_name,
        header_row(rows, COLUMN_NAMES_ROW as int),
        header_row(rows, DATA_TYPES_ROW as int),
        header_row(rows, CATEGORIES_ROW as int),
    )
}

/// The records of a sheet's data rows, keyed by its column names.
pub open spec fn sheet_records(rows: Seq<Seq<Cell>>) -> Seq<Map<Seq<char>, Seq<char>>> {
    records_of(header_row(rows, COLUMN_NAMES_ROW as int), data_rows(rows))
}

impl SheetOutput {
    /// Whether these are the texts of the sheet `sheet_name` with `rows`.
    pub open spec fn renders(&self, sheet_name: Seq<char>, rows: Seq<Seq<Cell>>) -> bool {
        &&& self.class_code@ == sheet_stub(sheet_name, rows)
        &&& self.json_text@ == pretty_json(sheet_records(rows))
    }
}

/// Converts one sheet: classifies its rows, renders the class stub, and
/// renders the JSON array of its data rows. Fails exactly when a data cell
/// does not normalise.
pub fn convert_sheet(sheet_name: &str, rows: &Vec<Vec<Cell>>) -> (r: Result<SheetOutput, ConvertError>)
    ensures
        sheet_ok(rows_view(rows@)) <==> r is Ok,
        r matches Err(ConvertError::TimestampOutOfRange(s)) ==> exists|i: int, j: int|
            FIRST_DATA_ROW <= i < rows.len() && 0 <= j < rows[i].len()
                && #[trigger] normalized(rows[i]@[j]) == Err::<Seq<char>, ConvertError>(
                ConvertError::TimestampOutOfRange(s),
            ),
        r matches Ok(out) ==> out.renders(sheet_name@, rows_view(rows@)),
{
    let layout = match classify_rows(rows) {
        Ok(layout) => layout,
        Err(e) => {
            return Err(e);
        },
    };
    let class_code = class_stub(
        sheet_name,
        &layout.column_names,
        &layout.data_types,
        &layout.categories,
    );
    let objects = json_records(&layout.column_names, &layout.data);
    proof {
        assert(objects_entries(objects@) =~= sheet_records(rows_view(rows@)));
    }
    let json_text = to_pretty_text(&objects).unwrap();
    Ok(SheetOutput { class_code, json_text })
}

/// A sheet with at least the three header rows gives one record per data
/// row, and where its column names are pairwise distinct, each record has as
/// many keys as the shorter of the column names and that row's cells.
pub proof fn lemma_sheet_record_count(rows: Seq<Seq<Cell>>)
    requires
        rows.len() >= FIRST_DATA_ROW,
        forall|i: int, j: int|
            0 <= i < j < header_row(rows, COLUMN_NAMES_ROW as int).len() ==> header_row(
                rows,
                COLUMN_NAMES_ROW as int,
            )[i] != header_row(rows, COLUMN_NAMES_ROW as int)[j],
    ensures
        sheet_records(rows).len() == rows.len() - FIRST_DATA_ROW,
        forall|r: int| 0 <= r < rows.len() - FIRST_DATA_ROW ==> {
            &&& (#[trigger] sheet_records(rows)[r]).dom().finite()
            &&& sheet_records(rows)[r].dom().len() == min2(
                rows[COLUMN_NAMES_ROW as int].len() as int,
                rows[r + FIRST_DATA_ROW].len() as int,
            )
        },
{
    let names = header_row(rows, COLUMN_NAMES_ROW as int);
    let data = data_rows(rows);
    lemma_one_record_per_row(names, data);
    assert forall|r: int| 0 <= r < rows.len() - FIRST_DATA_ROW implies {
        &&& (#[trigger] sheet_records(rows)[r]).dom().finite()
        &&& sheet_records(rows)[r].dom().len() == min2(
            rows[COLUMN_NAMES_ROW as int].len() as int,
            rows[r + FIRST_DATA_ROW].len() as int,
        )
    } by {
        assert(data[r].len() == rows[r + FIRST_DATA_ROW].len());
    }
}

/// Converting the same sheet twice gives the same texts.
pub proof fn lemma_conversion_repeatable(
    sheet_name: Seq<char>,
    rows: Seq<Seq<Cell>>,
    first: SheetOutput,
    second: SheetOutput,
)
    requires
        first.renders(sheet_name, rows),
        second.renders(sheet_name, rows),
    ensures
        first.class_code@ == second.class_code@,
        first.json_text@ == second.json_text@,
{
}

/// A sheet with fewer than three rows converts without error: it has no
/// categories and no data rows, so its class stub has no property and its
/// JSON array no record.
pub proof fn lemma_short_sheet(sheet_name: Seq<char>, rows: Seq<Seq<Cell>>)
    requires
        rows.len() < FIRST_DATA_ROW,
    ensures
        sheet_ok(rows),
        header_row(rows, CATEGORIES_ROW as int).len() == 0,
        data_rows(rows).len() == 0,
        sheet_stub(sheet_name, rows) == "public class "@ + sheet_name + "\n{\n}\n"@,
        sheet_records(rows).len() == 0,
{
    let names = header_row(rows, COLUMN_NAMES_ROW as int);
    let types = header_row(rows, DATA_TYPES_ROW as int);
    let cats = header_row(rows, CATEGORIES_ROW as int);
    assert(crate::stub::min3(names.len() as int, types.len() as int, cats.len() as int) == 0);
    assert(sheet_stub(sheet_name, rows) =~= "public class "@ + sheet_name + "\n{\n}\n"@) by {
        reveal_strlit("\n{\n");
        reveal_strlit("}\n");
        reveal_strlit("\n{\n}\n");
    }
}

} // verus!
