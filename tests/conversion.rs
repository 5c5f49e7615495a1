use sheet_codegen::cell::{cell_to_string, Cell, CellErrorKind, ConvertError};
use sheet_codegen::convert::convert_sheet;
use sheet_codegen::layout::{classify_rows, row_role, RowRole};
use sheet_codegen::records::{json_record, json_records};
use sheet_codegen::stub::{class_stub, cs_type, zip3};
use sheet_codegen::text::int_text;
use sheet_codegen::timestamp::{MAX_TIMESTAMP, MIN_TIMESTAMP};

fn text(s: &str) -> Cell {
    Cell::Text(s.to_string())
}

fn strings(v: &[&str]) -> Vec<String> {
    v.iter().map(|s| s.to_string()).collect()
}

fn character_rows() -> Vec<Vec<Cell>> {
    vec![
        vec![text("Name"), text("HP")],
        vec![text("string"), text("int")],
        vec![text("Stats"), text("Stats")],
        vec![text("Hero"), Cell::Int(10)],
    ]
}

#[test]
fn character_sheet_scenario() {
    let out = convert_sheet("Character", &character_rows()).unwrap();
    assert!(out
        .class_code
        .contains("public string Name { get; set; } // Category: Stats"));
    assert!(out
        .class_code
        .contains("public int HP { get; set; } // Category: Stats"));
    assert_eq!(
        out.class_code,
        "public class Character\n{\n    public string Name { get; set; } // Category: Stats\n    public int HP { get; set; } // Category: Stats\n}\n"
    );
    let parsed: serde_json::Value = serde_json::from_str(&out.json_text).unwrap();
    let expected: serde_json::Value =
        serde_json::from_str(r#"[{"Name":"Hero","HP":"10"}]"#).unwrap();
    assert_eq!(parsed, expected);
    assert_eq!(
        out.json_text,
        "[\n  {\n    \"HP\": \"10\",\n    \"Name\": \"Hero\"\n  }\n]"
    );
}

#[test]
fn out_of_range_timestamp_fails() {
    let mut rows = character_rows();
    rows[3][1] = Cell::DateTime { serial: "1e300".to_string(), seconds: i64::MAX };
    assert_eq!(
        convert_sheet("Character", &rows).err(),
        Some(ConvertError::TimestampOutOfRange(i64::MAX))
    );
}

#[test]
fn timestamp_in_header_row_is_its_serial() {
    let rows = vec![vec![Cell::DateTime { serial: "45000.5".to_string(), seconds: i64::MIN }]];
    let layout = classify_rows(&rows).unwrap();
    assert_eq!(layout.column_names, strings(&["45000.5"]));
}

#[test]
fn timestamp_renders_as_utc_text() {
    let c = Cell::DateTime { serial: "42139".to_string(), seconds: 1431648000 };
    assert_eq!(cell_to_string(&c).unwrap(), "2015-05-15 00:00:00 UTC");
    let epoch = Cell::DateTime { serial: "25569".to_string(), seconds: 0 };
    assert_eq!(cell_to_string(&epoch).unwrap(), "1970-01-01 00:00:00 UTC");
}

#[test]
fn timestamp_range_edges() {
    let at = |s: i64| cell_to_string(&Cell::DateTime { serial: String::new(), seconds: s });
    assert!(at(MIN_TIMESTAMP).is_ok());
    assert!(at(MAX_TIMESTAMP).is_ok());
    assert_eq!(at(MIN_TIMESTAMP - 1), Err(ConvertError::TimestampOutOfRange(MIN_TIMESTAMP - 1)));
    assert_eq!(at(MAX_TIMESTAMP + 1), Err(ConvertError::TimestampOutOfRange(MAX_TIMESTAMP + 1)));
    assert_eq!(at(MAX_TIMESTAMP).unwrap(), "+262142-12-31 23:59:59 UTC");
}

#[test]
fn text_cell_is_unchanged() {
    for s in ["", "Hero", "  spaced  ", "한글", "Error: Div0"] {
        assert_eq!(cell_to_string(&text(s)).unwrap(), s);
    }
}

#[test]
fn cell_kinds_normalise() {
    assert_eq!(cell_to_string(&Cell::Empty).unwrap(), "");
    assert_eq!(cell_to_string(&Cell::Float("2.5".to_string())).unwrap(), "2.5");
    assert_eq!(cell_to_string(&Cell::Int(-42)).unwrap(), "-42");
    assert_eq!(cell_to_string(&Cell::Bool(true)).unwrap(), "true");
    assert_eq!(cell_to_string(&Cell::Bool(false)).unwrap(), "false");
    assert_eq!(cell_to_string(&Cell::Error(CellErrorKind::Div0)).unwrap(), "Error: Div0");
    assert_eq!(
        cell_to_string(&Cell::Error(CellErrorKind::GettingData)).unwrap(),
        "Error: GettingData"
    );
}

#[test]
fn header_cells_use_plain_text() {
    assert_eq!(Cell::Error(CellErrorKind::Div0).plain_text(), "#DIV/0!");
    assert_eq!(Cell::Error(CellErrorKind::NA).plain_text(), "#N/A");
    assert_eq!(Cell::Error(CellErrorKind::GettingData).plain_text(), "#DATA!");
    assert_eq!(Cell::Int(7).plain_text(), "7");
    assert_eq!(Cell::Empty.plain_text(), "");
}

#[test]
fn integers_in_decimal() {
    assert_eq!(int_text(0), "0");
    assert_eq!(int_text(10), "10");
    assert_eq!(int_text(-7), "-7");
    assert_eq!(int_text(i64::MAX), i64::MAX.to_string());
    assert_eq!(int_text(i64::MIN), "-9223372036854775808");
}

#[test]
fn empty_sheet_gives_empty_outputs() {
    let out = convert_sheet("Empty", &Vec::new()).unwrap();
    assert_eq!(out.class_code, "public class Empty\n{\n}\n");
    assert_eq!(out.json_text, "[]");
}

#[test]
fn two_row_sheet_gives_no_properties() {
    let rows = vec![vec![text("Name")], vec![text("string")]];
    let layout = classify_rows(&rows).unwrap();
    assert_eq!(layout.column_names, strings(&["Name"]));
    assert!(layout.categories.is_empty());
    assert!(layout.data.is_empty());
    let out = convert_sheet("Short", &rows).unwrap();
    assert_eq!(out.class_code, "public class Short\n{\n}\n");
    assert_eq!(out.json_text, "[]");
}

#[test]
fn unknown_type_is_string() {
    assert_eq!(cs_type(&"date".to_string()), "string");
    assert_eq!(cs_type(&"string".to_string()), "string");
    assert_eq!(cs_type(&"int".to_string()), "int");
    assert_eq!(cs_type(&"Int".to_string()), "string");
    let stub = class_stub("T", &strings(&["When"]), &strings(&["date"]), &strings(&["c"]));
    assert_eq!(stub, "public class T\n{\n    public string When { get; set; } // Category: c\n}\n");
}

#[test]
fn stub_stops_at_shortest_header() {
    let stub = class_stub(
        "T",
        &strings(&["A", "B", "C"]),
        &strings(&["int", "int"]),
        &strings(&["x", "y", "z"]),
    );
    assert_eq!(
        stub,
        "public class T\n{\n    public int A { get; set; } // Category: x\n    public int B { get; set; } // Category: y\n}\n"
    );
}

#[test]
fn one_record_per_data_row() {
    let rows = vec![
        vec![text("a"), text("b"), text("c")],
        vec![text("int"), text("int"), text("int")],
        vec![text("k"), text("k"), text("k")],
        vec![Cell::Int(1), Cell::Int(2), Cell::Int(3)],
        vec![Cell::Int(4)],
        vec![Cell::Int(5), Cell::Int(6), Cell::Int(7), Cell::Int(8)],
    ];
    let out = convert_sheet("S", &rows).unwrap();
    let parsed: serde_json::Value = serde_json::from_str(&out.json_text).unwrap();
    let arr = parsed.as_array().unwrap();
    assert_eq!(arr.len(), 3);
    assert_eq!(arr[0].as_object().unwrap().len(), 3);
    assert_eq!(arr[1].as_object().unwrap().len(), 1);
    assert_eq!(arr[2].as_object().unwrap().len(), 3);
    assert_eq!(arr[1]["a"], "4");
    assert_eq!(arr[2]["c"], "7");
}

#[test]
fn repeated_name_keeps_last_value() {
    let obj = json_record(&strings(&["a", "a"]), &strings(&["1", "2"]));
    assert_eq!(obj.len(), 1);
    assert_eq!(obj["a"], "2");
}

#[test]
fn records_hold_string_values() {
    let objs = json_records(&strings(&["n", "v"]), &vec![strings(&["x", "10"]), strings(&[])]);
    assert_eq!(objs.len(), 2);
    assert_eq!(objs[0]["v"], serde_json::Value::String("10".to_string()));
    assert!(objs[1].is_empty());
}

#[test]
fn conversion_is_repeatable() {
    let a = convert_sheet("Character", &character_rows()).unwrap();
    let b = convert_sheet("Character", &character_rows()).unwrap();
    assert_eq!(a.class_code, b.class_code);
    assert_eq!(a.json_text, b.json_text);
}

#[test]
fn zip3_truncates() {
    let z = zip3(vec![1, 2, 3], vec!['a', 'b'], vec!["x", "y", "z"]);
    assert_eq!(z, vec![(1, 'a', "x"), (2, 'b', "y")]);
    let e: Vec<(u8, u8, u8)> = zip3(vec![], vec![1], vec![2]);
    assert!(e.is_empty());
}

#[test]
fn row_roles_by_index() {
    assert_eq!(row_role(0), RowRole::ColumnNames);
    assert_eq!(row_role(1), RowRole::DataTypes);
    assert_eq!(row_role(2), RowRole::Categories);
    assert_eq!(row_role(3), RowRole::Data);
    assert_eq!(row_role(100), RowRole::Data);
}
