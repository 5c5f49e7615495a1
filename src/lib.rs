//! Turns the rows of a spreadsheet sheet into a class stub and a JSON array
//! of row records.
//!
//! The first three rows of a sheet hold the column names, the declared types
//! and the categories; every later row is a data row. Cells are normalised to
//! strings, the class stub lists one property per column, and the JSON array
//! holds one object per data row.
pub mod cell;
pub mod convert;
pub mod json;
pub mod layout;
pub mod records;
pub mod stub;
pub mod text;
pub mod timestamp;
