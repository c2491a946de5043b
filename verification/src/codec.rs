//! Row codec: converts database rows, whose column types are only known at
//! runtime, into JSON value trees. The dispatch over the runtime type tag is
//! a closed match with an explicit fallback: an unsupported column degrades
//! to JSON null and never aborts conversion of its sibling columns.

use vstd::prelude::*;

use crate::foreign::{
    date_text, render_date, render_timestamp, render_timestamptz, render_uuid, timestamp_text,
    timestamptz_text, uuid_text,
};
use crate::json::JsonValue;

verus! {

/// One cell as the database driver reported it: the runtime type tag fused
/// with the typed value it selects. A tag outside the supported set is
/// `Unsupported`.
pub enum RowValue {
    SmallInt(i16),
    Int(i32),
    BigInt(i64),
    /// The bits of a single-precision float column.
    Real(u32),
    /// The bits of a double-precision float column.
    Double(u64),
    Bool(bool),
    Text(String),
    Timestamp(chrono::NaiveDateTime),
    /// A timestamp-with-zone column, carried as its UTC instant.
    TimestampTz(chrono::NaiveDateTime),
    Date(chrono::NaiveDate),
    /// An already-structured JSON document column, passed through unchanged.
    Json(JsonValue),
    Uuid(uuid::Uuid),
    Unsupported,
}

/// One row: column names paired 1:1 with the cell values.
pub struct DbRow {
    pub cells: Vec<(String, RowValue)>,
}

/// The dispatch table of the codec: `j` is exactly the JSON value that the
/// cell `v` converts to.
pub open spec fn cell_json(v: RowValue, j: JsonValue) -> bool {
    match v {
        RowValue::SmallInt(n) => j == JsonValue::Int(n as i64),
        RowValue::Int(n) => j == JsonValue::Int(n as i64),
        RowValue::BigInt(n) => j == JsonValue::Int(n),
        RowValue::Real(bits) => j == JsonValue::Float32(bits),
        RowValue::Double(bits) => j == JsonValue::Float64(bits),
        RowValue::Bool(b) => j == JsonValue::Bool(b),
        RowValue::Text(s) => j matches JsonValue::Text(t) && t@ == s@,
        RowValue::Timestamp(t) => j matches JsonValue::Text(s) && s@ == timestamp_text(t),
        RowValue::TimestampTz(t) => j matches JsonValue::Text(s) && s@ == timestamptz_text(t),
        RowValue::Date(d) => j matches JsonValue::Text(s) && s@ == date_text(d),
        RowValue::Json(doc) => j == doc,
        RowValue::Uuid(u) => j matches JsonValue::Text(s) && s@ == uuid_text(u),
        RowValue::Unsupported => j == JsonValue::Null,
    }
}

/// Convert one cell. The match is exhaustive over the supported tags with an
/// explicit `Unsupported` fallback to null, so no cell can abort a row.
pub fn value_to_json(v: RowValue) -> (j: JsonValue)
    ensures
        cell_json(v, j),
{
    match v {
        RowValue::SmallInt(n) => JsonValue::Int(n as i64),
        RowValue::Int(n) => JsonValue::Int(n as i64),
        RowValue::BigInt(n) => JsonValue::Int(n),
        RowValue::Real(bits) => JsonValue::Float32(bits),
        RowValue::Double(bits) => JsonValue::Float64(bits),
        RowValue::Bool(b) => JsonValue::Bool(b),
        RowValue::Text(s) => JsonValue::Text(s),
        RowValue::Timestamp(t) => JsonValue::Text(render_timestamp(&t)),
        RowValue::TimestampTz(t) => JsonValue::Text(render_timestamptz(&t)),
        RowValue::Date(d) => JsonValue::Text(render_date(&d)),
        RowValue::Json(doc) => doc,
        RowValue::Uuid(u) => JsonValue::Text(render_uuid(&u)),
        RowValue::Unsupported => JsonValue::Null,
    }
}

/// `j` is exactly the JSON object that `row` converts to: one member per
/// cell, in column order, keyed by the column names, each value converted by
/// the dispatch table.
pub open spec fn row_json(row: DbRow, j: JsonValue) -> bool {
    &&& j matches JsonValue::Object(members)
    &&& members@.len() == row.cells@.len()
    &&& forall|i: int|
        0 <= i < row.cells@.len() ==> (#[trigger] members@[i]).0@ == row.cells@[i].0@
            && cell_json(row.cells@[i].1, members@[i].1)
}

/// Convert one row into a JSON object.
pub fn row_to_json(row: DbRow) -> (j: JsonValue)
    ensures
        row_json(row, j),
{
    let mut members: Vec<(String, JsonValue)> = Vec::new();
    let mut cells = row.cells;
    let ghost all_cells = cells@;
    let n = cells.len();
    let mut i: usize = 0;
    while i < n
        invariant
            n == all_cells.len(),
            i <= n,
            cells@ == all_cells.subrange(i as int, n as int),
            members@.len() == i,
            forall|k: int|
                0 <= k < i ==> (#[trigger] members@[k]).0@ == all_cells[k].0@ && cell_json(
                    all_cells[k].1,
                    members@[k].1,
                ),
        decreases n - i,
    {
        let (name, value) = cells.remove(0);
        members.push((name, value_to_json(value)));
        i = i + 1;
    }
    JsonValue::Object(members)
}

/// Convert a sequence of rows into JSON objects, one per row, in order.
pub fn rows_to_json(rows: Vec<DbRow>) -> (r: Vec<JsonValue>)
    ensures
        r@.len() == rows@.len(),
        forall|i: int| 0 <= i < rows@.len() ==> row_json(rows@[i], #[trigger] r@[i]),
{
    let mut out: Vec<JsonValue> = Vec::new();
    let mut rest = rows;
    let ghost all_rows = rest@;
    let n = rest.len();
    let mut i: usize = 0;
    while i < n
        invariant
            n == all_rows.len(),
            i <= n,
            rest@ == all_rows.subrange(i as int, n as int),
            out@.len() == i,
            forall|k: int| 0 <= k < i ==> row_json(all_rows[k], #[trigger] out@[k]),
        decreases n - i,
    {
        let row = rest.remove(0);
        out.push(row_to_json(row));
        i = i + 1;
    }
    out
}

/// The column names of a result set, read from its first row; an empty
/// result set has no discoverable columns and yields the empty sequence.
pub fn get_column_names(rows: &Vec<DbRow>) -> (names: Vec<String>)
    ensures
        rows@.len() == 0 ==> names@.len() == 0,
        rows@.len() > 0 ==> names@.len() == rows@[0].cells@.len() && forall|i: int|
            0 <= i < names@.len() ==> (#[trigger] names@[i])@ == rows@[0].cells@[i].0@,
{
    let mut names: Vec<String> = Vec::new();
    if rows.len() == 0 {
        return names;
    }
    let first = &rows[0];
    let n = first.cells.len();
    let mut i: usize = 0;
    while i < n
        invariant
            rows@.len() > 0,
            n == rows@[0].cells@.len(),
            first == &rows@[0],
            i <= n,
            names@.len() == i,
            forall|k: int| 0 <= k < i ==> (#[trigger] names@[k])@ == rows@[0].cells@[k].0@,
        decreases n - i,
    {
        names.push(first.cells[i].0.clone());
        i = i + 1;
    }
    names
}

} // verus!
