//! Result assembly: the text a query's result is returned as.
use vstd::prelude::*;
use crate::render::{render_value, rendered, ColumnValue};
use crate::text::{decimal, decimal_u64, left_justified, left_justify};

verus! {

/// One named cell of a result row.
pub struct Cell {
    pub name: String,
    pub value: ColumnValue,
}

/// One row of a column listing: name, data type, maximum length, nullability.
pub struct ColumnInfo {
    pub column_name: ColumnValue,
    pub data_type: ColumnValue,
    pub max_length: ColumnValue,
    pub nullable: ColumnValue,
}

/// What an empty row set is reported as.
pub open spec fn no_rows_text() -> Seq<char> {
    "Query executed successfully. No rows returned."@
}

/// What an empty column listing is reported as.
pub open spec fn no_columns_text() -> Seq<char> {
    "No columns found for the specified table."@
}

/// The two heading lines of a column listing.
pub open spec fn listing_heading() -> Seq<char> {
    "Column Name | Data Type | Max Length | Nullable\n"@ + "-----------|-----------|------------|----------\n"@
}

/// `name: value`.
pub open spec fn cell_text(c: Cell) -> Seq<char> {
    c.name@ + ": "@ + rendered(c.value)
}

/// The first `n` cells of a row, joined by tabs.
pub open spec fn row_text(cells: Seq<Cell>, n: int) -> Seq<char>
    decreases n,
{
    if n <= 0 {
        Seq::empty()
    } else if n == 1 {
        cell_text(cells[0])
    } else {
        row_text(cells, n - 1) + "\t"@ + cell_text(cells[n - 1])
    }
}

/// The first `n` rows, one line each.
pub open spec fn rows_text(rows: Seq<Vec<Cell>>, n: int) -> Seq<char>
    decreases n,
{
    if n <= 0 {
        Seq::empty()
    } else {
        rows_text(rows, n - 1) + row_text(rows[n - 1]@, rows[n - 1]@.len() as int) + "\n"@
    }
}

/// The report of a row set.
pub open spec fn row_set_report(rows: Seq<Vec<Cell>>) -> Seq<char> {
    if rows.len() == 0 {
        no_rows_text()
    } else {
        rows_text(rows, rows.len() as int)
    }
}

/// One line of a column listing, in fields of 11, 11, 12 and 10 characters.
pub open spec fn listing_line(c: ColumnInfo) -> Seq<char> {
    left_justified(rendered(c.column_name), 11) + "|"@ + left_justified(rendered(c.data_type), 11)
        + "|"@ + left_justified(rendered(c.max_length), 12) + "|"@ + left_justified(
        rendered(c.nullable),
        10,
    ) + "\n"@
}

/// The first `n` lines of a column listing.
pub open spec fn listing_lines(cols: Seq<ColumnInfo>, n: int) -> Seq<char>
    decreases n,
{
    if n <= 0 {
        Seq::empty()
    } else {
        listing_lines(cols, n - 1) + listing_line(cols[n - 1])
    }
}

/// The report of a column listing.
pub open spec fn column_listing_report(cols: Seq<ColumnInfo>) -> Seq<char> {
    if cols.len() == 0 {
        no_columns_text()
    } else {
        listing_heading() + listing_lines(cols, cols.len() as int)
    }
}

/// The report of a statement that affected `n` rows.
pub open spec fn affected_report(n: nat) -> Seq<char> {
    "Query executed successfully. Rows affected: "@ + decimal(n)
}

fn render_cell(c: &Cell) -> (r: String)
    ensures
        r@ == cell_text(*c),
{
    let mut r = c.name.clone();
    r.append(": ");
    r.append(render_value(&c.value).as_str());
    r
}

fn render_row(cells: &Vec<Cell>) -> (r: String)
    ensures
        r@ == row_text(cells@, cells@.len() as int),
{
    let mut line = String::new();
    let mut i: usize = 0;
    while i < cells.len()
        invariant
            i <= cells@.len(),
            line@ == row_text(cells@, i as int),
        decreases cells@.len() - i,
    {
        if i > 0 {
            line.append("\t");
        }
        line.append(render_cell(&cells[i]).as_str());
        i = i + 1;
    }
    line
}

/// Renders a row set: one line per row, each cell as `name: value`, cells
/// separated by a tab; an empty row set gives its fixed message.
pub fn render_row_set(rows: &Vec<Vec<Cell>>) -> (r: String)
    ensures
        r@ == row_set_report(rows@),
{
    if rows.len() == 0 {
        return String::from_str("Query executed successfully. No rows returned.");
    }
    let mut out = String::new();
    let mut i: usize = 0;
    while i < rows.len()
        invariant
            i <= rows@.len(),
            out@ == rows_text(rows@, i as int),
        decreases rows@.len() - i,
    {
        out.append(render_row(&rows[i]).as_str());
        out.append("\n");
        i = i + 1;
    }
    out
}

fn render_listing_line(c: &ColumnInfo) -> (r: String)
    ensures
        r@ == listing_line(*c),
{
    let mut r = left_justify(render_value(&c.column_name).as_str(), 11);
    r.append("|");
    r.append(left_justify(render_value(&c.data_type).as_str(), 11).as_str());
    r.append("|");
    r.append(left_justify(render_value(&c.max_length).as_str(), 12).as_str());
    r.append("|");
    r.append(left_justify(render_value(&c.nullable).as_str(), 10).as_str());
    r.append("\n");
    r
}

/// Renders a column listing: a heading, a separator, then one fixed-width
/// line per column; an empty listing gives its fixed message.
pub fn render_column_listing(cols: &Vec<ColumnInfo>) -> (r: String)
    ensures
        r@ == column_listing_report(cols@),
{
    if cols.len() == 0 {
        return String::from_str("No columns found for the specified table.");
    }
    let mut out = String::from_str("Column Name | Data Type | Max Length | Nullable\n");
    out.append("-----------|-----------|------------|----------\n");
    let mut i: usize = 0;
    while i < cols.len()
        invariant
            i <= cols@.len(),
            out@ == listing_heading() + listing_lines(cols@, i as int),
        decreases cols@.len() - i,
    {
        out.append(render_listing_line(&cols[i]).as_str());
        proof {
            assert(out@ =~= listing_heading() + listing_lines(cols@, i + 1));
        }
        i = i + 1;
    }
    out
}

/// Renders the report of a statement that affected `n` rows.
pub fn render_affected(n: u64) -> (r: String)
    ensures
        r@ == affected_report(n as nat),
{
    let mut r = String::from_str("Query executed successfully. Rows affected: ");
    r.append(decimal_u64(n).as_str());
    r
}

} // verus!
