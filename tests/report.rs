use sqlbridge::render::ColumnValue;
use sqlbridge::report::{render_affected, render_column_listing, render_row_set, Cell, ColumnInfo};

fn cell(name: &str, value: ColumnValue) -> Cell {
    Cell { name: name.to_string(), value }
}

#[test]
fn empty_row_set_gives_sentinel() {
    assert_eq!(render_row_set(&vec![]), "Query executed successfully. No rows returned.");
}

#[test]
fn empty_listing_gives_sentinel() {
    assert_eq!(render_column_listing(&vec![]), "No columns found for the specified table.");
}

#[test]
fn rows_are_tab_separated_lines() {
    let rows = vec![
        vec![cell("id", ColumnValue::Int(1)), cell("name", ColumnValue::Text("a".to_string()))],
        vec![cell("id", ColumnValue::Int(2)), cell("name", ColumnValue::Null)],
    ];
    assert_eq!(render_row_set(&rows), "id: 1\tname: a\nid: 2\tname: NULL\n");
}

#[test]
fn row_without_cells_is_an_empty_line() {
    assert_eq!(render_row_set(&vec![vec![]]), "\n");
}

#[test]
fn listing_has_fixed_width_fields() {
    let cols = vec![ColumnInfo {
        column_name: ColumnValue::Text("id".to_string()),
        data_type: ColumnValue::Text("int".to_string()),
        max_length: ColumnValue::Null,
        nullable: ColumnValue::Text("NO".to_string()),
    }];
    let expected = "Column Name | Data Type | Max Length | Nullable\n\
                    -----------|-----------|------------|----------\n\
                    id         |int        |NULL        |NO        \n";
    assert_eq!(render_column_listing(&cols), expected);
}

#[test]
fn statement_reports_affected_rows() {
    assert_eq!(render_affected(3), "Query executed successfully. Rows affected: 3");
    assert_eq!(render_affected(0), "Query executed successfully. Rows affected: 0");
}
