use sqlbridge::classify::{classify, classify_normalized, starts_with, QueryShape};
use sqlbridge::text::{decimal_i64, left_justify, trim, zero_padded_decimal};

#[test]
fn column_listing_wins_over_select() {
    let q = "  select column_name, data_type, character_maximum_length, is_nullable from information_schema.columns where table_name = 't'";
    assert_eq!(classify(q), QueryShape::ColumnListing);
    let u = "SELECT COLUMN_NAME, DATA_TYPE, CHARACTER_MAXIMUM_LENGTH, IS_NULLABLE FROM INFORMATION_SCHEMA.COLUMNS";
    assert_eq!(classify_normalized(u), QueryShape::ColumnListing);
}

#[test]
fn select_and_show_are_row_sets() {
    assert_eq!(classify("SELECT 1"), QueryShape::RowSet);
    assert_eq!(classify("\n\t select * from t  "), QueryShape::RowSet);
    assert_eq!(classify("show tables"), QueryShape::RowSet);
    assert_eq!(classify("select column_name from information_schema.columns"), QueryShape::RowSet);
}

#[test]
fn other_texts_are_statements() {
    assert_eq!(classify("DELETE FROM t WHERE id=1"), QueryShape::Statement);
    assert_eq!(classify(""), QueryShape::Statement);
    assert_eq!(classify("   "), QueryShape::Statement);
    assert_eq!(classify("SELEC"), QueryShape::Statement);
    assert_eq!(classify("insert into t values (1)"), QueryShape::Statement);
    assert_eq!(classify_normalized("select 1"), QueryShape::Statement);
}

#[test]
fn text_primitives() {
    assert_eq!(trim("  a b \n"), "a b");
    assert_eq!(trim("\u{3000}x\u{a0}"), "x");
    assert_eq!(trim(" \t "), "");
    assert!(starts_with("SHOW TABLES", "SHOW"));
    assert!(!starts_with("SHO", "SHOW"));
    assert_eq!(zero_padded_decimal(7, 3), "007");
    assert_eq!(zero_padded_decimal(12345, 2), "12345");
    assert_eq!(left_justify("ab", 4), "ab  ");
    assert_eq!(left_justify("abcdef", 4), "abcdef");
    assert_eq!(decimal_i64(-7), "-7");
}
