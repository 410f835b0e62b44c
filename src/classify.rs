//! The query classifier: which of three renderings a query text gets.
use vstd::prelude::*;
use crate::text::{trim, trimmed};

verus! {

/// How the result of a query is rendered.
#[derive(PartialEq, Eq, Structural, Clone, Copy, Debug)]
pub enum QueryShape {
    /// The four-column listing of a table's columns: a fixed-width table.
    ColumnListing,
    /// Any other `SELECT` or `SHOW`: one line per row.
    RowSet,
    /// Anything else: executed for its count of affected rows.
    Statement,
}

/// The upper-cased start of the column-listing query.
pub open spec fn column_listing_prefix() -> Seq<char> {
    "SELECT COLUMN_NAME, DATA_TYPE, CHARACTER_MAXIMUM_LENGTH, IS_NULLABLE FROM INFORMATION_SCHEMA.COLUMNS"@
}

/// The shape of a query, given its trimmed, upper-cased text; first match wins.
pub open spec fn shape_of(t: Seq<char>) -> QueryShape {
    if column_listing_prefix().is_prefix_of(t) {
        QueryShape::ColumnListing
    } else if "SELECT"@.is_prefix_of(t) || "SHOW"@.is_prefix_of(t) {
        QueryShape::RowSet
    } else {
        QueryShape::Statement
    }
}

/// What `str::to_uppercase` makes of a text.
pub uninterp spec fn uppercased(s: Seq<char>) -> Seq<char>;

/// Relies on `str::to_uppercase`: the Unicode upper-case mapping of each
/// character, which depends on the text alone.
#[verifier::external_body]
fn to_upper(s: &str) -> (r: String)
    ensures
        r@ == uppercased(s@),
{
    s.to_uppercase()
}

/// The text a query is classified by: trimmed, then upper-cased.
pub open spec fn normalized(q: Seq<char>) -> Seq<char> {
    uppercased(trimmed(q))
}

/// Whether `p` is a prefix of `t`.
pub fn starts_with(t: &str, p: &str) -> (r: bool)
    ensures
        r == p@.is_prefix_of(t@),
{
    let tl = t.unicode_len();
    let pl = p.unicode_len();
    if pl > tl {
        return false;
    }
    let mut i: usize = 0;
    while i < pl
        invariant
            tl == t@.len(),
            pl == p@.len(),
            pl <= tl,
            i <= pl,
            forall|k: int| 0 <= k < i ==> t@[k] == p@[k],
        decreases pl - i,
    {
        if t.get_char(i) != p.get_char(i) {
            return false;
        }
        i = i + 1;
    }
    assert(p@ =~= t@.subrange(0, pl as int));
    true
}

/// Classifies a query text that is already trimmed and upper-cased.
pub fn classify_normalized(t: &str) -> (r: QueryShape)
    ensures
        r == shape_of(t@),
{
    if starts_with(
        t,
        "SELECT COLUMN_NAME, DATA_TYPE, CHARACTER_MAXIMUM_LENGTH, IS_NULLABLE FROM INFORMATION_SCHEMA.COLUMNS",
    ) {
        QueryShape::ColumnListing
    } else if starts_with(t, "SELECT") || starts_with(t, "SHOW") {
        QueryShape::RowSet
    } else {
        QueryShape::Statement
    }
}

/// Classifies a raw query text.
pub fn classify(query: &str) -> (r: QueryShape)
    ensures
        r == shape_of(normalized(query@)),
{
    let upper = to_upper(trim(query));
    classify_normalized(upper.as_str())
}

/// Every query text gets exactly one shape, and a column-listing query, whose
/// text also starts with `SELECT`, is rendered as a column listing, never as
/// a row set.
pub proof fn lemma_column_listing_wins(t: Seq<char>)
    ensures
        shape_of(t) == QueryShape::ColumnListing || shape_of(t) == QueryShape::RowSet || shape_of(
            t,
        ) == QueryShape::Statement,
        column_listing_prefix().is_prefix_of(t) ==> "SELECT"@.is_prefix_of(t) && shape_of(t)
            == QueryShape::ColumnListing,
        shape_of(t) == QueryShape::RowSet <==> !column_listing_prefix().is_prefix_of(t) && (
        "SELECT"@.is_prefix_of(t) || "SHOW"@.is_prefix_of(t)),
{
    reveal_strlit(
        "SELECT COLUMN_NAME, DATA_TYPE, CHARACTER_MAXIMUM_LENGTH, IS_NULLABLE FROM INFORMATION_SCHEMA.COLUMNS",
    );
    reveal_strlit("SELECT");
    if column_listing_prefix().is_prefix_of(t) {
        let p = column_listing_prefix();
        assert("SELECT"@ =~= t.subrange(0, 6)) by {
            assert(forall|k: int| 0 <= k < 6 ==> t[k] == t.subrange(0, p.len() as int)[k]);
        }
    }
}

} // verus!
