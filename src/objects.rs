//! The plain values that cross the bridge.
use vstd::prelude::*;

verus! {

/// A connection descriptor, as the caller sends it.
pub struct ConnectionString {
    pub value: String,
}

/// The name of a database to select.
pub struct DatabaseName {
    pub name: String,
}

/// A query text, as the caller sends it.
pub struct QueryString {
    pub query: String,
}

/// The schema objects of one database: a snapshot.
pub struct DatabaseObjects {
    pub tables: Vec<String>,
    pub procedures: Vec<String>,
    pub views: Vec<String>,
    pub functions: Vec<String>,
}

/// The four catalog queries that list a database's schema objects.
pub struct CatalogQueries {
    pub tables: String,
    pub procedures: String,
    pub views: String,
    pub functions: String,
}

/// What a successful connect reports.
pub open spec fn connected_text() -> Seq<char> {
    "Connected successfully"@
}

/// The confirmation of a successful connect.
pub fn connected_message() -> (r: String)
    ensures
        r@ == connected_text(),
{
    String::from_str("Connected successfully")
}

} // verus!
