//! The MySQL-style session: a pool that survives database switches, and the
//! name of the selected database, re-asserted before every query.
use vstd::prelude::*;
use crate::classify::{classify, normalized, shape_of, QueryShape};
use crate::error::BridgeError;
use crate::objects::CatalogQueries;

verus! {

/// The session state as a value: the live pool, if any, and the selected
/// database, if any.
pub type SessionView<P> = (Option<P>, Option<Seq<char>>);

/// The state after a connect with pool `p`: the selection is kept.
pub open spec fn after_connect<P>(v: SessionView<P>, p: P) -> SessionView<P> {
    (Some(p), v.1)
}

/// The state after database `name` is selected.
pub open spec fn after_selection<P>(v: SessionView<P>, name: Seq<char>) -> SessionView<P> {
    (v.0, Some(name))
}

/// The statement that makes `name` the active database.
pub open spec fn use_statement(name: Seq<char>) -> Seq<char> {
    "USE "@ + name
}

/// The catalog queries for the schema objects of database `name`.
pub open spec fn catalog_texts(name: Seq<char>) -> (Seq<char>, Seq<char>, Seq<char>, Seq<char>) {
    (
        "SHOW TABLES"@,
        "SELECT ROUTINE_NAME FROM INFORMATION_SCHEMA.ROUTINES WHERE ROUTINE_TYPE = 'PROCEDURE' AND ROUTINE_SCHEMA = '"@
            + name + "'"@,
        "SELECT TABLE_NAME FROM INFORMATION_SCHEMA.VIEWS WHERE TABLE_SCHEMA = '"@ + name + "'"@,
        "SELECT ROUTINE_NAME FROM INFORMATION_SCHEMA.ROUTINES WHERE ROUTINE_TYPE = 'FUNCTION' AND ROUTINE_SCHEMA = '"@
            + name + "'"@,
    )
}

/// The query that lists the server's databases.
pub fn database_list_query() -> (r: String)
    ensures
        r@ == "SHOW DATABASES"@,
{
    String::from_str("SHOW DATABASES")
}

/// What a database selection runs: the `USE` statement, then the catalog
/// queries.
pub struct SelectPlan {
    pub use_statement: String,
    pub catalog: CatalogQueries,
}

/// What a query runs: the `USE` statement for the selected database, then the
/// query itself, rendered by its shape.
pub struct ExecutePlan {
    pub reselect: String,
    pub shape: QueryShape,
}

/// The session of the MySQL-style engine, over a pool handle `P`.
pub struct DbConnection<P> {
    pool: Option<P>,
    selected_db: Option<String>,
}

impl<P> View for DbConnection<P> {
    type V = SessionView<P>;

    closed spec fn view(&self) -> SessionView<P> {
        (
            self.pool,
            match self.selected_db {
                Some(s) => Some(s@),
                None => None,
            },
        )
    }
}

fn statement_for(prefix: &str, name: &str, suffix: &str) -> (r: String)
    ensures
        r@ == prefix@ + name@ + suffix@,
{
    let mut r = String::from_str(prefix);
    r.append(name);
    r.append(suffix);
    r
}

impl<P> DbConnection<P> {
    /// A session with no pool and no selected database.
    pub fn new() -> (r: Self)
        ensures
            r@ == (None::<P>, None::<Seq<char>>),
    {
        DbConnection { pool: None, selected_db: None }
    }

    /// Installs a freshly opened pool in place of any earlier one; the
    /// selected database is kept.
    pub fn connect(&mut self, pool: P)
        ensures
            final(self)@ == after_connect(old(self)@, pool),
    {
        self.pool = Some(pool);
    }

    /// The live pool.
    pub fn pool(&self) -> (r: Result<&P, BridgeError>)
        ensures
            self@.0 is None <==> r matches Err(BridgeError::NotConnected),
            self@.0 is Some ==> (r matches Ok(p) && *p == self@.0.unwrap()),
    {
        match &self.pool {
            Some(p) => Ok(p),
            None => Err(BridgeError::NotConnected),
        }
    }

    /// The name of the selected database.
    pub fn selected_database(&self) -> (r: Option<&String>)
        ensures
            r is None <==> self@.1 is None,
            r matches Some(s) ==> self@.1 == Some(s@),
    {
        match &self.selected_db {
            Some(s) => Some(s),
            None => None,
        }
    }

    /// What selecting database `name` runs; fails when there is no pool.
    pub fn plan_selection(&self, name: &str) -> (r: Result<SelectPlan, BridgeError>)
        ensures
            self@.0 is None <==> r matches Err(BridgeError::NotConnected),
            self@.0 is Some ==> (r matches Ok(plan) && plan.use_statement@ == use_statement(name@)
                && (plan.catalog.tables@, plan.catalog.procedures@, plan.catalog.views@,
            plan.catalog.functions@) == catalog_texts(name@)),
    {
        if self.pool.is_none() {
            return Err(BridgeError::NotConnected);
        }
        let use_text = statement_for("USE ", name, "");
        let tables = String::from_str("SHOW TABLES");
        let procedures = statement_for(
            "SELECT ROUTINE_NAME FROM INFORMATION_SCHEMA.ROUTINES WHERE ROUTINE_TYPE = 'PROCEDURE' AND ROUTINE_SCHEMA = '",
            name,
            "'",
        );
        let views = statement_for(
            "SELECT TABLE_NAME FROM INFORMATION_SCHEMA.VIEWS WHERE TABLE_SCHEMA = '",
            name,
            "'",
        );
        let functions = statement_for(
            "SELECT ROUTINE_NAME FROM INFORMATION_SCHEMA.ROUTINES WHERE ROUTINE_TYPE = 'FUNCTION' AND ROUTINE_SCHEMA = '",
            name,
            "'",
        );
        proof {
            reveal_strlit("");
            assert(use_text@ =~= use_statement(name@));
        }
        Ok(SelectPlan { use_statement: use_text, catalog: CatalogQueries { tables, procedures, views, functions } })
    }

    /// Records `name` as the selected database, once its `USE` statement has
    /// succeeded.
    pub fn record_selection(&mut self, name: &str)
        ensures
            final(self)@ == after_selection(old(self)@, name@),
    {
        self.selected_db = Some(String::from_str(name));
    }

    /// What running `query` takes: the pool, then a selected database, whose
    /// `USE` statement is issued again before the query.
    pub fn plan_execute(&self, query: &str) -> (r: Result<ExecutePlan, BridgeError>)
        ensures
            self@.0 is None ==> r matches Err(BridgeError::NotConnected),
            self@.0 is Some && self@.1 is None ==> r matches Err(BridgeError::NoDatabaseSelected),
            self@.0 is Some && self@.1 is Some ==> (r matches Ok(plan) && plan.reselect@
                == use_statement(self@.1.unwrap()) && plan.shape == shape_of(normalized(query@))),
    {
        if self.pool.is_none() {
            return Err(BridgeError::NotConnected);
        }
        match &self.selected_db {
            None => Err(BridgeError::NoDatabaseSelected),
            Some(db) => {
                let reselect = statement_for("USE ", db.as_str(), "");
                proof {
                    reveal_strlit("");
                    assert(reselect@ =~= use_statement(db@));
                }
                Ok(ExecutePlan { reselect, shape: classify(query) })
            },
        }
    }
}

/// A second connect replaces the first: what follows sees only the new pool,
/// and the state is the same as if the first connect had never happened.
pub proof fn lemma_reconnect_replaces<P>(v: SessionView<P>, first: P, second: P)
    ensures
        after_connect(after_connect(v, first), second) == after_connect(v, second),
        after_connect(after_connect(v, first), second).0 == Some(second),
{
}

/// A session that was connected but never told to select a database has a
/// pool and no selection, so a query on it is refused for want of a database,
/// and one on a session never connected is refused for want of a pool.
pub proof fn lemma_fresh_session_gates<P>(p: P)
    ensures
        after_connect((None::<P>, None::<Seq<char>>), p).0 is Some,
        after_connect((None::<P>, None::<Seq<char>>), p).1 is None,
        (None::<P>, None::<Seq<char>>).0 is None,
{
}

/// One database is active at a time: after a selection the active name is
/// exactly the one selected, whatever was selected before, and a query
/// re-asserts that name.
pub proof fn lemma_selection_is_whole<P>(v: SessionView<P>, first: Seq<char>, second: Seq<char>)
    ensures
        after_selection(v, first).1 == Some(first),
        after_selection(after_selection(v, first), second) == after_selection(v, second),
        after_selection(after_selection(v, first), second).1 == Some(second),
        after_selection(v, second).0 == v.0,
{
}

} // verus!
