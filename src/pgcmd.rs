//! The PostgreSQL-style session: the database is part of the connection, so
//! selecting one reconnects with the database as the descriptor's path.
use vstd::prelude::*;
use crate::classify::{classify, normalized, shape_of, starts_with, QueryShape};
use crate::error::BridgeError;
use crate::objects::CatalogQueries;

verus! {

/// The session state as a value: the live client, the descriptor it was
/// opened with, and the selected database.
pub type SessionView<C> = (Option<C>, Option<Seq<char>>, Option<Seq<char>>);

/// The state after a connect: a new, unscoped client, so no selection.
pub open spec fn after_connect<C>(
    v: SessionView<C>,
    client: C,
    descriptor: Seq<char>,
) -> SessionView<C> {
    (Some(client), Some(descriptor), None)
}

/// The state after a switch to database `name` over a client opened with
/// `descriptor`.
pub open spec fn after_switch<C>(
    v: SessionView<C>,
    client: C,
    descriptor: Seq<char>,
    name: Seq<char>,
) -> SessionView<C> {
    (Some(client), Some(descriptor), Some(name))
}

/// The first position at or after `i` where `pat` occurs in `s`.
pub open spec fn find_from(s: Seq<char>, pat: Seq<char>, i: int) -> Option<int>
    decreases s.len() - i,
{
    if i < 0 || i + pat.len() > s.len() {
        None
    } else if pat.is_prefix_of(s.subrange(i, s.len() as int)) {
        Some(i)
    } else {
        find_from(s, pat, i + 1)
    }
}

proof fn lemma_find_from_bounds(s: Seq<char>, pat: Seq<char>, i: int)
    ensures
        find_from(s, pat, i) matches Some(j) ==> i <= j && j + pat.len() <= s.len(),
    decreases s.len() - i,
{
    if !(i < 0 || i + pat.len() > s.len()) && !pat.is_prefix_of(s.subrange(i, s.len() as int)) {
        lemma_find_from_bounds(s, pat, i + 1);
    }
}

/// Where the authority of a descriptor starts: after its `://`, if it has one.
pub open spec fn authority_start(d: Seq<char>) -> int {
    match find_from(d, "://"@, 0) {
        Some(k) => k + 3,
        None => 0,
    }
}

/// Where the query parameters of a descriptor start: at the first `?` after
/// the authority, or at the end.
pub open spec fn query_start(d: Seq<char>) -> int {
    match find_from(d, "?"@, authority_start(d)) {
        Some(q) => q,
        None => d.len() as int,
    }
}

/// Where the path of a descriptor starts: at the first `/` after the
/// authority that comes before the query parameters; where there is none, the
/// path is empty and starts where the query parameters do.
pub open spec fn path_start(d: Seq<char>) -> int {
    match find_from(d, "/"@, authority_start(d)) {
        Some(j) => if j < query_start(d) {
            j
        } else {
            query_start(d)
        },
        None => query_start(d),
    }
}

/// The descriptor `d` with its path replaced by `/name`: scheme, credentials,
/// host, port and query parameters are kept.
pub open spec fn retargeted(d: Seq<char>, name: Seq<char>) -> Seq<char> {
    d.subrange(0, path_start(d)) + "/"@ + name + d.subrange(query_start(d), d.len() as int)
}

/// The catalog queries for the schema objects of the `public` schema.
pub open spec fn catalog_texts() -> (Seq<char>, Seq<char>, Seq<char>, Seq<char>) {
    (
        "SELECT table_name FROM information_schema.tables WHERE table_schema = 'public'"@,
        "SELECT routine_name FROM information_schema.routines WHERE routine_type = 'PROCEDURE' AND routine_schema = 'public'"@,
        "SELECT table_name FROM information_schema.views WHERE table_schema = 'public'"@,
        "SELECT routine_name FROM information_schema.routines WHERE routine_type = 'FUNCTION' AND routine_schema = 'public'"@,
    )
}

/// The first position at or after `from` where `pat` occurs in `s`.
pub fn find(s: &str, pat: &str, from: usize) -> (r: Option<usize>)
    ensures
        r matches Some(j) ==> find_from(s@, pat@, from as int) == Some(j as int),
        r is None ==> find_from(s@, pat@, from as int) is None,
        r matches Some(j) ==> from <= j && j + pat@.len() <= s@.len() <= usize::MAX,
{
    proof {
        lemma_find_from_bounds(s@, pat@, from as int);
    }
    let len = s.unicode_len();
    let plen = pat.unicode_len();
    let mut i: usize = from;
    while i <= len && plen <= len - i
        invariant
            len == s@.len(),
            plen == pat@.len(),
            from <= i,
            find_from(s@, pat@, from as int) == find_from(s@, pat@, i as int),
        decreases len + 1 - i,
    {
        if starts_with(s.substring_char(i, len), pat) {
            return Some(i);
        }
        i = i + 1;
    }
    None
}

/// The descriptor that reaches database `name` on the server of `d`.
pub fn retarget(d: &str, name: &str) -> (r: String)
    ensures
        r@ == retargeted(d@, name@),
{
    proof {
        reveal_strlit("://");
        reveal_strlit("?");
        reveal_strlit("/");
    }
    let len = d.unicode_len();
    let start: usize = match find(d, "://", 0) {
        Some(k) => k + 3,
        None => 0,
    };
    let q: usize = match find(d, "?", start) {
        Some(q) => q,
        None => len,
    };
    let j: usize = match find(d, "/", start) {
        Some(j) => if j < q {
            j
        } else {
            q
        },
        None => q,
    };
    let mut r = String::from_str(d.substring_char(0, j));
    r.append("/");
    r.append(name);
    r.append(d.substring_char(q, len));
    r
}

/// The session of the PostgreSQL-style engine, over a client handle `C`.
pub struct DbConnection<C> {
    client: Option<C>,
    connection_string: Option<String>,
    selected_db: Option<String>,
}

impl<C> View for DbConnection<C> {
    type V = SessionView<C>;

    closed spec fn view(&self) -> SessionView<C> {
        (
            self.client,
            match self.connection_string {
                Some(s) => Some(s@),
                None => None,
            },
            match self.selected_db {
                Some(s) => Some(s@),
                None => None,
            },
        )
    }
}

impl<C> DbConnection<C> {
    /// A session with no client, no descriptor and no selected database.
    pub fn new() -> (r: Self)
        ensures
            r@ == (None::<C>, None::<Seq<char>>, None::<Seq<char>>),
    {
        DbConnection { client: None, connection_string: None, selected_db: None }
    }

    /// Installs a client opened with `descriptor` in place of any earlier
    /// one; being unscoped, it has no selected database.
    pub fn connect(&mut self, client: C, descriptor: String)
        ensures
            final(self)@ == after_connect(old(self)@, client, descriptor@),
    {
        self.client = Some(client);
        self.connection_string = Some(descriptor);
        self.selected_db = None;
    }

    /// The live client.
    pub fn get_client(&mut self) -> (r: Result<&mut C, BridgeError>)
        ensures
            old(self)@.0 is None <==> r matches Err(BridgeError::NotConnected),
            old(self)@.0 is Some <==> r is Ok,
            r matches Ok(c) ==> *c == old(self)@.0.unwrap() && final(self)@ == (Some(
                *final(c),
            ), old(self)@.1, old(self)@.2),
            r is Err ==> final(self)@ == old(self)@,
    {
        match &mut self.client {
            Some(c) => Ok(c),
            None => Err(BridgeError::NotConnected),
        }
    }

    /// The descriptor that selecting database `name` connects with; fails
    /// when the session was never connected, so has no descriptor to start
    /// from.
    pub fn plan_selection(&self, name: &str) -> (r: Result<String, BridgeError>)
        ensures
            self@.1 is None <==> r matches Err(BridgeError::NoConnectionString),
            self@.1 is Some ==> (r matches Ok(d) && d@ == retargeted(self@.1.unwrap(), name@)),
    {
        match &self.connection_string {
            None => Err(BridgeError::NoConnectionString),
            Some(d) => Ok(retarget(d.as_str(), name)),
        }
    }

    /// Installs the client opened for database `name` with `descriptor`, and
    /// records the selection.
    pub fn switch_database(&mut self, client: C, descriptor: String, name: &str)
        ensures
            final(self)@ == after_switch(old(self)@, client, descriptor@, name@),
    {
        self.client = Some(client);
        self.connection_string = Some(descriptor);
        self.selected_db = Some(String::from_str(name));
    }

    /// The name of the selected database.
    pub fn selected_database(&self) -> (r: Option<&String>)
        ensures
            r is None <==> self@.2 is None,
            r matches Some(s) ==> self@.2 == Some(s@),
    {
        match &self.selected_db {
            Some(s) => Some(s),
            None => None,
        }
    }

    /// How `query` is to be run: it needs a client, then a selected database.
    pub fn plan_execute(&self, query: &str) -> (r: Result<QueryShape, BridgeError>)
        ensures
            self@.0 is None ==> r matches Err(BridgeError::NotConnected),
            self@.0 is Some && self@.2 is None ==> r matches Err(BridgeError::NoDatabaseSelected),
            self@.0 is Some && self@.2 is Some ==> r == Ok::<QueryShape, BridgeError>(
                shape_of(normalized(query@)),
            ),
    {
        if self.client.is_none() {
            return Err(BridgeError::NotConnected);
        }
        if self.selected_db.is_none() {
            return Err(BridgeError::NoDatabaseSelected);
        }
        Ok(classify(query))
    }
}

/// The query that lists the server's databases, templates left out.
pub fn database_list_query() -> (r: String)
    ensures
        r@ == "SELECT datname FROM pg_database WHERE datistemplate = false"@,
{
    String::from_str("SELECT datname FROM pg_database WHERE datistemplate = false")
}

/// The catalog queries run after a database switch.
pub fn catalog_queries() -> (r: CatalogQueries)
    ensures
        (r.tables@, r.procedures@, r.views@, r.functions@) == catalog_texts(),
{
    CatalogQueries {
        tables: String::from_str(
            "SELECT table_name FROM information_schema.tables WHERE table_schema = 'public'",
        ),
        procedures: String::from_str(
            "SELECT routine_name FROM information_schema.routines WHERE routine_type = 'PROCEDURE' AND routine_schema = 'public'",
        ),
        views: String::from_str(
            "SELECT table_name FROM information_schema.views WHERE table_schema = 'public'",
        ),
        functions: String::from_str(
            "SELECT routine_name FROM information_schema.routines WHERE routine_type = 'FUNCTION' AND routine_schema = 'public'",
        ),
    }
}

/// A second connect replaces the first whole: client and descriptor are the
/// new ones, no selection survives, and the state is the same as if the first
/// connect had never happened.
pub proof fn lemma_reconnect_replaces<C>(
    v: SessionView<C>,
    first: C,
    first_descriptor: Seq<char>,
    second: C,
    second_descriptor: Seq<char>,
)
    ensures
        after_connect(after_connect(v, first, first_descriptor), second, second_descriptor)
            == after_connect(v, second, second_descriptor),
        after_connect(after_connect(v, first, first_descriptor), second, second_descriptor) == (
        Some(second), Some(second_descriptor), None::<Seq<char>>),
{
}

/// Whatever came before, a connect leaves a client and no selection, so a
/// query right after it is refused for want of a database.
pub proof fn lemma_connect_clears_selection<C>(v: SessionView<C>, client: C, descriptor: Seq<char>)
    ensures
        after_connect(v, client, descriptor).0 is Some,
        after_connect(v, client, descriptor).2 is None,
{
}

/// One database is active at a time: a switch leaves exactly the new client,
/// its descriptor and the new name, whatever was selected before.
pub proof fn lemma_switch_is_whole<C>(
    v: SessionView<C>,
    c1: C,
    d1: Seq<char>,
    first: Seq<char>,
    c2: C,
    d2: Seq<char>,
    second: Seq<char>,
)
    ensures
        after_switch(after_switch(v, c1, d1, first), c2, d2, second) == after_switch(
            v,
            c2,
            d2,
            second,
        ),
        after_switch(v, c1, d1, first).2 == Some(first),
{
}

} // verus!
