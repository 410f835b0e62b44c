//! The errors a bridge call can end in, and their text.
use vstd::prelude::*;

verus! {

/// Why a bridge call failed.
pub enum BridgeError {
    /// The call needs a live connection and there is none.
    NotConnected,
    /// A database switch was asked of a session that holds no connection
    /// descriptor to derive the new one from.
    NoConnectionString,
    /// A query was issued before any database was selected.
    NoDatabaseSelected,
    /// The engine refused the connection descriptor; its message.
    ConnectionFailed(String),
    /// The engine reported an error; its message.
    BackendError(String),
    /// A statement failed; the engine's message.
    QueryFailed(String),
    /// The session's lock could not be taken; the lock's message.
    LockUnavailable(String),
}

/// The single line a caller is shown for an error.
pub open spec fn error_text(e: BridgeError) -> Seq<char> {
    match e {
        BridgeError::NotConnected => "Database not connected"@,
        BridgeError::NoConnectionString => "No connection string available"@,
        BridgeError::NoDatabaseSelected => "No database selected. Please select a database first."@,
        BridgeError::ConnectionFailed(m) => m@,
        BridgeError::BackendError(m) => m@,
        BridgeError::QueryFailed(m) => "Query execution error: "@ + m@,
        BridgeError::LockUnavailable(m) => m@,
    }
}

impl BridgeError {
    /// The text of the error.
    pub fn message(&self) -> (r: String)
        ensures
            r@ == error_text(*self),
    {
        match self {
            BridgeError::NotConnected => String::from_str("Database not connected"),
            BridgeError::NoConnectionString => String::from_str("No connection string available"),
            BridgeError::NoDatabaseSelected => String::from_str(
                "No database selected. Please select a database first.",
            ),
            BridgeError::ConnectionFailed(m) => m.clone(),
            BridgeError::BackendError(m) => m.clone(),
            BridgeError::QueryFailed(m) => {
                let mut r = String::from_str("Query execution error: ");
                r.append(m.as_str());
                r
            },
            BridgeError::LockUnavailable(m) => m.clone(),
        }
    }
}

} // verus!
