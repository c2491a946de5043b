//! Error classifier: maps a database or pool failure, observed as plain
//! values, onto the fixed taxonomy of request outcomes, and builds the
//! machine-readable error bodies. Raw database error text never reaches an
//! error body: a query failure gets a generic message.

use vstd::prelude::*;

verus! {

/// The fixed taxonomy of failed request outcomes.
#[derive(Clone, Copy, Debug, PartialEq, Eq, Structural)]
pub enum ErrorKind {
    /// The target table is not in the registry, or the database reported
    /// that the relation does not exist (the registry grew stale).
    UnknownTable,
    /// A lookup-by-id ran but selected no row.
    RowNotFound,
    /// Any other database-reported failure.
    QueryFailed,
    /// The pool could not yield a connection at all.
    ConnectionUnavailable,
}

/// A failure as the front door observed it, reduced to plain values.
pub enum DbFailure {
    /// The pool yielded no connection.
    Unavailable,
    /// The database reported an error, with its SQLSTATE code if it carried
    /// one.
    Query { sqlstate: Option<String> },
}

/// A machine-readable error kind with a human-readable message.
#[derive(Debug)]
pub struct ErrorBody {
    pub kind: ErrorKind,
    pub message: String,
}

/// The classification of a failure: SQLSTATE `42P01` (undefined table) means
/// the relation vanished after the registry was built; `P0002` (no data
/// found) means a lookup selected nothing; any other database report is a
/// plain query failure; and a pool failure is infrastructure, kept distinct
/// from query failures.
pub open spec fn classify_spec(f: DbFailure) -> ErrorKind {
    match f {
        DbFailure::Unavailable => ErrorKind::ConnectionUnavailable,
        DbFailure::Query { sqlstate } => match sqlstate {
            Some(code) => if code@ == "42P01"@ {
                ErrorKind::UnknownTable
            } else if code@ == "P0002"@ {
                ErrorKind::RowNotFound
            } else {
                ErrorKind::QueryFailed
            },
            None => ErrorKind::QueryFailed,
        },
    }
}

/// Classify an observed failure.
pub fn classify(f: &DbFailure) -> (k: ErrorKind)
    ensures
        k == classify_spec(*f),
{
    match f {
        DbFailure::Unavailable => ErrorKind::ConnectionUnavailable,
        DbFailure::Query { sqlstate } => match sqlstate {
            Some(code) => {
                let undefined_table = String::from_str("42P01");
                let no_data_found = String::from_str("P0002");
                if *code == undefined_table {
                    ErrorKind::UnknownTable
                } else if *code == no_data_found {
                    ErrorKind::RowNotFound
                } else {
                    ErrorKind::QueryFailed
                }
            },
            None => ErrorKind::QueryFailed,
        },
    }
}

/// The HTTP status that each outcome kind maps to: the two client errors are
/// 404, the two infrastructure errors 500.
pub fn status_of(kind: ErrorKind) -> (s: u16)
    ensures
        kind == ErrorKind::UnknownTable || kind == ErrorKind::RowNotFound ==> s == 404,
        kind == ErrorKind::QueryFailed || kind == ErrorKind::ConnectionUnavailable ==> s == 500,
{
    match kind {
        ErrorKind::UnknownTable => 404,
        ErrorKind::RowNotFound => 404,
        ErrorKind::QueryFailed => 500,
        ErrorKind::ConnectionUnavailable => 500,
    }
}

/// The machine-readable name of each outcome kind, for the public error body.
pub fn kind_name(kind: ErrorKind) -> (r: &'static str)
    ensures
        kind == ErrorKind::UnknownTable ==> r@ == "UnknownTable"@,
        kind == ErrorKind::RowNotFound ==> r@ == "RowNotFound"@,
        kind == ErrorKind::QueryFailed ==> r@ == "QueryFailed"@,
        kind == ErrorKind::ConnectionUnavailable ==> r@ == "ConnectionUnavailable"@,
{
    match kind {
        ErrorKind::UnknownTable => "UnknownTable",
        ErrorKind::RowNotFound => "RowNotFound",
        ErrorKind::QueryFailed => "QueryFailed",
        ErrorKind::ConnectionUnavailable => "ConnectionUnavailable",
    }
}

/// The message of an `UnknownTable` body for a table name.
pub open spec fn unknown_table_message(table: Seq<char>) -> Seq<char> {
    "Table '"@ + table + "' not found"@
}

/// The message of a `RowNotFound` body for an id rendering and a table name.
pub open spec fn row_not_found_message(id: Seq<char>, table: Seq<char>) -> Seq<char> {
    "No row found with id '"@ + id + "' in table '"@ + table + "'"@
}

/// The generic message of a `QueryFailed` body; internal database detail
/// stays out of the public body.
pub open spec fn query_failed_message() -> Seq<char> {
    "An error occurred while querying the database"@
}

/// The generic message of a `QueryFailed` body raised by the count step of a
/// paged list.
pub open spec fn count_failed_message() -> Seq<char> {
    "An error occurred while counting rows in the database"@
}

/// The message of a `ConnectionUnavailable` body.
pub open spec fn connection_failed_message() -> Seq<char> {
    "Failed to get database connection"@
}

/// Build the `UnknownTable` error body for a table name.
pub fn unknown_table_error(table: &str) -> (e: ErrorBody)
    ensures
        e.kind == ErrorKind::UnknownTable,
        e.message@ == unknown_table_message(table@),
{
    let m = String::from_str("Table '");
    let m = m.concat(table);
    let message = m.concat("' not found");
    ErrorBody { kind: ErrorKind::UnknownTable, message }
}

/// Build the `RowNotFound` error body for an already-rendered id and a table
/// name.
pub fn row_not_found_error(id: &str, table: &str) -> (e: ErrorBody)
    ensures
        e.kind == ErrorKind::RowNotFound,
        e.message@ == row_not_found_message(id@, table@),
{
    let m = String::from_str("No row found with id '");
    let m = m.concat(id);
    let m = m.concat("' in table '");
    let m = m.concat(table);
    let message = m.concat("'");
    ErrorBody { kind: ErrorKind::RowNotFound, message }
}

} // verus!
