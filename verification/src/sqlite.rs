//! The embedded-engine (SQLite) dialect: its error-normalization strategy
//! and its self-describing-catalog introspection queries.
//!
//! SQLite exposes no information schema; existence checks query the
//! `sqlite_master` catalog for the table's stored definition text and
//! pattern-match the name inside it — a documented weak heuristic that
//! treats any query failure as "does not exist".

use vstd::prelude::*;
use vstd::string::StringExecFns;

use crate::db_helper::ErrorMap;
use crate::db_helper::IntrospectionQuery;
use crate::errors::NativeError;
use crate::errors::SqlError;
use crate::errors::SqlErrorCode;
use crate::errors::SqlResult;

verus! {

/// The journal (durability) mode an embedded database may be opened with.
#[derive(Clone, Copy, Debug, PartialEq, Eq, Structural)]
pub enum SqliteJournalMode {
    Delete,
    Truncate,
    Persist,
    Memory,
    Wal,
    Off,
}

/// Engine-specific connect options for the embedded backend, as plain
/// values for the driver layer to apply.
pub struct SqliteOpenOptions {
    pub busy_timeout_secs: u64,
    pub create_if_missing: bool,
    pub journal_mode: Option<SqliteJournalMode>,
}

/// The connect options a pool opens its databases with: a 300-second busy
/// timeout, a database file created when missing, and the caller's journal
/// mode when one was given.
pub fn pool_open_options(journal_mode: Option<SqliteJournalMode>) -> (o: SqliteOpenOptions)
    ensures
        o.busy_timeout_secs == 300,
        o.create_if_missing,
        o.journal_mode == journal_mode,
{
    SqliteOpenOptions { busy_timeout_secs: 300, create_if_missing: true, journal_mode }
}

/// The connect options for a standalone connection: the same busy timeout,
/// but an absent database is an error rather than created.
pub fn connection_open_options() -> (o: SqliteOpenOptions)
    ensures
        o.busy_timeout_secs == 300,
        !o.create_if_missing,
        o.journal_mode is None,
{
    SqliteOpenOptions { busy_timeout_secs: 300, create_if_missing: false, journal_mode: None }
}

/// The strategy mapping this backend's native errors onto the domain
/// taxonomy. SQLite reports uniqueness violations under two extended
/// result codes: `"1555"` (a primary-key constraint) and `"2067"` (a
/// unique-index constraint); both normalize to `AlreadyExists`.
pub struct RawErrorToSqlError;

/// Whether a native code string is one of SQLite's uniqueness-violation
/// codes.
pub open spec fn is_sqlite_unique_violation(c: Seq<char>) -> bool {
    c == "1555"@ || c == "2067"@
}

impl ErrorMap for RawErrorToSqlError {
    open spec fn code_spec(e: NativeError) -> SqlErrorCode {
        match e {
            NativeError::RowNotFound => SqlErrorCode::NotFound,
            NativeError::Database { code } => match code {
                Some(c) => if is_sqlite_unique_violation(c@) {
                    SqlErrorCode::AlreadyExists
                } else {
                    SqlErrorCode::Failed
                },
                None => SqlErrorCode::Failed,
            },
            NativeError::Other => SqlErrorCode::Failed,
        }
    }

    open spec fn msg_spec(e: NativeError, context: Seq<char>) -> Seq<char> {
        match e {
            NativeError::RowNotFound => "not found"@,
            NativeError::Database { code } => match code {
                Some(c) => if is_sqlite_unique_violation(c@) {
                    "already exists"@
                } else {
                    context
                },
                None => context,
            },
            NativeError::Other => ""@,
        }
    }

    fn map(e: NativeError, msg: &str) -> (r: SqlError) {
        match e {
            NativeError::RowNotFound => SqlError::new(SqlErrorCode::NotFound, "not found"),
            NativeError::Database { code } => match code {
                Some(c) => {
                    if c == "1555".to_owned() || c == "2067".to_owned() {
                        SqlError::new(SqlErrorCode::AlreadyExists, "already exists")
                    } else {
                        SqlError::new(SqlErrorCode::Failed, msg)
                    }
                },
                None => SqlError::new(SqlErrorCode::Failed, msg),
            },
            NativeError::Other => SqlError::new(SqlErrorCode::Failed, ""),
        }
    }
}

/// The catalog query asking whether `column_name` exists on `table_name`:
/// fetch the table's stored definition text and pattern-match the column
/// name inside it. The schema argument of the portable contract is
/// meaningless here and ignored.
pub fn column_exists_query(table_name: &str, column_name: &str, _db_name: Option<&str>) -> (q: IntrospectionQuery)
    ensures
        q.sql@ == "select * from sqlite_master where type='table' and tbl_name=?1 and sql like ?2"@,
        q.params@.len() == 2,
        q.params@[0]@ == table_name@,
        q.params@[1]@ == "%"@ + column_name@ + "%"@,
{
    let mut pattern = "%".to_owned();
    pattern.append(column_name);
    pattern.append("%");
    let mut params: Vec<String> = Vec::new();
    params.push(table_name.to_owned());
    params.push(pattern);
    IntrospectionQuery {
        sql: "select * from sqlite_master where type='table' and tbl_name=?1 and sql like ?2".to_owned(),
        params,
    }
}

/// The catalog query asking whether index `index_name` exists on
/// `table_name`, looked up by name in `sqlite_master`. The schema argument
/// is ignored as above.
pub fn index_exists_query(table_name: &str, index_name: &str, _db_name: Option<&str>) -> (q: IntrospectionQuery)
    ensures
        q.sql@ == "select * from sqlite_master where type='index' and tbl_name=?1 and name=?2"@,
        q.params@.len() == 2,
        q.params@[0]@ == table_name@,
        q.params@[1]@ == index_name@,
{
    let mut params: Vec<String> = Vec::new();
    params.push(table_name.to_owned());
    params.push(index_name.to_owned());
    IntrospectionQuery {
        sql: "select * from sqlite_master where type='index' and tbl_name=?1 and name=?2".to_owned(),
        params,
    }
}

/// Interprets the one-row fetch of `column_exists_query`: the column exists
/// exactly when the fetch succeeded. Any failure — genuine absence or an
/// unrelated error — counts as "does not exist" (the documented heuristic).
pub fn is_column_exist<R>(fetch: &SqlResult<R>) -> (r: bool)
    ensures
        r == (fetch is Ok),
{
    fetch.is_ok()
}

/// Interprets the one-row fetch of `index_exists_query`, with the same
/// failure-means-absent heuristic as `is_column_exist`.
pub fn is_index_exist<R>(fetch: &SqlResult<R>) -> (r: bool)
    ensures
        r == (fetch is Ok),
{
    fetch.is_ok()
}

} // verus!
