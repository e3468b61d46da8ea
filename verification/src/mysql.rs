//! The network-engine (MySQL) dialect: its error-normalization strategy,
//! its schema-catalog introspection queries, and engine-specific connect
//! options.
//!
//! MySQL exposes an information schema, so existence checks are `count(*)`
//! queries against the metadata catalog, filtered by schema, table and
//! column or index name; the schema defaults to the current database when
//! the caller omits it.

use vstd::prelude::*;
use vstd::string::StringExecFns;

use crate::db_helper::ErrorMap;
use crate::db_helper::IntrospectionQuery;
use crate::errors::NativeError;
use crate::errors::SqlError;
use crate::errors::SqlErrorCode;
use crate::errors::SqlResult;

verus! {

/// The strategy mapping this backend's native errors onto the domain
/// taxonomy. MySQL identifies a duplicate entry by its granular error
/// number 1062 (its SQLSTATE, `23000`, also covers unrelated constraint
/// violations), so the driver layer hands that number over as the native
/// code and `"1062"` alone normalizes to `AlreadyExists`.
pub struct RawErrorToSqlError;

impl ErrorMap for RawErrorToSqlError {
    open spec fn code_spec(e: NativeError) -> SqlErrorCode {
        match e {
            NativeError::RowNotFound => SqlErrorCode::NotFound,
            NativeError::Database { code } => match code {
                Some(c) => if c@ == "1062"@ {
                    SqlErrorCode::AlreadyExists
                } else {
                    SqlErrorCode::Failed
                },
                None => SqlErrorCode::Failed,
            },
            NativeError::Other => SqlErrorCode::Failed,
        }
    }

    open spec fn msg_spec(e: NativeError, context: Seq<char>) -> Seq<char> {
        match e {
            NativeError::RowNotFound => "not found"@,
            NativeError::Database { code } => match code {
                Some(c) => if c@ == "1062"@ {
                    "already exists"@
                } else {
                    context
                },
                None => context,
            },
            NativeError::Other => ""@,
        }
    }

    fn map(e: NativeError, msg: &str) -> (r: SqlError) {
        match e {
            NativeError::RowNotFound => SqlError::new(SqlErrorCode::NotFound, "not found"),
            NativeError::Database { code } => match code {
                Some(c) => {
                    if c == "1062".to_owned() {
                        SqlError::new(SqlErrorCode::AlreadyExists, "already exists")
                    } else {
                        SqlError::new(SqlErrorCode::Failed, msg)
                    }
                },
                None => SqlError::new(SqlErrorCode::Failed, msg),
            },
            NativeError::Other => SqlError::new(SqlErrorCode::Failed, ""),
        }
    }
}

/// Engine-specific connect options for the network backend, as plain
/// values for the driver layer to apply.
pub struct MySqlOpenOptions {
    pub ssl_disabled: bool,
}

/// The connect options used for pools and standalone connections alike:
/// TLS is disabled.
pub fn open_options() -> (o: MySqlOpenOptions)
    ensures
        o.ssl_disabled,
{
    MySqlOpenOptions { ssl_disabled: true }
}

/// The metadata-catalog query asking whether `column_name` exists on
/// `table_name`: a `count(*)` over `information_schema.columns`, filtered
/// by `db_name` when given and by the current database otherwise.
pub fn column_exists_query(table_name: &str, column_name: &str, db_name: Option<&str>) -> (q: IntrospectionQuery)
    ensures
        db_name is None ==> (
            q.sql@ == "select count(*) as c from information_schema.columns where table_schema = database() and table_name = ? and column_name = ?"@
            && q.params@.len() == 2
            && q.params@[0]@ == table_name@
            && q.params@[1]@ == column_name@),
        db_name matches Some(db) ==> (
            q.sql@ == "select count(*) as c from information_schema.columns where table_schema = ? and table_name = ? and column_name = ?"@
            && q.params@.len() == 3
            && q.params@[0]@ == db@
            && q.params@[1]@ == table_name@
            && q.params@[2]@ == column_name@),
{
    let mut params: Vec<String> = Vec::new();
    match db_name {
        None => {
            params.push(table_name.to_owned());
            params.push(column_name.to_owned());
            IntrospectionQuery {
                sql: "select count(*) as c from information_schema.columns where table_schema = database() and table_name = ? and column_name = ?".to_owned(),
                params,
            }
        },
        Some(db) => {
            params.push(db.to_owned());
            params.push(table_name.to_owned());
            params.push(column_name.to_owned());
            IntrospectionQuery {
                sql: "select count(*) as c from information_schema.columns where table_schema = ? and table_name = ? and column_name = ?".to_owned(),
                params,
            }
        },
    }
}

/// The metadata-catalog query asking whether index `index_name` exists on
/// `table_name`: a `count(*)` over `information_schema.statistics`, with
/// the same schema defaulting as `column_exists_query`.
pub fn index_exists_query(table_name: &str, index_name: &str, db_name: Option<&str>) -> (q: IntrospectionQuery)
    ensures
        db_name is None ==> (
            q.sql@ == "select count(*) as c from information_schema.statistics where table_schema = database() and table_name = ? and index_name = ?"@
            && q.params@.len() == 2
            && q.params@[0]@ == table_name@
            && q.params@[1]@ == index_name@),
        db_name matches Some(db) ==> (
            q.sql@ == "select count(*) as c from information_schema.statistics where table_schema = ? and table_name = ? and index_name = ?"@
            && q.params@.len() == 3
            && q.params@[0]@ == db@
            && q.params@[1]@ == table_name@
            && q.params@[2]@ == index_name@),
{
    let mut params: Vec<String> = Vec::new();
    match db_name {
        None => {
            params.push(table_name.to_owned());
            params.push(index_name.to_owned());
            IntrospectionQuery {
                sql: "select count(*) as c from information_schema.statistics where table_schema = database() and table_name = ? and index_name = ?".to_owned(),
                params,
            }
        },
        Some(db) => {
            params.push(db.to_owned());
            params.push(table_name.to_owned());
            params.push(index_name.to_owned());
            IntrospectionQuery {
                sql: "select count(*) as c from information_schema.statistics where table_schema = ? and table_name = ? and index_name = ?".to_owned(),
                params,
            }
        },
    }
}

/// Interprets the metadata count fetched for `column_exists_query`: the
/// column exists exactly when the count is nonzero. A failed catalog query
/// propagates unchanged.
pub fn is_column_exist(count: SqlResult<i32>) -> (r: SqlResult<bool>)
    ensures
        count matches Ok(c) ==> (r matches Ok(b) && b == (c != 0)),
        count matches Err(e) ==> (r matches Err(e2) && e2 == e),
{
    match count {
        Ok(c) => Ok(c != 0),
        Err(e) => Err(e),
    }
}

/// Interprets the metadata count fetched for `index_exists_query`, exactly
/// as `is_column_exist` does.
pub fn is_index_exist(count: SqlResult<i32>) -> (r: SqlResult<bool>)
    ensures
        count matches Ok(c) ==> (r matches Ok(b) && b == (c != 0)),
        count matches Err(e) ==> (r matches Err(e2) && e2 == e),
{
    match count {
        Ok(c) => Ok(c != 0),
        Err(e) => Err(e),
    }
}

} // verus!
