use sfo_sql::errors::SqlError;
use sfo_sql::errors::SqlErrorCode;
use sfo_sql::errors::SqlResult;
use sfo_sql::mysql;
use sfo_sql::sqlite;

#[test]
fn sqlite_column_query_patterns_the_definition_text() {
    let q = sqlite::column_exists_query("users", "age", None);
    assert_eq!(
        q.sql,
        "select * from sqlite_master where type='table' and tbl_name=?1 and sql like ?2"
    );
    assert_eq!(q.params, vec!["users".to_string(), "%age%".to_string()]);
}

#[test]
fn sqlite_index_query_looks_up_by_name() {
    let q = sqlite::index_exists_query("users", "idx_age", None);
    assert_eq!(
        q.sql,
        "select * from sqlite_master where type='index' and tbl_name=?1 and name=?2"
    );
    assert_eq!(q.params, vec!["users".to_string(), "idx_age".to_string()]);
}

#[test]
fn sqlite_existence_is_fetch_success() {
    let hit: SqlResult<u64> = Ok(1);
    let miss: SqlResult<u64> = Err(SqlError::new(SqlErrorCode::NotFound, "not found"));
    assert!(sqlite::is_column_exist(&hit));
    assert!(!sqlite::is_column_exist(&miss));
    assert!(sqlite::is_index_exist(&hit));
    // The documented heuristic: any failure counts as absent, even one that
    // is not a clean "zero rows".
    let broken: SqlResult<u64> = Err(SqlError::new(SqlErrorCode::Failed, "boom"));
    assert!(!sqlite::is_index_exist(&broken));
}

#[test]
fn mysql_column_query_defaults_to_current_database() {
    let q = mysql::column_exists_query("users", "age", None);
    assert_eq!(
        q.sql,
        "select count(*) as c from information_schema.columns where table_schema = database() and table_name = ? and column_name = ?"
    );
    assert_eq!(q.params, vec!["users".to_string(), "age".to_string()]);
}

#[test]
fn mysql_column_query_filters_by_given_schema() {
    let q = mysql::column_exists_query("users", "age", Some("shop"));
    assert_eq!(
        q.sql,
        "select count(*) as c from information_schema.columns where table_schema = ? and table_name = ? and column_name = ?"
    );
    assert_eq!(
        q.params,
        vec!["shop".to_string(), "users".to_string(), "age".to_string()]
    );
}

#[test]
fn mysql_index_query_uses_statistics_catalog() {
    let q = mysql::index_exists_query("users", "idx_age", Some("shop"));
    assert_eq!(
        q.sql,
        "select count(*) as c from information_schema.statistics where table_schema = ? and table_name = ? and index_name = ?"
    );
    assert_eq!(
        q.params,
        vec!["shop".to_string(), "users".to_string(), "idx_age".to_string()]
    );
}

#[test]
fn mysql_existence_is_nonzero_count() {
    assert_eq!(mysql::is_column_exist(Ok(0)).expect("ok"), false);
    assert_eq!(mysql::is_column_exist(Ok(3)).expect("ok"), true);
    assert_eq!(mysql::is_index_exist(Ok(1)).expect("ok"), true);
    // A failed catalog query propagates on this backend.
    let e = mysql::is_column_exist(Err(SqlError::new(SqlErrorCode::Failed, "boom")))
        .err()
        .expect("must fail");
    assert_eq!(e.code, SqlErrorCode::Failed);
    assert_eq!(e.msg(), "boom");
}

#[test]
fn sqlite_pool_options_create_and_wait() {
    let o = sqlite::pool_open_options(Some(sqlite::SqliteJournalMode::Wal));
    assert_eq!(o.busy_timeout_secs, 300);
    assert!(o.create_if_missing);
    assert_eq!(o.journal_mode, Some(sqlite::SqliteJournalMode::Wal));
    let s = sqlite::connection_open_options();
    assert!(!s.create_if_missing);
    assert_eq!(s.journal_mode, None);
}

#[test]
fn mysql_options_disable_tls() {
    assert!(mysql::open_options().ssl_disabled);
}

#[test]
fn pool_config_uses_recommended_timeouts() {
    let c = sfo_sql::db_helper::SqlPool::<sfo_sql::sqlite::RawErrorToSqlError>::pool_config(7);
    assert_eq!(c.max_connections, 7);
    assert_eq!(c.min_connections, 0);
    assert_eq!(c.acquire_timeout_secs, 300);
    assert_eq!(c.idle_timeout_secs, 300);
}
