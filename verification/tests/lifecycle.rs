use sfo_sql::db_helper::AcquireStep;
use sfo_sql::db_helper::Route;
use sfo_sql::db_helper::SqlConnection;
use sfo_sql::db_helper::SqlConnectionType;
use sfo_sql::db_helper::SqlPool;
use sfo_sql::db_helper::TransactionFinalize;
use sfo_sql::errors::NativeError;
use sfo_sql::errors::SqlErrorCode;
use sfo_sql::errors::SqlResult;
use sfo_sql::sqlite::RawErrorToSqlError;

type Pool = SqlPool<RawErrorToSqlError>;
type Conn = SqlConnection<RawErrorToSqlError>;

fn fresh_pool(max: u32) -> Pool {
    SqlPool::open("sqlite://test.db", max, Ok(()), "open").expect("open pool")
}

fn leased_conn(pool: &mut Pool) -> Conn {
    assert_eq!(pool.acquire_step(), AcquireStep::Granted);
    pool.get_conn(Ok(()), "acquire").expect("get_conn")
}

#[test]
fn pool_open_starts_empty() {
    let pool = fresh_pool(4);
    assert_eq!(pool.max_connections, 4);
    assert_eq!(pool.leased, 0);
    assert_eq!(pool.uri, "sqlite://test.db");
}

#[test]
fn pool_open_failure_is_failed() {
    let r: SqlResult<Pool> = SqlPool::open("bad uri", 4, Err(NativeError::Other), "open");
    let e = r.err().expect("must fail");
    assert_eq!(e.code, SqlErrorCode::Failed);
}

#[test]
fn pool_grants_at_most_max_connections() {
    let mut pool = fresh_pool(2);
    assert_eq!(pool.acquire_step(), AcquireStep::Granted);
    assert_eq!(pool.acquire_step(), AcquireStep::Granted);
    // The (N+1)th concurrent acquisition must wait and changes nothing.
    assert_eq!(pool.acquire_step(), AcquireStep::MustWait);
    assert_eq!(pool.leased, 2);
    // Releasing one slot frees it for the waiter.
    pool.put_back();
    assert_eq!(pool.acquire_step(), AcquireStep::Granted);
    assert_eq!(pool.leased, 2);
}

#[test]
fn pool_acquire_timeout_is_failed() {
    let mut pool = fresh_pool(1);
    assert_eq!(pool.acquire_step(), AcquireStep::Granted);
    assert_eq!(pool.acquire_step(), AcquireStep::MustWait);
    let e = pool.acquire_timed_out("acquire timed out");
    assert_eq!(e.code, SqlErrorCode::Failed);
    assert_eq!(e.msg(), "acquire timed out");
}

#[test]
fn pool_failed_driver_acquire_returns_slot() {
    let mut pool = fresh_pool(1);
    assert_eq!(pool.acquire_step(), AcquireStep::Granted);
    let r = pool.get_conn(Err(NativeError::Other), "acquire");
    assert_eq!(r.err().expect("must fail").code, SqlErrorCode::Failed);
    assert_eq!(pool.leased, 0);
}

#[test]
fn leased_connection_is_pool_tagged_and_transaction_free() {
    let mut pool = fresh_pool(1);
    let conn = leased_conn(&mut pool);
    assert_eq!(conn.conn, SqlConnectionType::PoolConn);
    assert!(conn.trans.is_none());
}

#[test]
fn granted_connections_carry_fresh_ids() {
    let mut pool = fresh_pool(2);
    let a = leased_conn(&mut pool);
    let b = leased_conn(&mut pool);
    assert_eq!(a.id, 0);
    assert_eq!(b.id, 1);
    assert_eq!(pool.next_conn_id, 2);
}

#[test]
fn standalone_open_is_conn_tagged() {
    let conn = Conn::open(Ok(()), "open").expect("open");
    assert_eq!(conn.conn, SqlConnectionType::Conn);
    assert!(conn.trans.is_none());
}

#[test]
fn standalone_open_failure_is_failed() {
    let r: SqlResult<Conn> = Conn::open(Err(NativeError::Other), "open");
    assert_eq!(r.err().expect("must fail").code, SqlErrorCode::Failed);
}

#[test]
fn statements_route_through_open_transaction() {
    let mut conn = Conn::open(Ok(()), "open").expect("open");
    assert_eq!(conn.statement_route(), Route::Session);
    conn.begin_transaction().expect("may begin");
    conn.begin_transaction_apply(Ok(()), "begin").expect("begin");
    assert_eq!(conn.statement_route(), Route::ActiveTransaction);
    assert_eq!(conn.rollback_transaction(), TransactionFinalize::Finalize);
    assert_eq!(conn.statement_route(), Route::Session);
}

#[test]
fn second_begin_is_rejected() {
    let mut conn = Conn::open(Ok(()), "open").expect("open");
    conn.begin_transaction().expect("may begin");
    conn.begin_transaction_apply(Ok(()), "begin").expect("begin");
    let e = conn.begin_transaction().err().expect("must reject");
    assert_eq!(e.code, SqlErrorCode::Failed);
    assert_eq!(e.msg(), "transaction already open");
    // The open transaction is untouched by the rejected attempt.
    assert!(conn.trans.is_some());
}

#[test]
fn failed_driver_begin_leaves_no_transaction() {
    let mut conn = Conn::open(Ok(()), "open").expect("open");
    conn.begin_transaction().expect("may begin");
    let e = conn
        .begin_transaction_apply(Err(NativeError::Other), "begin")
        .err()
        .expect("must fail");
    assert_eq!(e.code, SqlErrorCode::Failed);
    assert!(conn.trans.is_none());
}

#[test]
fn commit_without_transaction_is_noop_success() {
    let mut conn = Conn::open(Ok(()), "open").expect("open");
    let step = conn.commit_transaction();
    assert_eq!(step, TransactionFinalize::NotOpen);
    let r = Conn::transaction_finish(step, None, "commit");
    assert!(r.is_ok());
}

#[test]
fn rollback_without_transaction_is_noop_success() {
    let mut conn = Conn::open(Ok(()), "open").expect("open");
    let step = conn.rollback_transaction();
    assert_eq!(step, TransactionFinalize::NotOpen);
    let r = Conn::transaction_finish(step, None, "rollback");
    assert!(r.is_ok());
}

#[test]
fn commit_clears_transaction_and_driver_outcome_decides() {
    let mut conn = Conn::open(Ok(()), "open").expect("open");
    conn.begin_transaction().expect("may begin");
    conn.begin_transaction_apply(Ok(()), "begin").expect("begin");
    let step = conn.commit_transaction();
    assert_eq!(step, TransactionFinalize::Finalize);
    assert!(conn.trans.is_none());
    let ok = Conn::transaction_finish(step, Some(Ok(())), "commit");
    assert!(ok.is_ok());
    let err = Conn::transaction_finish(TransactionFinalize::Finalize, Some(Err(NativeError::Other)), "commit");
    assert_eq!(err.err().expect("must fail").code, SqlErrorCode::Failed);
}

#[test]
fn release_with_open_transaction_demands_rollback() {
    let mut pool = fresh_pool(1);
    let mut conn = leased_conn(&mut pool);
    conn.begin_transaction().expect("may begin");
    conn.begin_transaction_apply(Ok(()), "begin").expect("begin");
    // Releasing with an open, uncommitted transaction: a driver rollback is
    // owed before the session is reused, and the handle is cleared.
    assert!(conn.release());
    assert!(conn.trans.is_none());
    pool.put_back();
    assert_eq!(pool.leased, 0);
    // A clean connection owes nothing on release.
    let mut clean = leased_conn(&mut pool);
    assert!(!clean.release());
}

#[test]
fn execute_and_queries_pass_success_through() {
    let conn = Conn::open(Ok(()), "open").expect("open");
    let affected: SqlResult<u64> = conn.execute_sql(Ok(3u64), "insert");
    assert_eq!(affected.expect("ok"), 3);
    let row: SqlResult<&str> = conn.query_one(Ok("row"), "select");
    assert_eq!(row.expect("ok"), "row");
    let rows: SqlResult<Vec<&str>> = conn.query_all(Ok(vec!["a", "b"]), "select");
    assert_eq!(rows.expect("ok"), vec!["a", "b"]);
}

#[test]
fn query_one_zero_rows_is_not_found() {
    let conn = Conn::open(Ok(()), "open").expect("open");
    let r: SqlResult<u64> = conn.query_one(Err(NativeError::RowNotFound), "select");
    let e = r.err().expect("must fail");
    assert_eq!(e.code, SqlErrorCode::NotFound);
    assert_eq!(e.msg(), "not found");
}

#[test]
fn query_all_zero_rows_is_empty_not_error() {
    let conn = Conn::open(Ok(()), "open").expect("open");
    let empty: Vec<u64> = Vec::new();
    let rows = conn.query_all(Ok(empty), "select");
    assert_eq!(rows.expect("never an error"), Vec::<u64>::new());
}

#[test]
fn duplicate_insert_on_one_slot_pool() {
    // Scenario: a pool bounded to one connection; the second insert of the
    // same unique key comes back from the backend as native code 1555.
    let mut pool = fresh_pool(1);
    let conn = leased_conn(&mut pool);
    assert_eq!(pool.acquire_step(), AcquireStep::MustWait);
    let first: SqlResult<u64> = conn.execute_sql(Ok(1u64), "insert id 1");
    assert_eq!(first.expect("ok"), 1);
    let second: SqlResult<u64> = conn.execute_sql(
        Err(NativeError::Database { code: Some("1555".to_string()) }),
        "insert id 1 again",
    );
    let e = second.err().expect("must fail");
    assert_eq!(e.code, SqlErrorCode::AlreadyExists);
    assert_eq!(e.msg(), "already exists");
}

#[test]
fn rolled_back_insert_leaves_empty_table() {
    // Scenario: begin, insert, roll back, then fetch everything — the
    // statement went through the transaction, so nothing is observable.
    let mut conn = Conn::open(Ok(()), "open").expect("open");
    conn.begin_transaction().expect("may begin");
    conn.begin_transaction_apply(Ok(()), "begin").expect("begin");
    assert_eq!(conn.statement_route(), Route::ActiveTransaction);
    let inserted: SqlResult<u64> = conn.execute_sql(Ok(1u64), "insert");
    assert!(inserted.is_ok());
    let step = conn.rollback_transaction();
    let rolled = Conn::transaction_finish(step, Some(Ok(())), "rollback");
    assert!(rolled.is_ok());
    let rows: SqlResult<Vec<u64>> = conn.query_all(Ok(Vec::new()), "select all");
    assert_eq!(rows.expect("ok"), Vec::<u64>::new());
}
