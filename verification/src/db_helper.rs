//! The connection/transaction lifecycle core and the bounded pool accounting.
//!
//! The driver's own operations (connect, acquire, execute, fetch, begin,
//! commit, rollback) suspend on I/O and live with the embedding program; this
//! module holds every decision around them: whether a pool may grant a slot,
//! where a statement is routed, when a transaction may begin, and how each
//! driver outcome — handed back as a plain [`NativeError`] on failure — turns
//! into the caller-visible result. Each operation is therefore a pair: a
//! *step* that decides and updates the tracked state, and an *apply* (or
//! `*_finish`) that takes the driver's outcome and produces the normalized
//! result.

use vstd::prelude::*;

use crate::errors::NativeError;
use crate::errors::SqlError;
use crate::errors::SqlErrorCode;
use crate::errors::SqlResult;

verus! {

/// The error-normalization strategy: the single chokepoint turning a native
/// driver error plus a call-site context message into a domain error.
///
/// The dispatch that every strategy must obey: a "no rows found" native
/// error becomes `NotFound`; a backend-reported database error becomes
/// `AlreadyExists` (when its native code is the backend's uniqueness
/// violation) or `Failed`; every other native error becomes `Failed`. Which
/// native code means "uniqueness violated" is the strategy's own affair,
/// stated by its `code_spec`.
pub trait ErrorMap {
    /// The domain code this strategy assigns to a native error.
    spec fn code_spec(e: NativeError) -> SqlErrorCode;

    /// The diagnostic message this strategy assigns, given the call-site
    /// context. The message never affects classification.
    spec fn msg_spec(e: NativeError, context: Seq<char>) -> Seq<char>;

    /// Normalizes a native error into a domain error.
    fn map(e: NativeError, msg: &str) -> (r: SqlError)
        ensures
            r.code == Self::code_spec(e),
            r.msg@ == Self::msg_spec(e, msg@),
            e is RowNotFound ==> r.code == SqlErrorCode::NotFound,
            e is Other ==> r.code == SqlErrorCode::Failed,
            e is Database ==> (r.code == SqlErrorCode::AlreadyExists
                || r.code == SqlErrorCode::Failed),
    ;
}

/// Sizing and timeout configuration a pool is opened with.
pub struct PoolConfig {
    pub max_connections: u32,
    pub min_connections: u32,
    pub acquire_timeout_secs: u64,
    pub idle_timeout_secs: u64,
}

/// How a connection was obtained: leased from a pool (returned to it on
/// release) or opened standalone (closed on release).
#[derive(Clone, Copy, Debug, PartialEq, Eq, Structural)]
pub enum SqlConnectionType {
    PoolConn,
    Conn,
}

/// A handle on a connection's open atomic unit of work. It holds only a
/// back-reference to the connection that owns it and never outlives it.
#[derive(Clone, Copy, Debug, PartialEq, Eq, Structural)]
pub struct Transaction {
    pub conn_id: u64,
}

/// Where a statement must run: directly on the underlying session, or
/// within the connection's open transaction.
#[derive(Clone, Copy, Debug, PartialEq, Eq, Structural)]
pub enum Route {
    Session,
    ActiveTransaction,
}

/// What finalizing a transaction (commit or rollback) requires of the
/// driver: nothing, because none was open, or one driver call.
#[derive(Clone, Copy, Debug, PartialEq, Eq, Structural)]
pub enum TransactionFinalize {
    NotOpen,
    Finalize,
}

/// One live session to the database: pool-leased or standalone, holding at
/// most one open transaction.
pub struct SqlConnection<EM: ErrorMap> {
    pub id: u64,
    pub conn: SqlConnectionType,
    pub trans: Option<Transaction>,
    pub _em: core::marker::PhantomData<EM>,
}

impl<EM: ErrorMap> SqlConnection<EM> {
    /// An open transaction always points back at its owning connection.
    pub open spec fn wf(self) -> bool {
        self.trans matches Some(t) ==> t.conn_id == self.id
    }

    /// Finishes opening a standalone connection: `outcome` is what the
    /// driver's connect returned. Standalone connections are not
    /// pool-tracked and carry id 0.
    pub fn open(outcome: Result<(), NativeError>, context: &str) -> (r: SqlResult<Self>)
        ensures
            outcome is Ok ==> (r matches Ok(c) && c.conn is Conn && c.trans is None
                && c.id == 0 && c.wf()),
            outcome matches Err(e) ==> (r matches Err(de)
                && de.code == EM::code_spec(e) && de.msg@ == EM::msg_spec(e, context@)),
    {
        match outcome {
            Ok(()) => Ok(SqlConnection {
                id: 0,
                conn: SqlConnectionType::Conn,
                trans: None,
                _em: core::marker::PhantomData,
            }),
            Err(e) => Err(EM::map(e, context)),
        }
    }

    /// Where a statement issued now must run: through the open transaction
    /// whenever one exists, never directly on the session, so that
    /// atomicity is preserved.
    pub fn statement_route(&self) -> (r: Route)
        ensures
            r is ActiveTransaction <==> self.trans is Some,
    {
        match &self.trans {
            Some(_) => Route::ActiveTransaction,
            None => Route::Session,
        }
    }

    /// Finishes a non-row-returning statement: the driver's result value
    /// passes through untouched; a driver error is normalized with the
    /// call-site context.
    pub fn execute_sql<R>(&self, outcome: Result<R, NativeError>, context: &str) -> (r: SqlResult<R>)
        ensures
            outcome matches Ok(v) ==> (r matches Ok(w) && w == v),
            outcome matches Err(e) ==> (r matches Err(de)
                && de.code == EM::code_spec(e) && de.msg@ == EM::msg_spec(e, context@)),
    {
        match outcome {
            Ok(v) => Ok(v),
            Err(e) => Err(EM::map(e, context)),
        }
    }

    /// Finishes a fetch that expected exactly one row. A driver that found
    /// zero rows reports `RowNotFound`, which always surfaces as `NotFound`;
    /// with two or more matching rows the driver itself picks a row and the
    /// fetch succeeds, so that row passes through untouched.
    pub fn query_one<R>(&self, outcome: Result<R, NativeError>, context: &str) -> (r: SqlResult<R>)
        ensures
            outcome matches Ok(v) ==> (r matches Ok(w) && w == v),
            outcome matches Err(e) ==> (r matches Err(de)
                && de.code == EM::code_spec(e) && de.msg@ == EM::msg_spec(e, context@)),
            (outcome matches Err(e) && e is RowNotFound) ==> (r matches Err(de)
                && de.code == SqlErrorCode::NotFound),
    {
        match outcome {
            Ok(v) => Ok(v),
            Err(e) => Err(EM::map(e, context)),
        }
    }

    /// Finishes a fetch of all matching rows. Zero matching rows is the
    /// empty vector, a success, never an error.
    pub fn query_all<R>(&self, outcome: Result<Vec<R>, NativeError>, context: &str) -> (r: SqlResult<Vec<R>>)
        ensures
            outcome matches Ok(rows) ==> (r matches Ok(rr) && rr == rows),
            outcome matches Err(e) ==> (r matches Err(de)
                && de.code == EM::code_spec(e) && de.msg@ == EM::msg_spec(e, context@)),
    {
        match outcome {
            Ok(rows) => Ok(rows),
            Err(e) => Err(EM::map(e, context)),
        }
    }

    /// Decides whether a transaction may begin now. Only one transaction
    /// may be open per connection: beginning a second is a caller error,
    /// rejected as `Failed` without touching the driver.
    pub fn begin_transaction(&self) -> (r: SqlResult<()>)
        ensures
            r is Ok <==> self.trans is None,
            r matches Err(e) ==> (e.code == SqlErrorCode::Failed
                && e.msg@ == "transaction already open"@),
    {
        match &self.trans {
            None => Ok(()),
            Some(_) => Err(SqlError::new(SqlErrorCode::Failed, "transaction already open")),
        }
    }

    /// Takes the driver's answer to a begin that `begin_transaction`
    /// cleared: on success the connection now owns an open transaction; on
    /// failure it stays transaction-free and the error is normalized.
    pub fn begin_transaction_apply(&mut self, outcome: Result<(), NativeError>, context: &str) -> (r: SqlResult<()>)
        requires
            old(self).trans is None,
        ensures
            final(self).id == old(self).id,
            final(self).conn == old(self).conn,
            final(self).wf(),
            outcome is Ok ==> (r is Ok
                && final(self).trans == Some(Transaction { conn_id: old(self).id })),
            outcome matches Err(e) ==> (r matches Err(de)
                && final(self).trans is None
                && de.code == EM::code_spec(e) && de.msg@ == EM::msg_spec(e, context@)),
    {
        match outcome {
            Ok(()) => {
                self.trans = Some(Transaction { conn_id: self.id });
                Ok(())
            }
            Err(e) => Err(EM::map(e, context)),
        }
    }

    /// Starts committing: if no transaction is open this is already a
    /// successful no-op and the driver is not involved; otherwise the
    /// transaction is taken off the connection and one driver commit is
    /// owed, whose outcome `transaction_finish` turns into the result.
    pub fn commit_transaction(&mut self) -> (r: TransactionFinalize)
        ensures
            final(self).trans is None,
            final(self).id == old(self).id,
            final(self).conn == old(self).conn,
            r is Finalize <==> old(self).trans is Some,
            old(self).trans is None ==> *final(self) == *old(self),
    {
        let r = match &self.trans {
            Some(_) => TransactionFinalize::Finalize,
            None => TransactionFinalize::NotOpen,
        };
        self.trans = None;
        r
    }

    /// Starts rolling back, with the same no-op idempotence as
    /// `commit_transaction`: no open transaction means success with no
    /// driver call.
    pub fn rollback_transaction(&mut self) -> (r: TransactionFinalize)
        ensures
            final(self).trans is None,
            final(self).id == old(self).id,
            final(self).conn == old(self).conn,
            r is Finalize <==> old(self).trans is Some,
            old(self).trans is None ==> *final(self) == *old(self),
    {
        let r = match &self.trans {
            Some(_) => TransactionFinalize::Finalize,
            None => TransactionFinalize::NotOpen,
        };
        self.trans = None;
        r
    }

    /// Turns a finalize step plus the driver's outcome into the operation's
    /// result: a `NotOpen` step already succeeded as a no-op; otherwise the
    /// driver's commit or rollback outcome decides, normalized on failure.
    pub fn transaction_finish(step: TransactionFinalize, outcome: Option<Result<(), NativeError>>, context: &str) -> (r: SqlResult<()>)
        requires
            step is Finalize ==> outcome is Some,
        ensures
            step is NotOpen ==> r is Ok,
            outcome matches Some(o) && o is Ok ==> r is Ok,
            step is Finalize ==> (outcome matches Some(Err(e)) ==> (r matches Err(de)
                && de.code == EM::code_spec(e) && de.msg@ == EM::msg_spec(e, context@))),
    {
        match step {
            TransactionFinalize::NotOpen => Ok(()),
            TransactionFinalize::Finalize => {
                match outcome {
                    Some(Ok(())) => Ok(()),
                    Some(Err(e)) => Err(EM::map(e, context)),
                    None => Ok(()),
                }
            }
        }
    }

    /// Must run on every path that releases the connection — return to the
    /// pool, standalone close, or abandonment. Any still-open transaction
    /// is taken off the connection, and the returned flag says whether one
    /// driver rollback is owed before the session may be reused or closed;
    /// it is never committed and never left dangling.
    pub fn release(&mut self) -> (r: bool)
        ensures
            final(self).trans is None,
            final(self).id == old(self).id,
            final(self).conn == old(self).conn,
            r == (old(self).trans is Some),
    {
        let r = match &self.trans {
            Some(_) => true,
            None => false,
        };
        self.trans = None;
        r
    }
}

/// A dialect's metadata catalog query: literal SQL text plus the values to
/// bind to its placeholders, in placeholder order. The only statements this
/// core writes itself are the two introspection queries of each dialect.
pub struct IntrospectionQuery {
    pub sql: String,
    pub params: Vec<String>,
}

/// What a pool acquisition attempt decided: a slot was granted, or every
/// slot is leased and the caller must wait for a release (or time out).
#[derive(Clone, Copy, Debug, PartialEq, Eq, Structural)]
pub enum AcquireStep {
    Granted,
    MustWait,
}

/// The accounting of a bounded set of reusable connections: how many slots
/// exist, how many are leased out, and the id the next granted connection
/// will carry.
pub struct SqlPool<EM: ErrorMap> {
    pub uri: String,
    pub max_connections: u32,
    pub leased: u32,
    pub next_conn_id: u64,
    pub _em: core::marker::PhantomData<EM>,
}

impl<EM: ErrorMap> SqlPool<EM> {
    /// The pool's invariant: never more connections leased than the bound
    /// it was opened with.
    pub open spec fn wf(self) -> bool {
        self.leased <= self.max_connections
    }

    /// The sizing and timeout configuration every pool is opened with:
    /// the caller's bound, no connections held open when idle, and the
    /// recommended 300-second connect and idle timeouts.
    pub fn pool_config(max_connections: u32) -> (c: PoolConfig)
        ensures
            c.max_connections == max_connections,
            c.min_connections == 0,
            c.acquire_timeout_secs == 300,
            c.idle_timeout_secs == 300,
    {
        PoolConfig {
            max_connections,
            min_connections: 0,
            acquire_timeout_secs: 300,
            idle_timeout_secs: 300,
        }
    }

    /// Finishes opening a pool over `uri`: `outcome` is what the driver's
    /// connect returned for the options built from `pool_config`. A fresh
    /// pool has nothing leased.
    pub fn open(uri: &str, max_connections: u32, outcome: Result<(), NativeError>, context: &str) -> (r: SqlResult<Self>)
        ensures
            outcome is Ok ==> (r matches Ok(p) && p.uri@ == uri@
                && p.max_connections == max_connections && p.leased == 0
                && p.next_conn_id == 0 && p.wf()),
            outcome matches Err(e) ==> (r matches Err(de)
                && de.code == EM::code_spec(e) && de.msg@ == EM::msg_spec(e, context@)),
    {
        match outcome {
            Ok(()) => Ok(SqlPool {
                uri: uri.to_owned(),
                max_connections,
                leased: 0,
                next_conn_id: 0,
                _em: core::marker::PhantomData,
            }),
            Err(e) => Err(EM::map(e, context)),
        }
    }

    /// Decides one acquisition attempt. While fewer than `max_connections`
    /// connections are leased a slot is granted at once; at the bound the
    /// caller must wait, and the pool is left untouched — so at most
    /// `max_connections` connections are ever leased concurrently.
    pub fn acquire_step(&mut self) -> (r: AcquireStep)
        requires
            old(self).wf(),
        ensures
            final(self).wf(),
            final(self).uri == old(self).uri,
            final(self).max_connections == old(self).max_connections,
            old(self).leased < old(self).max_connections ==> (r is Granted
                && final(self).leased == old(self).leased + 1),
            old(self).leased >= old(self).max_connections ==> (r is MustWait
                && *final(self) == *old(self)),
    {
        if self.leased < self.max_connections {
            self.leased = self.leased + 1;
            AcquireStep::Granted
        } else {
            AcquireStep::MustWait
        }
    }

    /// Finishes a granted acquisition: `outcome` is what the driver's
    /// acquire returned. On success the caller receives a pool-leased,
    /// transaction-free connection; on failure the granted slot is given
    /// back and the error is normalized.
    pub fn get_conn(&mut self, outcome: Result<(), NativeError>, context: &str) -> (r: SqlResult<SqlConnection<EM>>)
        requires
            old(self).leased >= 1,
        ensures
            final(self).uri == old(self).uri,
            final(self).max_connections == old(self).max_connections,
            old(self).wf() ==> final(self).wf(),
            outcome is Ok ==> (r matches Ok(c) && c.conn is PoolConn && c.trans is None
                && c.wf() && c.id == old(self).next_conn_id
                && final(self).leased == old(self).leased),
            (outcome is Ok && old(self).next_conn_id < u64::MAX) ==> final(self).next_conn_id
                == old(self).next_conn_id + 1,
            outcome matches Err(e) ==> (r matches Err(de)
                && final(self).leased == old(self).leased - 1
                && de.code == EM::code_spec(e) && de.msg@ == EM::msg_spec(e, context@)),
    {
        match outcome {
            Ok(()) => {
                let id = self.next_conn_id;
                if self.next_conn_id < u64::MAX {
                    self.next_conn_id = self.next_conn_id + 1;
                }
                Ok(SqlConnection {
                    id,
                    conn: SqlConnectionType::PoolConn,
                    trans: None,
                    _em: core::marker::PhantomData,
                })
            }
            Err(e) => {
                self.leased = self.leased - 1;
                Err(EM::map(e, context))
            }
        }
    }

    /// The domain error for an acquisition wait that timed out: `Failed`,
    /// carrying the call-site context. A timed-out waiter was never
    /// granted a slot, so there is nothing to give back.
    pub fn acquire_timed_out(&self, context: &str) -> (e: SqlError)
        ensures
            e.code == SqlErrorCode::Failed,
            e.msg@ == context@,
    {
        SqlError::new(SqlErrorCode::Failed, context)
    }

    /// Takes a released connection's slot back, freeing it for a waiting
    /// acquirer. A release always follows a grant, so something is leased.
    pub fn put_back(&mut self)
        requires
            old(self).leased >= 1,
        ensures
            final(self).leased == old(self).leased - 1,
            final(self).uri == old(self).uri,
            final(self).max_connections == old(self).max_connections,
            final(self).next_conn_id == old(self).next_conn_id,
            old(self).wf() ==> final(self).wf(),
    {
        self.leased = self.leased - 1;
    }
}

} // verus!
