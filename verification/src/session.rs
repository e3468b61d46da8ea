//! A model of one database session as the connection steers it, and the
//! laws the lifecycle logic guarantees over it.
//!
//! The driver session itself lives outside this crate; what the connection
//! abstraction controls is *where* each operation lands: statements are
//! routed into the open transaction whenever one exists, commit makes the
//! transaction's effects durable, rollback and release discard them. This
//! module states those transitions over sequences of opaque statements and
//! proves the guarantees the lifecycle design exists for.

use vstd::prelude::*;

verus! {

/// One session's content: the statements whose effects are durable
/// (`committed`), the statements executed inside the currently open
/// transaction (`pending`), and whether a transaction is open.
pub struct SessionState<S> {
    pub committed: Seq<S>,
    pub pending: Seq<S>,
    pub trans_open: bool,
}

/// Nothing is ever pending outside an open transaction.
pub open spec fn sess_wf<S>(s: SessionState<S>) -> bool {
    !s.trans_open ==> s.pending == Seq::<S>::empty()
}

/// Executing a statement: it lands in the open transaction when one
/// exists — never directly on the session, preserving atomicity — and is
/// applied durably otherwise.
pub open spec fn sess_execute<S>(s: SessionState<S>, stmt: S) -> SessionState<S> {
    if s.trans_open {
        SessionState { committed: s.committed, pending: s.pending.push(stmt), trans_open: true }
    } else {
        SessionState { committed: s.committed.push(stmt), pending: s.pending, trans_open: false }
    }
}

/// Beginning a transaction on a session with none open.
pub open spec fn sess_begin<S>(s: SessionState<S>) -> SessionState<S>
    recommends
        !s.trans_open,
{
    SessionState { committed: s.committed, pending: Seq::empty(), trans_open: true }
}

/// Committing: the open transaction's pending effects become durable, in
/// order. With no open transaction this is the identity — the successful
/// no-op.
pub open spec fn sess_commit<S>(s: SessionState<S>) -> SessionState<S> {
    if s.trans_open {
        SessionState { committed: s.committed + s.pending, pending: Seq::empty(), trans_open: false }
    } else {
        s
    }
}

/// Rolling back: the open transaction's pending effects are discarded.
/// With no open transaction this too is the identity.
pub open spec fn sess_rollback<S>(s: SessionState<S>) -> SessionState<S> {
    if s.trans_open {
        SessionState { committed: s.committed, pending: Seq::empty(), trans_open: false }
    } else {
        s
    }
}

/// Releasing the connection that owns the session: a still-open
/// transaction is rolled back as part of release — never committed, never
/// left open against a session another lessee could reuse.
pub open spec fn sess_release<S>(s: SessionState<S>) -> SessionState<S> {
    sess_rollback(s)
}

/// What a query against the session observes: the durable effects plus,
/// within an open transaction, that transaction's own pending effects.
pub open spec fn observable<S>(s: SessionState<S>) -> Seq<S> {
    s.committed + s.pending
}

/// Law: while a transaction is open, every executed statement lands in its
/// pending effects and none reaches the durable state directly — the
/// routing invariant that keeps the unit of work atomic.
pub proof fn lemma_routed_execute_is_pending<S>(s: SessionState<S>, stmt: S)
    requires
        s.trans_open,
    ensures
        sess_execute(s, stmt).committed == s.committed,
        sess_execute(s, stmt).pending == s.pending.push(stmt),
{
}

/// Law: finalizing with no open transaction is a successful no-op — both
/// commit and rollback leave the session exactly as it was.
pub proof fn lemma_finalize_without_transaction<S>(s: SessionState<S>)
    requires
        !s.trans_open,
    ensures
        sess_commit(s) == s,
        sess_rollback(s) == s,
{
}

/// Law: beginning a transaction, executing a statement, then rolling back
/// leaves the statement's effect unobservable; committing instead makes it
/// observable, appended to what was observable before.
pub proof fn lemma_transaction_atomicity<S>(s: SessionState<S>, stmt: S)
    requires
        sess_wf(s),
        !s.trans_open,
    ensures
        observable(sess_rollback(sess_execute(sess_begin(s), stmt))) == observable(s),
        observable(sess_commit(sess_execute(sess_begin(s), stmt))) == observable(s).push(stmt),
{
    assert(observable(sess_rollback(sess_execute(sess_begin(s), stmt))) =~= observable(s));
    assert(observable(sess_commit(sess_execute(sess_begin(s), stmt))) =~= observable(s).push(
        stmt,
    ));
}

/// Law: after release, no transaction is open and nothing of it survives —
/// whatever lessee acquires the session next observes exactly the durable
/// effects from before the release, and never a pending mutation.
pub proof fn lemma_release_discards_pending<S>(s: SessionState<S>)
    requires
        sess_wf(s),
    ensures
        !sess_release(s).trans_open,
        sess_release(s).committed == s.committed,
        observable(sess_release(s)) == s.committed,
        sess_wf(sess_release(s)),
{
    assert(observable(sess_release(s)) =~= s.committed);
}

} // verus!
