//! A backend-agnostic SQL access core: a bounded connection pool, a unified
//! connection/transaction abstraction, and an error-normalization layer that
//! maps native driver errors onto a small domain error taxonomy.
//!
//! The driver itself (connect, execute, fetch, begin/commit/rollback) is an
//! external collaborator: this crate holds the decision logic — which slot a
//! pool may grant, where a statement is routed, how a transaction is opened,
//! finalized or rolled back on abandonment, and which domain error each
//! native error becomes — as verified state machines over plain values.

pub mod db_helper;
pub mod errors;
pub mod mysql;
pub mod session;
pub mod sqlite;

pub use errors::NativeError;
pub use errors::SqlError;
pub use errors::SqlErrorCode;
pub use errors::SqlResult;
