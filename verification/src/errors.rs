//! The domain error taxonomy, and a plain-value model of a driver's native
//! error.
//!
//! The normalizer (`ErrorMap` in `db_helper`) is the single chokepoint that
//! turns a [`NativeError`] into a [`SqlError`]; no other component inspects
//! native error values.

use vstd::prelude::*;

verus! {

/// The closed, cross-backend taxonomy of domain error codes.
///
/// `Failed` is the catch-all; `NotFound` means a one-row fetch matched zero
/// rows; `AlreadyExists` means a uniqueness constraint was violated.
#[derive(Clone, Copy, Debug, PartialEq, Eq, Structural)]
pub enum SqlErrorCode {
    Failed,
    NotFound,
    AlreadyExists,
}

impl Default for SqlErrorCode {
    /// The default code is the catch-all `Failed`.
    fn default() -> (r: Self)
        ensures
            r is Failed,
    {
        SqlErrorCode::Failed
    }
}

/// A domain error: a code from the closed taxonomy plus a diagnostic
/// message. The message is logging-only and never affects classification.
#[derive(Debug)]
pub struct SqlError {
    pub code: SqlErrorCode,
    pub msg: String,
}

impl SqlError {
    /// Builds a domain error carrying `code` and the diagnostic text `msg`.
    pub fn new(code: SqlErrorCode, msg: &str) -> (r: SqlError)
        ensures
            r.code == code,
            r.msg@ == msg@,
    {
        SqlError { code, msg: msg.to_owned() }
    }

    /// The error's code.
    pub fn code(&self) -> (r: SqlErrorCode)
        ensures
            r == self.code,
    {
        self.code
    }

    /// The error's diagnostic message.
    pub fn msg(&self) -> (r: &str)
        ensures
            r@ == self.msg@,
    {
        self.msg.as_str()
    }
}

/// The result type every operation of this crate surfaces.
pub type SqlResult<T> = Result<T, SqlError>;

/// What the core reads of a driver's native error, as plain values.
///
/// `RowNotFound` is the driver's "a one-row fetch matched zero rows";
/// `Database` is an error the backend itself reported, with its native
/// error code when the backend gave one; `Other` is every remaining driver
/// failure (connect, protocol, timeout, ...).
pub enum NativeError {
    RowNotFound,
    Database { code: Option<String> },
    Other,
}

} // verus!
