//! The unified error taxonomy of the store: the distinct failure sources of
//! the backing store (database engine, connection pool, secondary driver,
//! I/O, and a generic upstream channel) collapse into one domain error type.
//! Construction from each concrete failure is a `From` conversion that keeps
//! the original failure as the payload, so no information is discarded.

use vstd::prelude::*;

verus! {

/// Declares `rusqlite::Error`, the database engine's failure type, so that it
/// can stand as an error payload; the library never looks inside a value of it.
#[verifier::external_type_specification]
#[verifier::external_body]
pub struct ExRusqliteError(rusqlite::Error);

/// Declares `r2d2::Error`, the connection pool's failure type.
#[verifier::external_type_specification]
#[verifier::external_body]
pub struct ExPoolError(r2d2::Error);

/// Declares `sqlx::Error`, the secondary driver's failure type.
#[verifier::external_type_specification]
#[verifier::external_body]
pub struct ExSqlxError(sqlx::Error);

/// Declares `std::io::Error`, the underlying I/O failure type.
#[verifier::external_type_specification]
#[verifier::external_body]
pub struct ExIoError(std::io::Error);

/// Everything that can go wrong while talking to the backing store.
///
/// The first three variants wrap a failure of the database engine, of the
/// connection pool, and of the secondary driver path; the three `Sql*` unit
/// variants report the store's own connection lifecycle; `Io` wraps an
/// underlying I/O failure; `Other` carries a generic upstream error through
/// unchanged.
#[derive(Debug)]
pub enum StoreError {
    Sql(rusqlite::Error),
    ConnectionPool(r2d2::Error),
    Sqlx(sqlx::Error),
    SqlNoConnection,
    SqlAlreadyOpen,
    SqlFailedToOpen,
    Io(std::io::Error),
    Other(String),
}

impl vstd::std_specs::convert::FromSpecImpl<rusqlite::Error> for StoreError {
    open spec fn obeys_from_spec() -> bool {
        true
    }

    open spec fn from_spec(e: rusqlite::Error) -> StoreError {
        StoreError::Sql(e)
    }
}

impl From<rusqlite::Error> for StoreError {
    fn from(e: rusqlite::Error) -> (r: StoreError) {
        StoreError::Sql(e)
    }
}

impl vstd::std_specs::convert::FromSpecImpl<r2d2::Error> for StoreError {
    open spec fn obeys_from_spec() -> bool {
        true
    }

    open spec fn from_spec(e: r2d2::Error) -> StoreError {
        StoreError::ConnectionPool(e)
    }
}

impl From<r2d2::Error> for StoreError {
    fn from(e: r2d2::Error) -> (r: StoreError) {
        StoreError::ConnectionPool(e)
    }
}

impl vstd::std_specs::convert::FromSpecImpl<sqlx::Error> for StoreError {
    open spec fn obeys_from_spec() -> bool {
        true
    }

    open spec fn from_spec(e: sqlx::Error) -> StoreError {
        StoreError::Sqlx(e)
    }
}

impl From<sqlx::Error> for StoreError {
    fn from(e: sqlx::Error) -> (r: StoreError) {
        StoreError::Sqlx(e)
    }
}

impl vstd::std_specs::convert::FromSpecImpl<std::io::Error> for StoreError {
    open spec fn obeys_from_spec() -> bool {
        true
    }

    open spec fn from_spec(e: std::io::Error) -> StoreError {
        StoreError::Io(e)
    }
}

impl From<std::io::Error> for StoreError {
    fn from(e: std::io::Error) -> (r: StoreError) {
        StoreError::Io(e)
    }
}

impl vstd::std_specs::convert::FromSpecImpl<String> for StoreError {
    open spec fn obeys_from_spec() -> bool {
        true
    }

    open spec fn from_spec(m: String) -> StoreError {
        StoreError::Other(m)
    }
}

impl From<String> for StoreError {
    fn from(m: String) -> (r: StoreError) {
        StoreError::Other(m)
    }
}

} // verus!
