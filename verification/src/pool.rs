//! Building the connection pool the worker leases its clients from.
//!
//! Only unencrypted connections exist so far: a request for TLS is refused,
//! never quietly served without it. No connection is opened here; the pool
//! opens them when clients are asked for.

use crate::errors::{CallystoError, ErrorView};
use deadpool_postgres::tokio_postgres::Config;
use deadpool_postgres::{Manager, ManagerConfig, Pool, RecyclingMethod};
use std::str::FromStr;
use vstd::prelude::*;

verus! {

/// The largest pool that can be built on this machine. A pool reserves one
/// slot for each connection when it is built. A slot takes less than 1024
/// bytes, and no reservation may take more than `isize::MAX` bytes, half of
/// what `usize` can count: that leaves room for `usize::MAX / 2048` slots.
pub const MAX_POOL_SIZE: usize = usize::MAX / 2048;

/// `tokio_postgres::Config`, the parsed connection parameters, as an opaque
/// value.
#[verifier::external_type_specification]
#[verifier::external_body]
pub struct ExPgConfig(Config);

/// `deadpool_postgres::Manager`, which opens and recycles the connections of
/// a pool, as an opaque value.
#[verifier::external_type_specification]
#[verifier::external_body]
pub struct ExManager(Manager);

/// `deadpool_postgres::RecyclingMethod`, with its variants.
#[verifier::external_type_specification]
pub struct ExRecyclingMethod(RecyclingMethod);

/// `deadpool_postgres::ManagerConfig`, with its one public field.
#[verifier::external_type_specification]
pub struct ExManagerConfig(ManagerConfig);

/// A `deadpool_postgres::Pool`. The handle is cheap to clone and every clone
/// leases from the same connections.
#[verifier::external_body]
pub struct PgPool {
    /// The pool itself, for the code that leases clients from it.
    pub inner: Pool,
}

/// The number of connections a pool was built to hold at most.
pub uninterp spec fn pool_limit(pool: PgPool) -> nat;

/// Whether `tokio_postgres`, as built for this target, reads `dsn` as
/// connection parameters, in either of the two forms it knows: `key=value`
/// pairs or a `postgres://` URL. A few options exist on some targets only.
pub uninterp spec fn dsn_accepted(dsn: Seq<char>) -> bool;

/// `<tokio_postgres::Config as FromStr>::from_str`. Succeeds exactly on the
/// descriptors named by [`dsn_accepted`]. Every failure of the parser is of
/// the kind that displays as the text given here.
#[verifier::external_body]
pub(crate) fn parse_dsn(dsn: &str) -> (parsed: Result<Config, String>)
    ensures
        parsed is Ok <==> dsn_accepted(dsn@),
        parsed matches Err(reason) ==> reason@ == "invalid connection string"@,
{
    match Config::from_str(dsn) {
        Ok(config) => Ok(config),
        Err(e) => Err(e.to_string()),
    }
}

/// `Manager::from_config` with the `NoTls` connector: stores what it is
/// given. Nothing is claimed of the manager.
#[verifier::external_body]
pub(crate) fn plain_manager(config: Config, recycling: ManagerConfig) -> (manager: Manager) {
    Manager::from_config(config, deadpool_postgres::tokio_postgres::NoTls, recycling)
}

/// `Pool::builder(..).max_size(..).build()`. The builder fails only when a
/// timeout is set without a runtime, and none is set here, so the pool is
/// always built, with the limit asked for. Sizes beyond [`MAX_POOL_SIZE`] are
/// left out, because the call panics on them in one of two places: where it
/// reserves the slots with `VecDeque::with_capacity`, which panics on more
/// than `isize::MAX` bytes, and where it makes the pool's semaphore, which
/// panics on more than `usize::MAX >> 3` permits. That the machine has the
/// memory for the slots is, as with any allocation, no part of the contract.
#[verifier::external_body]
pub(crate) fn build_pool(manager: Manager, max_size: usize) -> (built: Result<PgPool, String>)
    requires
        max_size <= MAX_POOL_SIZE,
    ensures
        built is Ok,
        built matches Ok(pool) ==> pool_limit(pool) == max_size,
{
    match Pool::builder(manager).max_size(max_size).build() {
        Ok(inner) => Ok(PgPool { inner }),
        Err(e) => Err(e.to_string()),
    }
}

/// `Pool::clone`: another handle to the same pool.
#[verifier::external_body]
pub(crate) fn share_pool(pool: &PgPool) -> (shared: PgPool)
    ensures
        pool_limit(shared) == pool_limit(*pool),
{
    PgPool { inner: pool.inner.clone() }
}

/// Why a pool cannot be set up from these settings, if it cannot. TLS is
/// looked at first, then the descriptor, then the size, which must be
/// positive and no more than [`MAX_POOL_SIZE`].
pub open spec fn setup_rejection(dsn: Seq<char>, tls: bool, pool_size: nat) -> Option<ErrorView> {
    if tls {
        Some(ErrorView::ConfigError("encrypted connections are not supported"@))
    } else if !dsn_accepted(dsn) {
        Some(ErrorView::ConfigError("invalid connection string"@))
    } else if pool_size == 0 {
        Some(ErrorView::ConfigError("pool size must be positive"@))
    } else if pool_size > MAX_POOL_SIZE {
        Some(ErrorView::ConfigError("pool size is more than a pool can reserve slots for"@))
    } else {
        None
    }
}

/// What a failed build of the pool is reported as.
pub fn pool_failure(reason: String) -> (err: CallystoError)
    ensures
        err@ == ErrorView::GeneralError(reason@),
{
    CallystoError::GeneralError(reason)
}

/// Builds a pool of at most `pool_size` connections to the database that
/// `dsn` describes. Fails with a configuration error on settings it cannot
/// use, and only on those.
pub fn setup_pg(dsn: &str, tls: bool, pool_size: usize) -> (made: Result<PgPool, CallystoError>)
    ensures
        match setup_rejection(dsn@, tls, pool_size as nat) {
            Some(rejection) => made matches Err(err) && err@ == rejection,
            None => made matches Ok(pool) && pool_limit(pool) == pool_size,
        },
{
    if tls {
        return Err(
            CallystoError::ConfigError("encrypted connections are not supported".to_owned()),
        );
    }
    let pg_config = match parse_dsn(dsn) {
        Ok(pg_config) => pg_config,
        Err(reason) => {
            return Err(CallystoError::ConfigError(reason));
        },
    };
    if pool_size == 0 {
        return Err(CallystoError::ConfigError("pool size must be positive".to_owned()));
    }
    if pool_size > MAX_POOL_SIZE {
        return Err(
            CallystoError::ConfigError(
                "pool size is more than a pool can reserve slots for".to_owned(),
            ),
        );
    }
    let mgr_config = ManagerConfig { recycling_method: RecyclingMethod::Fast };
    let mgr = plain_manager(pg_config, mgr_config);
    match build_pool(mgr, pool_size) {
        Ok(pool) => Ok(pool),
        Err(reason) => Err(pool_failure(reason)),
    }
}

} // verus!
