//! Handles on a database that may also be absent (an in-memory stand-in),
//! the errors of getting a connection, and the connection settings.
use vstd::prelude::*;

verus! {

/// A pool of connections, or none for a database kept in memory.
#[derive(Debug, Clone)]
pub struct Db<D> {
    pub pg: Option<D>,
}

/// An owned connection taken from the pool, or none.
#[derive(Debug)]
pub struct ConnOwned<C> {
    pub pg: Option<C>,
}

/// A borrowed view of a connection or of a transaction, or none.
#[derive(Debug)]
pub struct Conn<'a, C> {
    pub pg: Option<&'a C>,
}

/// A transaction, or none.
#[derive(Debug)]
pub struct Trans<T> {
    pub pg: Option<T>,
}

impl<D> Db<D> {
    pub fn new_memory() -> (r: Db<D>)
        ensures
            r.pg is None,
    {
        Db { pg: None }
    }

    /// A database backed by the pool `pg`.
    pub fn with_pool(pg: D) -> (r: Db<D>)
        ensures
            r.pg == Some(pg),
    {
        Db { pg: Some(pg) }
    }

    pub fn is_memory(&self) -> (r: bool)
        ensures
            r == self.pg is None,
    {
        self.pg.is_none()
    }
}

impl<C> ConnOwned<C> {
    pub fn new(pg: Option<C>) -> (r: ConnOwned<C>)
        ensures
            r.pg == pg,
    {
        ConnOwned { pg }
    }

    /// A view of the connection, absent when the connection is.
    pub fn conn(&self) -> (r: Conn<'_, C>)
        ensures
            r.pg is Some <==> self.pg is Some,
            r.pg is Some ==> *r.pg->0 == self.pg->0,
    {
        Conn { pg: self.pg.as_ref() }
    }
}

impl<'a, C> Conn<'a, C> {
    /// A view of no connection.
    pub fn new_memory() -> (r: Conn<'a, C>)
        ensures
            r.pg is None,
    {
        Conn { pg: None }
    }

    /// The connection itself; there must be one.
    pub fn pg(self) -> (r: &'a C)
        requires
            self.pg is Some,
        ensures
            *r == *self.pg->0,
    {
        self.pg.unwrap()
    }

    pub fn is_memory(&self) -> (r: bool)
        ensures
            r == self.pg is None,
    {
        self.pg.is_none()
    }
}

impl<T> Trans<T> {
    pub fn new(pg: Option<T>) -> (r: Trans<T>)
        ensures
            r.pg == pg,
    {
        Trans { pg }
    }

    /// A view of the transaction's connection, absent when it is.
    pub fn conn(&self) -> (r: Conn<'_, T>)
        ensures
            r.pg is Some <==> self.pg is Some,
            r.pg is Some ==> *r.pg->0 == self.pg->0,
    {
        Conn { pg: self.pg.as_ref() }
    }
}

/// Which wait of the pool ran out of time.
#[derive(Debug, Clone, Copy, PartialEq, Eq, Structural)]
pub enum TimeoutKind {
    Wait,
    Create,
    Recycle,
}

/// Why the pool gave no connection.
#[derive(Debug, Clone, PartialEq)]
pub enum PoolFailure {
    Timeout(TimeoutKind),
    Backend(String),
    Closed,
    Other(String),
}

/// The errors of the database layer.
#[derive(Debug, Clone, PartialEq)]
pub enum DatabaseError {
    /// The connection settings are invalid.
    Config(String),
    /// No connection became free in time; trying again may succeed.
    Timeout(TimeoutKind),
    /// The connection to the server failed; a new connection is needed.
    Connection(String),
    /// The pool was closed.
    PoolClosed,
    /// The server refused a statement.
    Query(String),
    /// A query that expects at most one row found this many.
    Cardinality(usize),
}

impl DatabaseError {
    /// Whether the same request may succeed when tried again.
    pub fn is_retriable(&self) -> (r: bool)
        ensures
            r == self is Timeout,
    {
        match self {
            DatabaseError::Timeout(_) => true,
            _ => false,
        }
    }
}

/// The error for a pool that gave no connection: a timeout stays a timeout,
/// every other failure is one of the connection.
pub fn pool_error(f: PoolFailure) -> (r: DatabaseError)
    ensures
        match f {
            PoolFailure::Timeout(t) => r == DatabaseError::Timeout(t),
            PoolFailure::Backend(m) => r == DatabaseError::Connection(m),
            PoolFailure::Closed => r is PoolClosed,
            PoolFailure::Other(m) => r == DatabaseError::Connection(m),
        },
{
    match f {
        PoolFailure::Timeout(t) => DatabaseError::Timeout(t),
        PoolFailure::Backend(m) => DatabaseError::Connection(m),
        PoolFailure::Closed => DatabaseError::PoolClosed,
        PoolFailure::Other(m) => DatabaseError::Connection(m),
    }
}

/// Connection settings; the migration table is `migrations` unless set.
#[derive(Debug, Clone)]
pub struct Config {
    pub host: Option<String>,
    pub dbname: Option<String>,
    pub user: Option<String>,
    pub password: Option<String>,
    pub migration_table: Option<String>,
}

impl Config {
    pub fn new() -> (r: Config)
        ensures
            r.host is None,
            r.dbname is None,
            r.user is None,
            r.password is None,
            r.migration_table is None,
    {
        Config { host: None, dbname: None, user: None, password: None, migration_table: None }
    }

    pub fn host(self, host: String) -> (r: Config)
        ensures
            r == (Config { host: Some(host), ..self }),
    {
        Config { host: Some(host), ..self }
    }

    pub fn dbname(self, dbname: String) -> (r: Config)
        ensures
            r == (Config { dbname: Some(dbname), ..self }),
    {
        Config { dbname: Some(dbname), ..self }
    }

    pub fn user(self, user: String) -> (r: Config)
        ensures
            r == (Config { user: Some(user), ..self }),
    {
        Config { user: Some(user), ..self }
    }

    pub fn password(self, password: String) -> (r: Config)
        ensures
            r == (Config { password: Some(password), ..self }),
    {
        Config { password: Some(password), ..self }
    }

    pub fn migration_table(self, table: String) -> (r: Config)
        ensures
            r == (Config { migration_table: Some(table), ..self }),
    {
        Config { migration_table: Some(table), ..self }
    }
}

} // verus!
