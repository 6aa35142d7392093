//! Statements and the kinds of backends and connections.

use crate::value::{views, Value, ValueView};
use vstd::prelude::*;

verus! {

/// The dialect of a database.
#[derive(Clone, Copy, Debug, PartialEq, Eq, Structural)]
pub enum DbBackend {
    MySql,
    Postgres,
    Sqlite,
}

/// What stands behind a connection.
#[derive(Clone, Copy, Debug, PartialEq, Eq, Structural)]
pub enum ConnectionKind {
    /// A MySQL wire connection.
    MySql,
    /// A PostgreSQL wire connection.
    Postgres,
    /// An SQLite connection.
    Sqlite,
    /// An in-memory connection that records statements.
    Mock,
    /// A connection that hands statements to application code.
    Proxy,
    /// No connection.
    Disconnected,
}

impl ConnectionKind {
    /// Whether the connection speaks to a database through a wire driver.
    pub open spec fn spec_is_wire(self) -> bool {
        self is MySql || self is Postgres || self is Sqlite
    }

    /// Whether the connection speaks to a database through a wire driver.
    pub fn is_wire(self) -> (r: bool)
        ensures
            r == self.spec_is_wire(),
    {
        match self {
            ConnectionKind::MySql => true,
            ConnectionKind::Postgres => true,
            ConnectionKind::Sqlite => true,
            _ => false,
        }
    }
}

/// The isolation level of a transaction.
#[derive(Clone, Copy, Debug, PartialEq, Eq, Structural)]
pub enum IsolationLevel {
    RepeatableRead,
    ReadCommitted,
    ReadUncommitted,
    Serializable,
}

/// The access mode of a transaction.
#[derive(Clone, Copy, Debug, PartialEq, Eq, Structural)]
pub enum AccessMode {
    ReadOnly,
    ReadWrite,
}

/// The parameters bound to a statement.
#[derive(Clone, Debug, PartialEq)]
pub struct Values(pub Vec<Value>);

/// A statement: its text, its parameters and its dialect.
#[derive(Clone, Debug, PartialEq)]
pub struct Statement {
    pub sql: String,
    pub values: Option<Values>,
    pub db_backend: DbBackend,
}

/// The mathematical content of a [`Statement`].
pub struct StatementView {
    pub sql: Seq<char>,
    pub values: Option<Seq<ValueView>>,
    pub db_backend: DbBackend,
}

impl View for Statement {
    type V = StatementView;

    open spec fn view(&self) -> StatementView {
        StatementView {
            sql: self.sql@,
            values: match self.values {
                Some(v) => Some(views(v.0@)),
                None => None,
            },
            db_backend: self.db_backend,
        }
    }
}

impl Statement {
    /// A statement without parameters.
    pub fn from_string(db_backend: DbBackend, stmt: &str) -> (r: Statement)
        ensures
            r@ == (StatementView { sql: stmt@, values: None, db_backend }),
    {
        Statement { sql: stmt.to_owned(), values: None, db_backend }
    }

    /// A statement with parameters.
    pub fn from_sql_and_values(db_backend: DbBackend, sql: &str, values: Vec<Value>) -> (r:
        Statement)
        ensures
            r@ == (StatementView { sql: sql@, values: Some(views(values@)), db_backend }),
    {
        Statement { sql: sql.to_owned(), values: Some(Values(values)), db_backend }
    }
}

/// The outcome of a write statement.
#[derive(Clone, Copy, Debug, PartialEq, Eq, Structural)]
pub struct ExecResult {
    pub last_insert_id: u64,
    pub rows_affected: u64,
}

} // verus!
