//! The lifecycle of a transaction, as the decisions of a state machine.
//!
//! A transaction is a connection on which a `BEGIN` has been executed. The
//! machine decides what a driver is asked to do and in which order; the
//! driver performs it on the locked connection and reports back.

use crate::database::statement::{
    AccessMode, ConnectionKind, DbBackend, ExecResult, IsolationLevel, Statement, StatementView,
};
use crate::error::{conn_err, DbErr, RuntimeErr};
use crate::executor::query::QueryResult;
use vstd::prelude::*;
use vstd::std_specs::convert::FromSpecImpl;

verus! {

/// What a driver is asked to do on the connection of a transaction.
#[derive(Clone, Copy, Debug, PartialEq, Eq, Structural)]
pub enum TxAction {
    /// Apply the isolation level and the access mode.
    SetConfig { isolation_level: Option<IsolationLevel>, access_mode: Option<AccessMode> },
    /// Open the transaction.
    Begin,
    /// Commit the transaction.
    Commit,
    /// Roll the transaction back and wait for it.
    Rollback,
    /// Queue a rollback without waiting: it is performed with the next use of
    /// the connection.
    StartRollback,
}

/// A failure of a wire driver.
#[derive(Debug)]
pub enum DriverError {
    /// A query that asks for one row found none.
    RowNotFound,
    /// Any other failure, carried as its message.
    Other(String),
}

/// A statement for a driver, with the way it is to be performed.
#[derive(Clone, Debug, PartialEq)]
pub enum DriverCall {
    /// Execute the prepared statement and report the affected rows.
    Execute(Statement),
    /// Execute the text as it is and report the affected rows.
    ExecuteUnprepared(String),
    /// Fetch exactly one row.
    FetchOne(Statement),
    /// Fetch all rows.
    FetchAll(Statement),
}

/// The mathematical content of a [`DriverCall`].
pub enum DriverCallView {
    Execute(StatementView),
    ExecuteUnprepared(Seq<char>),
    FetchOne(StatementView),
    FetchAll(StatementView),
}

impl View for DriverCall {
    type V = DriverCallView;

    open spec fn view(&self) -> DriverCallView {
        match *self {
            DriverCall::Execute(s) => DriverCallView::Execute(s@),
            DriverCall::ExecuteUnprepared(s) => DriverCallView::ExecuteUnprepared(s@),
            DriverCall::FetchOne(s) => DriverCallView::FetchOne(s@),
            DriverCall::FetchAll(s) => DriverCallView::FetchAll(s@),
        }
    }
}

/// The error of a transaction run as a unit of work: either the work
/// failed, and the transaction was rolled back, or the connection failed
/// while the transaction was begun, committed or rolled back.
#[derive(Debug, PartialEq)]
pub enum TransactionError<E> {
    /// The connection failed.
    Connection(DbErr),
    /// The unit of work failed.
    Transaction(E),
}

impl<E> From<DbErr> for TransactionError<E> {
    fn from(e: DbErr) -> (r: Self) {
        TransactionError::Connection(e)
    }
}

impl<E> FromSpecImpl<DbErr> for TransactionError<E> {
    open spec fn obeys_from_spec() -> bool {
        true
    }

    /// An error of the runtime is a failure of the connection.
    open spec fn from_spec(e: DbErr) -> Self {
        TransactionError::Connection(e)
    }
}

/// The steps that open a transaction, in the order that the backend
/// demands: MySQL takes the configuration before `BEGIN`, PostgreSQL inside
/// the transaction, SQLite as a setting of the connection before `BEGIN`;
/// the mock and the proxy take no configuration.
pub open spec fn begin_steps(
    kind: ConnectionKind,
    isolation_level: Option<IsolationLevel>,
    access_mode: Option<AccessMode>,
) -> Seq<TxAction> {
    let config = TxAction::SetConfig { isolation_level, access_mode };
    match kind {
        ConnectionKind::MySql => seq![config, TxAction::Begin],
        ConnectionKind::Postgres => seq![TxAction::Begin, config],
        ConnectionKind::Sqlite => seq![config, TxAction::Begin],
        ConnectionKind::Mock => seq![TxAction::Begin],
        ConnectionKind::Proxy => seq![TxAction::Begin],
        ConnectionKind::Disconnected => Seq::empty(),
    }
}

/// What undoes an open transaction that is dropped: a queued rollback on a
/// wire connection and on the proxy, an immediate one on the mock.
pub open spec fn drop_step(kind: ConnectionKind) -> TxAction {
    match kind {
        ConnectionKind::Mock => TxAction::Rollback,
        _ => TxAction::StartRollback,
    }
}

/// A transaction: the kind of its connection, its dialect and whether it is
/// still open.
#[derive(Debug)]
pub struct DatabaseTransaction {
    kind: ConnectionKind,
    backend: DbBackend,
    open: bool,
}

impl DatabaseTransaction {
    /// The kind of the connection.
    pub closed spec fn kind(&self) -> ConnectionKind {
        self.kind
    }

    /// The dialect of the connection.
    pub closed spec fn backend(&self) -> DbBackend {
        self.backend
    }

    /// Whether neither a commit nor a rollback has succeeded yet.
    pub closed spec fn spec_is_open(&self) -> bool {
        self.open
    }

    /// Open a transaction on a connection. The transaction is open from the
    /// start; the steps are what the driver has to perform, in order, on the
    /// locked connection. Where there is no connection, there are no steps
    /// but an error.
    pub fn begin(
        kind: ConnectionKind,
        backend: DbBackend,
        isolation_level: Option<IsolationLevel>,
        access_mode: Option<AccessMode>,
    ) -> (r: (DatabaseTransaction, Result<Vec<TxAction>, DbErr>))
        ensures
            r.0.kind() == kind,
            r.0.backend() == backend,
            r.0.spec_is_open(),
            match r.1 {
                Ok(steps) => kind != ConnectionKind::Disconnected && steps@ == begin_steps(
                    kind,
                    isolation_level,
                    access_mode,
                ),
                Err(e) => kind == ConnectionKind::Disconnected && e.is_conn_err("Disconnected"@),
            },
    {
        let res = DatabaseTransaction { kind, backend, open: true };
        let config = TxAction::SetConfig { isolation_level, access_mode };
        let steps = match kind {
            ConnectionKind::MySql => Ok(vec![config, TxAction::Begin]),
            ConnectionKind::Postgres => Ok(vec![TxAction::Begin, config]),
            ConnectionKind::Sqlite => Ok(vec![config, TxAction::Begin]),
            ConnectionKind::Mock => Ok(vec![TxAction::Begin]),
            ConnectionKind::Proxy => Ok(vec![TxAction::Begin]),
            ConnectionKind::Disconnected => Err(conn_err("Disconnected")),
        };
        proof {
            if steps is Ok {
                assert(steps->Ok_0@ =~= begin_steps(kind, isolation_level, access_mode));
            }
        }
        (res, steps)
    }

    /// Open a transaction on the connection of this one: it shares the
    /// connection, so it has its kind and its dialect, and it is opened by
    /// the same steps.
    pub fn begin_nested(
        &self,
        isolation_level: Option<IsolationLevel>,
        access_mode: Option<AccessMode>,
    ) -> (r: (DatabaseTransaction, Result<Vec<TxAction>, DbErr>))
        ensures
            r.0.kind() == self.kind(),
            r.0.backend() == self.backend(),
            r.0.spec_is_open(),
            match r.1 {
                Ok(steps) => self.kind() != ConnectionKind::Disconnected && steps@
                    == begin_steps(self.kind(), isolation_level, access_mode),
                Err(e) => self.kind() == ConnectionKind::Disconnected && e.is_conn_err(
                    "Disconnected"@,
                ),
            },
    {
        DatabaseTransaction::begin(self.kind, self.backend, isolation_level, access_mode)
    }

    /// Whether the transaction is still open.
    pub fn is_open(&self) -> (r: bool)
        ensures
            r == self.spec_is_open(),
    {
        self.open
    }

    /// The dialect of the connection, known without locking it.
    pub fn get_database_backend(&self) -> (r: DbBackend)
        ensures
            r == self.backend(),
    {
        self.backend
    }

    /// What commits the transaction, or the error of a missing connection.
    pub fn commit(&self) -> (r: Result<TxAction, DbErr>)
        ensures
            match r {
                Ok(a) => self.kind() != ConnectionKind::Disconnected && a == TxAction::Commit,
                Err(e) => self.kind() == ConnectionKind::Disconnected && e.is_conn_err(
                    "Disconnected"@,
                ),
            },
    {
        match self.kind {
            ConnectionKind::Disconnected => Err(conn_err("Disconnected")),
            _ => Ok(TxAction::Commit),
        }
    }

    /// What rolls the transaction back, or the error of a missing
    /// connection.
    pub fn rollback(&self) -> (r: Result<TxAction, DbErr>)
        ensures
            match r {
                Ok(a) => self.kind() != ConnectionKind::Disconnected && a == TxAction::Rollback,
                Err(e) => self.kind() == ConnectionKind::Disconnected && e.is_conn_err(
                    "Disconnected"@,
                ),
            },
    {
        match self.kind {
            ConnectionKind::Disconnected => Err(conn_err("Disconnected")),
            _ => Ok(TxAction::Rollback),
        }
    }

    /// Take the driver's answer to a commit or a rollback. A success closes
    /// the transaction; after a failure it stays open, so that dropping it
    /// still undoes it. The answer is handed on unchanged.
    pub fn settle(&mut self, outcome: Result<(), DbErr>) -> (r: Result<(), DbErr>)
        ensures
            r == outcome,
            final(self).kind() == old(self).kind(),
            final(self).backend() == old(self).backend(),
            final(self).spec_is_open() == (old(self).spec_is_open() && outcome is Err),
    {
        if outcome.is_ok() {
            self.open = false;
        }
        outcome
    }

    /// What is to be done when the transaction is dropped. A closed
    /// transaction needs nothing. An open one is undone without waiting for
    /// the connection: if the connection's lock is free, by the rollback of
    /// its kind; if it is held, which means that the connection is in use
    /// while its transaction is destroyed, by nothing, and the error says
    /// so. Without a connection the error is that of a missing connection.
    pub fn start_rollback(&self, lock_is_free: bool) -> (r: Result<Option<TxAction>, DbErr>)
        ensures
            match r {
                Ok(None) => !self.spec_is_open(),
                Ok(Some(a)) => {
                    &&& self.spec_is_open()
                    &&& lock_is_free
                    &&& self.kind() != ConnectionKind::Disconnected
                    &&& a == drop_step(self.kind())
                },
                Err(e) => {
                    &&& self.spec_is_open()
                    &&& if lock_is_free {
                        self.kind() == ConnectionKind::Disconnected && e.is_conn_err(
                            "Disconnected"@,
                        )
                    } else {
                        e.is_conn_err("Dropping a locked Transaction"@)
                    }
                },
            },
    {
        if self.open {
            if lock_is_free {
                match self.kind {
                    ConnectionKind::Mock => Ok(Some(TxAction::Rollback)),
                    ConnectionKind::Disconnected => Err(conn_err("Disconnected")),
                    _ => Ok(Some(TxAction::StartRollback)),
                }
            } else {
                Err(conn_err("Dropping a locked Transaction"))
            }
        } else {
            Ok(None)
        }
    }

    /// How a prepared write is performed on the connection.
    pub fn execute_raw(&self, stmt: Statement) -> (r: Result<DriverCall, DbErr>)
        ensures
            match r {
                Ok(call) => self.kind() != ConnectionKind::Disconnected && call@
                    == DriverCallView::Execute(stmt@),
                Err(e) => self.kind() == ConnectionKind::Disconnected && e.is_conn_err(
                    "Disconnected"@,
                ),
            },
    {
        match self.kind {
            ConnectionKind::Disconnected => Err(conn_err("Disconnected")),
            _ => Ok(DriverCall::Execute(stmt)),
        }
    }

    /// How a write given as text is performed on the connection: a wire
    /// driver executes the text as it is; the mock and the proxy take it as a
    /// statement of their dialect without parameters.
    pub fn execute_unprepared(&self, sql: &str) -> (r: Result<DriverCall, DbErr>)
        ensures
            match r {
                Ok(call) => if self.kind().spec_is_wire() {
                    call@ == DriverCallView::ExecuteUnprepared(sql@)
                } else {
                    &&& self.kind() != ConnectionKind::Disconnected
                    &&& call@ == DriverCallView::Execute(
                        StatementView { sql: sql@, values: None, db_backend: self.backend() },
                    )
                },
                Err(e) => self.kind() == ConnectionKind::Disconnected && e.is_conn_err(
                    "Disconnected"@,
                ),
            },
    {
        match self.kind {
            ConnectionKind::MySql => Ok(DriverCall::ExecuteUnprepared(sql.to_owned())),
            ConnectionKind::Postgres => Ok(DriverCall::ExecuteUnprepared(sql.to_owned())),
            ConnectionKind::Sqlite => Ok(DriverCall::ExecuteUnprepared(sql.to_owned())),
            ConnectionKind::Mock => Ok(
                DriverCall::Execute(Statement::from_string(self.backend, sql)),
            ),
            ConnectionKind::Proxy => Ok(
                DriverCall::Execute(Statement::from_string(self.backend, sql)),
            ),
            ConnectionKind::Disconnected => Err(conn_err("Disconnected")),
        }
    }

    /// How a query for one row is performed on the connection.
    pub fn query_one_raw(&self, stmt: Statement) -> (r: Result<DriverCall, DbErr>)
        ensures
            match r {
                Ok(call) => self.kind() != ConnectionKind::Disconnected && call@
                    == DriverCallView::FetchOne(stmt@),
                Err(e) => self.kind() == ConnectionKind::Disconnected && e.is_conn_err(
                    "Disconnected"@,
                ),
            },
    {
        match self.kind {
            ConnectionKind::Disconnected => Err(conn_err("Disconnected")),
            _ => Ok(DriverCall::FetchOne(stmt)),
        }
    }

    /// How a query for all rows is performed on the connection.
    pub fn query_all_raw(&self, stmt: Statement) -> (r: Result<DriverCall, DbErr>)
        ensures
            match r {
                Ok(call) => self.kind() != ConnectionKind::Disconnected && call@
                    == DriverCallView::FetchAll(stmt@),
                Err(e) => self.kind() == ConnectionKind::Disconnected && e.is_conn_err(
                    "Disconnected"@,
                ),
            },
    {
        match self.kind {
            ConnectionKind::Disconnected => Err(conn_err("Disconnected")),
            _ => Ok(DriverCall::FetchAll(stmt)),
        }
    }
}

impl DriverError {
    /// The message of the failure.
    pub open spec fn spec_message(self) -> Seq<char> {
        match self {
            DriverError::RowNotFound => "no rows returned by a query that expected to return at least one row"@,
            DriverError::Other(m) => m@,
        }
    }
}

/// The answer of a wire driver to a write: a failure is an execution error
/// with the driver's message.
pub fn exec_outcome(answer: Result<ExecResult, DriverError>) -> (r: Result<ExecResult, DbErr>)
    ensures
        match answer {
            Ok(x) => r == Ok::<ExecResult, DbErr>(x),
            Err(e) => r matches Err(DbErr::Exec(RuntimeErr::Driver(m))) && m@ == e.spec_message(),
        },
{
    match answer {
        Ok(x) => Ok(x),
        Err(e) => Err(DbErr::Exec(RuntimeErr::Driver(driver_message(e)))),
    }
}

/// The answer of a wire driver to a query for one row: no row is no error
/// but an empty result; any other failure is a query error.
pub fn query_one_outcome(answer: Result<QueryResult, DriverError>) -> (r: Result<
    Option<QueryResult>,
    DbErr,
>)
    ensures
        match answer {
            Ok(row) => r == Ok::<Option<QueryResult>, DbErr>(Some(row)),
            Err(DriverError::RowNotFound) => r == Ok::<Option<QueryResult>, DbErr>(None),
            Err(DriverError::Other(m)) => r == Err::<Option<QueryResult>, DbErr>(
                DbErr::Query(RuntimeErr::Driver(m)),
            ),
        },
{
    match answer {
        Ok(row) => Ok(Some(row)),
        Err(DriverError::RowNotFound) => Ok(None),
        Err(DriverError::Other(m)) => Err(DbErr::Query(RuntimeErr::Driver(m))),
    }
}

/// The answer of a wire driver to a query for all rows: a failure is a
/// query error.
pub fn query_all_outcome(answer: Result<Vec<QueryResult>, DriverError>) -> (r: Result<
    Vec<QueryResult>,
    DbErr,
>)
    ensures
        match answer {
            Ok(rows) => r == Ok::<Vec<QueryResult>, DbErr>(rows),
            Err(e) => r matches Err(DbErr::Query(RuntimeErr::Driver(m))) && m@ == e.spec_message(),
        },
{
    match answer {
        Ok(rows) => Ok(rows),
        Err(e) => Err(DbErr::Query(RuntimeErr::Driver(driver_message(e)))),
    }
}

/// The message of a failure of a driver.
pub fn driver_message(e: DriverError) -> (m: String)
    ensures
        m@ == e.spec_message(),
{
    match e {
        DriverError::RowNotFound => "no rows returned by a query that expected to return at least one row".to_owned(),
        DriverError::Other(m) => m,
    }
}

/// What closes a transaction after its unit of work: a commit after a
/// success, a rollback after a failure.
pub fn closing_action<T, E>(work: &Result<T, E>) -> (a: TxAction)
    ensures
        a == if work is Ok {
            TxAction::Commit
        } else {
            TxAction::Rollback
        },
{
    match work {
        Ok(_) => TxAction::Commit,
        Err(_) => TxAction::Rollback,
    }
}

/// The result of a unit of work in a transaction, from the result of the
/// work and the answer to the commit or rollback that closed it. A failure
/// of the closing is a connection error, whatever the work returned; else a
/// failure of the work is a transaction error; else the value of the work.
pub fn run_outcome<T, E>(work: Result<T, E>, closing: Result<(), DbErr>) -> (r: Result<
    T,
    TransactionError<E>,
>)
    ensures
        r == match closing {
            Err(e) => Err::<T, TransactionError<E>>(TransactionError::Connection(e)),
            Ok(_) => match work {
                Ok(v) => Ok::<T, TransactionError<E>>(v),
                Err(e) => Err::<T, TransactionError<E>>(TransactionError::Transaction(e)),
            },
        },
{
    match closing {
        Err(e) => Err(TransactionError::Connection(e)),
        Ok(_) => match work {
            Ok(v) => Ok(v),
            Err(e) => Err(TransactionError::Transaction(e)),
        },
    }
}

/// The error of a unit of work whose transaction could not be begun.
pub fn begin_failed<E>(e: DbErr) -> (r: TransactionError<E>)
    ensures
        r == TransactionError::<E>::Connection(e),
{
    TransactionError::Connection(e)
}

} // verus!
