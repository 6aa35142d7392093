//! The stream of the rows of a query on the connection of a transaction.
//!
//! The stream holds the lock of the connection for as long as it lives.
//! What it decides is where the rows come from and what each item that the
//! source yields becomes.

use crate::database::statement::{ConnectionKind, Statement};
use crate::error::{DbErr, RuntimeErr};
use crate::executor::query::QueryResult;
use vstd::prelude::*;

verus! {

/// Where the rows of a stream come from.
#[derive(Clone, Copy, Debug, PartialEq, Eq, Structural)]
pub enum StreamSource {
    /// The cursor of a wire driver.
    Driver,
    /// The prepared rows of the mock.
    Mock,
    /// Nowhere: the backend has no streams, and the stream yields that error
    /// once.
    Unsupported,
}

/// The source of a stream on a connection.
pub open spec fn source_of(kind: ConnectionKind) -> StreamSource {
    match kind {
        ConnectionKind::MySql => StreamSource::Driver,
        ConnectionKind::Postgres => StreamSource::Driver,
        ConnectionKind::Sqlite => StreamSource::Driver,
        ConnectionKind::Mock => StreamSource::Mock,
        _ => StreamSource::Unsupported,
    }
}

/// A stream of rows on the locked connection of a transaction.
#[derive(Debug)]
pub struct TransactionStream {
    stmt: Statement,
    source: StreamSource,
    timed: bool,
    drained: bool,
}

impl TransactionStream {
    /// The statement of the stream.
    pub closed spec fn stmt(&self) -> Statement {
        self.stmt
    }

    /// The source of the rows.
    pub closed spec fn source(&self) -> StreamSource {
        self.source
    }

    /// Whether the time that the query takes is measured.
    pub closed spec fn timed(&self) -> bool {
        self.timed
    }

    /// Whether the stream has signalled its end.
    pub closed spec fn drained(&self) -> bool {
        self.drained
    }

    /// A stream of the rows of a statement on a connection. The time is
    /// measured where a metric callback is installed.
    pub fn build(kind: ConnectionKind, stmt: Statement, has_metric_callback: bool) -> (r:
        TransactionStream)
        requires
            kind != ConnectionKind::Disconnected,
        ensures
            r.stmt() == stmt,
            r.source() == source_of(kind),
            r.timed() == has_metric_callback,
            !r.drained(),
    {
        let source = match kind {
            ConnectionKind::MySql => StreamSource::Driver,
            ConnectionKind::Postgres => StreamSource::Driver,
            ConnectionKind::Sqlite => StreamSource::Driver,
            ConnectionKind::Mock => StreamSource::Mock,
            _ => StreamSource::Unsupported,
        };
        TransactionStream { stmt, source, timed: has_metric_callback, drained: false }
    }

    /// The statement to hand to the source.
    pub fn statement(&self) -> (r: &Statement)
        ensures
            *r == self.stmt(),
    {
        &self.stmt
    }

    /// Where the rows come from.
    pub fn get_source(&self) -> (r: StreamSource)
        ensures
            r == self.source(),
    {
        self.source
    }

    /// Whether the time that the query takes is to be measured.
    pub fn is_timed(&self) -> (r: bool)
        ensures
            r == self.timed(),
    {
        self.timed
    }

    /// Whether the stream has signalled its end.
    pub fn is_drained(&self) -> (r: bool)
        ensures
            r == self.drained(),
    {
        self.drained
    }

    /// The next item of the stream, from the next item of its source.
    ///
    /// A drained stream yields the end, whatever the source says. A stream
    /// without a source yields its error once and is drained by that. Else a
    /// row of the source is a row of the stream, a failure of the source is a
    /// query error, and the end of the source drains the stream.
    pub fn poll_next(&mut self, from_source: Option<Result<QueryResult, String>>) -> (r: Option<
        Result<QueryResult, DbErr>,
    >)
        ensures
            final(self).stmt() == old(self).stmt(),
            final(self).source() == old(self).source(),
            final(self).timed() == old(self).timed(),
            old(self).drained() ==> r is None && final(self).drained(),
            !old(self).drained() && old(self).source() == StreamSource::Unsupported ==> {
                &&& r matches Some(Err(DbErr::BackendNotSupported { db, ctx })) && db@ == "Proxy"@
                    && ctx@ == "TransactionStream"@
                &&& final(self).drained()
            },
            !old(self).drained() && old(self).source() != StreamSource::Unsupported ==> {
                &&& final(self).drained() == (from_source is None)
                &&& r == match from_source {
                    Some(Ok(row)) => Some(Ok::<QueryResult, DbErr>(row)),
                    Some(Err(m)) => Some(
                        Err::<QueryResult, DbErr>(DbErr::Query(RuntimeErr::Driver(m))),
                    ),
                    None => None,
                }
            },
    {
        if self.drained {
            return None;
        }
        match self.source {
            StreamSource::Unsupported => {
                self.drained = true;
                Some(
                    Err(
                        DbErr::BackendNotSupported {
                            db: "Proxy".to_owned(),
                            ctx: "TransactionStream".to_owned(),
                        },
                    ),
                )
            },
            _ => match from_source {
                Some(Ok(row)) => Some(Ok(row)),
                Some(Err(m)) => Some(Err(DbErr::Query(RuntimeErr::Driver(m)))),
                None => {
                    self.drained = true;
                    None
                },
            },
        }
    }
}

} // verus!
