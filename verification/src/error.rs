//! The errors of the runtime.

use vstd::prelude::*;

verus! {

/// The cause of a failure met while talking to a database.
#[derive(Clone, Debug, PartialEq, Eq)]
pub enum RuntimeErr {
    /// A failure reported by the wire driver, carried as its message.
    Driver(String),
    /// A failure raised by the runtime itself.
    Internal(String),
}

/// An error of the runtime.
#[derive(Clone, Debug, PartialEq, Eq)]
pub enum DbErr {
    /// The connection is disconnected or unusable.
    Conn(RuntimeErr),
    /// A write statement failed.
    Exec(RuntimeErr),
    /// A read statement failed.
    Query(RuntimeErr),
    /// A value of a row could not be read as the requested type.
    Type(String),
    /// A JSON document could not be turned into a record.
    Json(String),
    /// A record was asked of an active record with a column in the `NotSet`
    /// state; the payload is the column's name.
    AttrNotSet(String),
    /// A statement keyed on the primary key was asked of an active record
    /// that lacks a primary-key value; the payload names the operation.
    PrimaryKeyNotSet(String),
    /// No row has the primary key of the record.
    RecordNotFound(String),
    /// A write changed no row.
    RecordNotUpdated,
    /// The operation is not available on this backend.
    BackendNotSupported { db: String, ctx: String },
    /// An error raised by application code.
    Custom(String),
}

impl DbErr {
    /// Whether the error is the connection error that the runtime raises
    /// with the given message.
    pub open spec fn is_conn_err(self, msg: Seq<char>) -> bool {
        self matches DbErr::Conn(RuntimeErr::Internal(m)) && m@ == msg
    }

    /// Whether the error says that a statement by primary key was asked of
    /// a record without one, in the named operation.
    pub open spec fn is_pk_not_set(self, ctx: Seq<char>) -> bool {
        self matches DbErr::PrimaryKeyNotSet(m) && m@ == ctx
    }
}

/// A connection error raised by the runtime with the given message.
pub fn conn_err(msg: &str) -> (e: DbErr)
    ensures
        e matches DbErr::Conn(RuntimeErr::Internal(m)) && m@ == msg@,
{
    DbErr::Conn(RuntimeErr::Internal(msg.to_owned()))
}

} // verus!
