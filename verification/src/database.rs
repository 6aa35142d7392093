//! Connections, transactions and streams: the decisions around the wire.

pub mod statement;
pub mod stream;
pub mod transaction;
