//! Records: fully materialised rows.

use crate::entity::base_entity::EntityTrait;
use crate::error::DbErr;
use crate::executor::query::QueryResult;
use crate::value::{Value, ValueView};
use vstd::prelude::*;

verus! {

/// A record: a row in which every column has a value.
pub trait ModelTrait: Sized {
    /// The entity this record belongs to.
    type Entity: EntityTrait;

    /// The values of the record, by column.
    spec fn fields(&self) -> Map<<Self::Entity as EntityTrait>::Column, ValueView>;

    /// A record has a value for every column of its entity.
    proof fn lemma_fields_total(&self)
        ensures
            self.fields().dom().is_full(),
    ;

    /// The value of a column.
    fn get(&self, c: <Self::Entity as EntityTrait>::Column) -> (v: Value)
        ensures
            v@ == self.fields()[c],
    ;
}

/// A type that can be read from a row.
pub trait FromQueryResult: Sized {
    /// Read a value from the columns of the row whose names start with
    /// `pre`.
    fn from_query_result(res: &QueryResult, pre: &str) -> Result<Self, DbErr>;

    /// Read a value that a row may lack: a row that does not yield one
    /// yields `None`.
    fn from_query_result_optional(res: &QueryResult, pre: &str) -> (r: Result<Option<Self>, DbErr>)
        default_ensures
            match r {
                Ok(Some(m)) => call_ensures(Self::from_query_result, (res, pre), Ok(m)),
                Ok(None) => exists|e: DbErr| #[trigger]
                    call_ensures(Self::from_query_result, (res, pre), Err(e)),
                Err(_) => false,
            },
    {
        match Self::from_query_result(res, pre) {
            Ok(m) => Ok(Some(m)),
            Err(_) => Ok(None),
        }
    }
}

/// A type that can be turned into a record, unless a value is missing.
pub trait TryIntoModel<M> {
    /// The record of this value, or the error that names the first column
    /// without a value.
    fn try_into_model(self) -> Result<M, DbErr>;
}

} // verus!
