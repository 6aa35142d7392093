//! Primary keys: their columns and their arity.

use crate::entity::column::{ColumnTrait, Iterable};
use vstd::prelude::*;

verus! {

/// The number of columns that a primary-key value type spans.
pub trait PrimaryKeyArity {
    /// The number of columns.
    spec fn spec_arity() -> nat;

    /// The number of columns.
    fn arity() -> (n: usize)
        ensures
            n == Self::spec_arity(),
    ;
}

impl PrimaryKeyArity for i32 {
    open spec fn spec_arity() -> nat {
        1
    }

    fn arity() -> (n: usize) {
        1
    }
}

impl PrimaryKeyArity for i64 {
    open spec fn spec_arity() -> nat {
        1
    }

    fn arity() -> (n: usize) {
        1
    }
}

impl PrimaryKeyArity for u32 {
    open spec fn spec_arity() -> nat {
        1
    }

    fn arity() -> (n: usize) {
        1
    }
}

impl PrimaryKeyArity for u64 {
    open spec fn spec_arity() -> nat {
        1
    }

    fn arity() -> (n: usize) {
        1
    }
}

impl PrimaryKeyArity for String {
    open spec fn spec_arity() -> nat {
        1
    }

    fn arity() -> (n: usize) {
        1
    }
}

impl<A, B> PrimaryKeyArity for (A, B) {
    open spec fn spec_arity() -> nat {
        2
    }

    fn arity() -> (n: usize) {
        2
    }
}

impl<A, B, C> PrimaryKeyArity for (A, B, C) {
    open spec fn spec_arity() -> nat {
        3
    }

    fn arity() -> (n: usize) {
        3
    }
}

impl<A, B, C, D> PrimaryKeyArity for (A, B, C, D) {
    open spec fn spec_arity() -> nat {
        4
    }

    fn arity() -> (n: usize) {
        4
    }
}

/// The primary key of an entity.
pub trait PrimaryKeyTrait: Iterable + Copy {
    /// The Rust type of a key value.
    type ValueType: PrimaryKeyArity;

    /// Whether the database generates the key.
    fn auto_increment() -> bool;
}

/// The link between the items of a primary key and the entity's columns.
pub trait PrimaryKeyToColumn: Sized {
    /// The columns of the entity.
    type Column: ColumnTrait;

    /// The column of a key item.
    spec fn spec_column(self) -> Self::Column;

    /// The column of a key item.
    fn into_column(self) -> (c: Self::Column)
        ensures
            c == self.spec_column(),
    ;

    /// Two key items have two columns.
    proof fn lemma_column_injective(a: Self, b: Self)
        ensures
            a.spec_column() == b.spec_column() ==> a == b,
    ;

    /// The key item of a column, if the column belongs to the key.
    fn from_column(col: Self::Column) -> (r: Option<Self>)
        ensures
            match r {
                Some(k) => k.spec_column() == col,
                None => forall|k: Self| k.spec_column() != col,
            },
    ;
}

} // verus!
