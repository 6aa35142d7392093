//! Entities: a table with its columns and its primary key.

use crate::entity::column::{ColumnTrait, IdenStatic, Iterable};
use crate::entity::primary_key::{PrimaryKeyArity, PrimaryKeyToColumn, PrimaryKeyTrait};
use vstd::prelude::*;

verus! {

/// A reference to a table, with or without its schema.
#[derive(Clone, Debug, PartialEq, Eq)]
pub enum TableRef {
    Table(String),
    SchemaTable(String, String),
}

/// A table with its schema, if it has one, else the table alone.
pub fn make_table_ref(schema: Option<&str>, table: &str) -> (r: TableRef)
    ensures
        match r {
            TableRef::Table(t) => schema is None && t@ == table@,
            TableRef::SchemaTable(s, t) => schema matches Some(x) && s@ == x@ && t@ == table@,
        },
{
    match schema {
        Some(schema) => TableRef::SchemaTable(schema.to_owned(), table.to_owned()),
        None => TableRef::Table(table.to_owned()),
    }
}

/// The name of the table an entity stands for.
pub trait EntityName: IdenStatic + Default {
    /// The schema of the table, if it has one.
    fn schema_name(&self) -> (r: Option<&str>)
        default_ensures
            r is None,
    {
        None
    }

    /// The comment of the table, if it has one.
    fn comment(&self) -> (r: Option<&str>)
        default_ensures
            r is None,
    {
        None
    }

    /// The name of the table.
    fn table_name(&self) -> (s: &'static str)
        ensures
            s@ == self.spec_name(),
    ;

    /// The table under the schema that [`schema_name`](Self::schema_name)
    /// gives, if it gives one, else the table alone.
    fn table_ref(&self) -> (r: TableRef)
        ensures
            match r {
                TableRef::Table(t) => {
                    &&& t@ == self.spec_name()
                    &&& call_ensures(Self::schema_name, (self,), None::<&str>)
                },
                TableRef::SchemaTable(s, t) => {
                    &&& t@ == self.spec_name()
                    &&& exists|schema: &str|
                        s@ == schema@ && #[trigger] call_ensures(
                            Self::schema_name,
                            (self,),
                            Some(schema),
                        )
                },
            },
    {
        make_table_ref(self.schema_name(), self.table_name())
    }
}

/// An entity: a table, its columns in declaration order and its primary
/// key.
pub trait EntityTrait: EntityName {
    /// The columns of the table.
    type Column: ColumnTrait;

    /// The primary key of the table.
    type PrimaryKey: PrimaryKeyTrait + PrimaryKeyToColumn<Column = Self::Column>;
}

/// The columns of the primary key of `E`, in declaration order.
pub open spec fn pk_columns<E: EntityTrait>() -> Seq<E::Column> {
    E::PrimaryKey::spec_iter().map_values(|k: E::PrimaryKey| k.spec_column())
}

/// Whether a column belongs to the primary key of `E`.
pub open spec fn is_pk_column<E: EntityTrait>(c: E::Column) -> bool {
    pk_columns::<E>().contains(c)
}

/// The arity that the value type of the primary key of `E` declares.
pub open spec fn pk_arity<E: EntityTrait>() -> nat {
    <<E::PrimaryKey as PrimaryKeyTrait>::ValueType as PrimaryKeyArity>::spec_arity()
}

/// No column occurs twice among the columns of a primary key.
pub proof fn lemma_pk_columns_distinct<E: EntityTrait>()
    ensures
        pk_columns::<E>().no_duplicates(),
{
    let keys = E::PrimaryKey::spec_iter();
    E::PrimaryKey::lemma_iter_distinct();
    assert forall|i: int, j: int|
        0 <= i < pk_columns::<E>().len() && 0 <= j < pk_columns::<E>().len() && i
            != j implies pk_columns::<E>()[i] != pk_columns::<E>()[j] by {
        E::PrimaryKey::lemma_column_injective(keys[i], keys[j]);
    }
}

} // verus!
