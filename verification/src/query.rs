//! Requests for rows, typed by the entities they select.

use crate::database::statement::Statement;
use crate::entity::base_entity::{pk_arity, pk_columns, EntityName, EntityTrait};
use crate::entity::column::{IdenStatic, Iterable};
use crate::entity::model::{FromQueryResult, ModelTrait};
use crate::entity::primary_key::PrimaryKeyToColumn;
use crate::error::DbErr;
use crate::executor::consolidate::{consolidate_query_result, consolidated, groups_view, pk_key_spec};
use crate::executor::query::{QueryResult, TryGetableMany};
use crate::executor::select::{
    SelectGetableTuple, SelectGetableValue, SelectModel, SelectThreeModel, SelectTwoModel,
    SelectorRaw, SelectorTrait,
};
use crate::value::{views, Value, ValueTuple, ValueView};
use core::marker::PhantomData;
use vstd::prelude::*;
use vstd::string::StringExecFns;

verus! {

/// A request for rows: the table, the tables joined to it, the conditions
/// `column = value` that every row must meet, and the most rows wanted.
#[derive(Clone, Debug, PartialEq)]
pub struct SelectStatement {
    pub table: String,
    pub joins: Vec<String>,
    pub conditions: Vec<(String, Value)>,
    pub limit: Option<u64>,
}

/// The views of a list of conditions.
pub open spec fn conditions_view(s: Seq<(String, Value)>) -> Seq<(Seq<char>, ValueView)> {
    s.map_values(|p: (String, Value)| (p.0@, p.1@))
}

/// A request for the rows of an entity.
#[derive(Debug)]
pub struct Select<E> where E: EntityTrait {
    pub query: SelectStatement,
    pub entity: PhantomData<E>,
}

/// A request for the rows of an entity, each with an optional row of a
/// second.
#[derive(Debug)]
pub struct SelectTwo<E, F> where E: EntityTrait, F: EntityTrait {
    pub query: SelectStatement,
    pub entity: PhantomData<(E, F)>,
}

/// A request for the rows of an entity, each with all its rows of a
/// second.
#[derive(Debug)]
pub struct SelectTwoMany<E, F> where E: EntityTrait, F: EntityTrait {
    pub query: SelectStatement,
    pub entity: PhantomData<(E, F)>,
}

/// A request for the rows of an entity, each with an optional row of a
/// second and of a third.
#[derive(Debug)]
pub struct SelectThree<E, F, G> where E: EntityTrait, F: EntityTrait, G: EntityTrait {
    pub query: SelectStatement,
    pub entity: PhantomData<(E, F, G)>,
}

/// A request with the way to read its rows.
#[derive(Debug)]
pub struct Selector<S> where S: SelectorTrait {
    pub query: SelectStatement,
    pub selector: PhantomData<S>,
}

/// A request to delete the rows of an entity that meet every condition of
/// a list.
#[derive(Debug)]
pub struct DeleteMany<E> where E: EntityTrait {
    pub table: String,
    pub conditions: Vec<(String, Value)>,
    pub entity: PhantomData<E>,
}

/// The conditions that select a row by its primary key: each value of the
/// key with the name of the key column at its position.
pub open spec fn key_conditions<E: EntityTrait>(values: Seq<ValueView>) -> Seq<
    (Seq<char>, ValueView),
> {
    Seq::new(values.len(), |i: int| (pk_columns::<E>()[i].spec_name(), values[i]))
}

/// The conditions that select a row by its primary key.
///
/// The key must not have more values than the entity has key columns.
pub fn conditions_by_id<E: EntityTrait>(values: ValueTuple) -> (r: Vec<(String, Value)>)
    requires
        values@.values().len() <= pk_columns::<E>().len(),
    ensures
        conditions_view(r@) == key_conditions::<E>(values@.values()),
{
    let keys = E::PrimaryKey::iter();
    let vals = values.into_values();
    let ghost want = views(vals@);
    let mut out: Vec<(String, Value)> = Vec::new();
    let mut i: usize = 0;
    for v in it: vals
        invariant
            i == it.index(),
            it.seq().len() <= keys@.len(),
            views(it.seq()) == want,
            keys@ == E::PrimaryKey::spec_iter(),
            out@.len() == i,
            forall|j: int|
                0 <= j < i ==> (#[trigger] out@[j]).0@ == pk_columns::<E>()[j].spec_name()
                    && out@[j].1@ == want[j],
    {
        let col = keys[i].into_column();
        assert(it.seq()[i as int]@ == want[i as int]);
        out.push((String::from_str(col.as_str()), v));
        assert(i < keys.len());
        i += 1;
    }
    assert(conditions_view(out@) =~= key_conditions::<E>(want));
    out
}

impl<E> Select<E> where E: EntityTrait {
    /// A request for every row of the entity.
    pub fn new() -> (r: Self)
        ensures
            exists|e: E| r.query.table@ == #[trigger] e.spec_name(),
            r.query.conditions@.len() == 0,
            r.query.joins@.len() == 0,
            r.query.limit is None,
    {
        let entity = E::default();
        Select {
            query: SelectStatement {
                table: String::from_str(entity.table_name()),
                joins: Vec::new(),
                conditions: Vec::new(),
                limit: None,
            },
            entity: PhantomData,
        }
    }

    /// The same request with one more condition.
    pub fn filter(self, col: E::Column, value: Value) -> (r: Self)
        ensures
            conditions_view(r.query.conditions@) == conditions_view(self.query.conditions@).push(
                (col.spec_name(), value@),
            ),
            r.query.table == self.query.table,
            r.query.joins == self.query.joins,
            r.query.limit == self.query.limit,
    {
        let mut query = self.query;
        let ghost before = conditions_view(query.conditions@);
        query.conditions.push((String::from_str(col.as_str()), value));
        assert(conditions_view(query.conditions@) =~= before.push((col.spec_name(), value@)));
        Select { query, entity: PhantomData }
    }

    /// The same rows, each with an optional row of `F`.
    pub fn select_also<F: EntityTrait>(self) -> (r: SelectTwo<E, F>)
        ensures
            r.query.table == self.query.table,
            r.query.conditions == self.query.conditions,
            r.query.limit == self.query.limit,
            r.query.joins@.len() == self.query.joins@.len() + 1,
            r.query.joins@.take(self.query.joins@.len() as int) == self.query.joins@,
            exists|f: F| r.query.joins@.last()@ == #[trigger] f.spec_name(),
    {
        let mut query = self.query;
        query.joins.push(String::from_str(F::default().table_name()));
        assert(query.joins@.take(self.query.joins@.len() as int) =~= self.query.joins@);
        SelectTwo { query, entity: PhantomData }
    }

    /// The same rows, each with all its rows of `F`.
    pub fn select_with<F: EntityTrait>(self) -> (r: SelectTwoMany<E, F>)
        ensures
            r.query.table == self.query.table,
            r.query.conditions == self.query.conditions,
            r.query.limit == self.query.limit,
            r.query.joins@.len() == self.query.joins@.len() + 1,
            r.query.joins@.take(self.query.joins@.len() as int) == self.query.joins@,
            exists|f: F| r.query.joins@.last()@ == #[trigger] f.spec_name(),
    {
        let mut query = self.query;
        query.joins.push(String::from_str(F::default().table_name()));
        assert(query.joins@.take(self.query.joins@.len() as int) =~= self.query.joins@);
        SelectTwoMany { query, entity: PhantomData }
    }

    /// Read the rows of a raw statement as records, in place of the rows of
    /// this request.
    pub fn from_raw_sql<M: FromQueryResult>(self, stmt: Statement) -> (r: SelectorRaw<
        SelectModel<M>,
    >)
        ensures
            r.stmt == stmt,
    {
        SelectorRaw { stmt, selector: PhantomData }
    }

    /// Read the rows of the request as records of type `M`.
    pub fn into_model<M: FromQueryResult>(self) -> (r: Selector<SelectModel<M>>)
        ensures
            r.query == self.query,
    {
        Selector { query: self.query, selector: PhantomData }
    }

    /// Read the rows of the request as rows that keep every column by name.
    pub fn into_json(self) -> (r: Selector<SelectModel<QueryResult>>)
        ensures
            r.query == self.query,
    {
        Selector { query: self.query, selector: PhantomData }
    }

    /// Read the rows of the request as values of the columns that `C`
    /// names.
    pub fn into_values<T, C>(self) -> (r: Selector<SelectGetableValue<T, C>>) where
        T: TryGetableMany,
        C: Iterable + IdenStatic,

        ensures
            r.query == self.query,
    {
        Selector { query: self.query, selector: PhantomData }
    }

    /// Read the rows of the request as values of their first columns.
    pub fn into_tuple<T: TryGetableMany>(self) -> (r: Selector<SelectGetableTuple<T>>)
        ensures
            r.query == self.query,
    {
        Selector { query: self.query, selector: PhantomData }
    }
}

impl<E, F> SelectTwo<E, F> where E: EntityTrait, F: EntityTrait {
    /// The same rows, each with an optional row of `G` as well.
    pub fn select_also<G: EntityTrait>(self) -> (r: SelectThree<E, F, G>)
        ensures
            r.query.table == self.query.table,
            r.query.conditions == self.query.conditions,
            r.query.limit == self.query.limit,
            r.query.joins@.len() == self.query.joins@.len() + 1,
            r.query.joins@.take(self.query.joins@.len() as int) == self.query.joins@,
            exists|g: G| r.query.joins@.last()@ == #[trigger] g.spec_name(),
    {
        let mut query = self.query;
        query.joins.push(String::from_str(G::default().table_name()));
        assert(query.joins@.take(self.query.joins@.len() as int) =~= self.query.joins@);
        SelectThree { query, entity: PhantomData }
    }

    /// Read the rows of the request as pairs of a record and an optional
    /// record.
    pub fn into_model<M, N>(self) -> (r: Selector<SelectTwoModel<M, N>>) where
        M: FromQueryResult,
        N: FromQueryResult,

        ensures
            r.query == self.query,
    {
        Selector { query: self.query, selector: PhantomData }
    }

    /// Read the rows of the request as pairs of rows that keep every column
    /// by name.
    pub fn into_json(self) -> (r: Selector<SelectTwoModel<QueryResult, QueryResult>>)
        ensures
            r.query == self.query,
    {
        Selector { query: self.query, selector: PhantomData }
    }
}

impl<E, F> SelectTwoMany<E, F> where E: EntityTrait, F: EntityTrait {
    /// Read the rows of the request as pairs of a record and an optional
    /// record.
    pub fn into_model<M, N>(self) -> (r: Selector<SelectTwoModel<M, N>>) where
        M: FromQueryResult,
        N: FromQueryResult,

        ensures
            r.query == self.query,
    {
        Selector { query: self.query, selector: PhantomData }
    }

    /// Read the rows of the request as pairs of rows that keep every column
    /// by name.
    pub fn into_json(self) -> (r: Selector<SelectTwoModel<QueryResult, QueryResult>>)
        ensures
            r.query == self.query,
    {
        Selector { query: self.query, selector: PhantomData }
    }

    /// The records of all the rows of the request, each parent once with
    /// all its children: the rows are read as pairs and the pairs are
    /// consolidated by the primary key of the parent. The first row that
    /// cannot be read ends the reading with its error.
    pub fn all<M, N>(rows: Vec<QueryResult>) -> (r: Result<Vec<(M, Vec<N>)>, DbErr>) where
        M: ModelTrait<Entity = E> + FromQueryResult,
        N: FromQueryResult,

        requires
            pk_arity::<E>() == 1 || pk_arity::<E>() == 2 ==> pk_arity::<E>() <= pk_columns::<
                E,
            >().len(),
        ensures
            match r {
                Ok(out) => exists|pairs: Vec<(M, Option<N>)>|
                    {
                        &&& #[trigger] call_ensures(
                            SelectorRaw::<SelectTwoModel<M, N>>::all,
                            (rows,),
                            Ok::<Vec<(M, Option<N>)>, DbErr>(pairs),
                        )
                        &&& groups_view(out@) == consolidated(pairs@, |l: M| pk_key_spec(l))
                    },
                Err(e) => call_ensures(
                    SelectorRaw::<SelectTwoModel<M, N>>::all,
                    (rows,),
                    Err::<Vec<(M, Option<N>)>, DbErr>(e),
                ),
            },
    {
        match SelectorRaw::<SelectTwoModel<M, N>>::all(rows) {
            Ok(pairs) => Ok(consolidate_query_result::<M, N>(pairs)),
            Err(e) => Err(e),
        }
    }
}

impl<E, F, G> SelectThree<E, F, G> where E: EntityTrait, F: EntityTrait, G: EntityTrait {
    /// Read the rows of the request as triples of a record and two optional
    /// records.
    pub fn into_model<M, N, O>(self) -> (r: Selector<SelectThreeModel<M, N, O>>) where
        M: FromQueryResult,
        N: FromQueryResult,
        O: FromQueryResult,

        ensures
            r.query == self.query,
    {
        Selector { query: self.query, selector: PhantomData }
    }

    /// Read the rows of the request as triples of rows that keep every
    /// column by name.
    pub fn into_json(self) -> (r: Selector<SelectThreeModel<QueryResult, QueryResult, QueryResult>>)
        ensures
            r.query == self.query,
    {
        Selector { query: self.query, selector: PhantomData }
    }
}

impl<S> Selector<S> where S: SelectorTrait {
    /// The request for one item: the same request, limited to one row.
    pub fn one_request(self) -> (r: SelectStatement)
        ensures
            r.limit == Some(1u64),
            r.table == self.query.table,
            r.joins == self.query.joins,
            r.conditions == self.query.conditions,
    {
        let mut query = self.query;
        query.limit = Some(1);
        query
    }

    /// The request for all items: the request as it is.
    pub fn all_request(self) -> (r: SelectStatement)
        ensures
            r == self.query,
    {
        self.query
    }

    /// The item of a query for one row: the item of the row, if the query
    /// found one.
    pub fn one(row: Option<QueryResult>) -> (r: Result<Option<S::Item>, DbErr>)
        ensures
            call_ensures(SelectorRaw::<S>::one, (row,), r),
    {
        SelectorRaw::<S>::one(row)
    }

    /// The items of a query for all rows: the item of each row, in order.
    pub fn all(rows: Vec<QueryResult>) -> (r: Result<Vec<S::Item>, DbErr>)
        ensures
            call_ensures(SelectorRaw::<S>::all, (rows,), r),
    {
        SelectorRaw::<S>::all(rows)
    }

    /// The item of one item of a stream.
    pub fn stream_item(from_stream: Result<QueryResult, DbErr>) -> (r: Result<S::Item, DbErr>)
        ensures
            call_ensures(SelectorRaw::<S>::stream_item, (from_stream,), r),
    {
        SelectorRaw::<S>::stream_item(from_stream)
    }
}

/// A request for every row of the entity.
pub fn find<E: EntityTrait>() -> (r: Select<E>)
    ensures
        exists|e: E| r.query.table@ == #[trigger] e.spec_name(),
        r.query.conditions@.len() == 0,
        r.query.joins@.len() == 0,
        r.query.limit is None,
{
    Select::new()
}

/// A request for the row with the given primary key.
///
/// The key must not have more values than the entity has key columns.
pub fn find_by_id<E: EntityTrait>(values: ValueTuple) -> (r: Select<E>)
    requires
        values@.values().len() <= pk_columns::<E>().len(),
    ensures
        exists|e: E| r.query.table@ == #[trigger] e.spec_name(),
        conditions_view(r.query.conditions@) == key_conditions::<E>(values@.values()),
        r.query.joins@.len() == 0,
        r.query.limit is None,
{
    let entity = E::default();
    Select {
        query: SelectStatement {
            table: String::from_str(entity.table_name()),
            joins: Vec::new(),
            conditions: conditions_by_id::<E>(values),
            limit: None,
        },
        entity: PhantomData,
    }
}

/// A request to delete every row of the entity.
pub fn delete_many<E: EntityTrait>() -> (r: DeleteMany<E>)
    ensures
        exists|e: E| r.table@ == #[trigger] e.spec_name(),
        r.conditions@.len() == 0,
{
    let entity = E::default();
    DeleteMany {
        table: String::from_str(entity.table_name()),
        conditions: Vec::new(),
        entity: PhantomData,
    }
}

/// A request to delete the row with the given primary key.
///
/// The key must not have more values than the entity has key columns.
pub fn delete_by_id<E: EntityTrait>(values: ValueTuple) -> (r: DeleteMany<E>)
    requires
        values@.values().len() <= pk_columns::<E>().len(),
    ensures
        exists|e: E| r.table@ == #[trigger] e.spec_name(),
        conditions_view(r.conditions@) == key_conditions::<E>(values@.values()),
{
    let entity = E::default();
    DeleteMany {
        table: String::from_str(entity.table_name()),
        conditions: conditions_by_id::<E>(values),
        entity: PhantomData,
    }
}

} // verus!
