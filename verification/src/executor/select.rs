//! Selectors: how the rows of a query become typed items.

use crate::database::statement::Statement;
use crate::entity::column::{IdenStatic, Iterable};
use crate::entity::model::FromQueryResult;
use crate::error::DbErr;
use crate::executor::query::{QueryResult, TryGetError, TryGetableMany};
use crate::value::{Value, ValueView};
use core::marker::PhantomData;
use vstd::prelude::*;
use vstd::string::StringExecFns;

verus! {

/// A way to turn a row into an item.
pub trait SelectorTrait {
    /// The item that a row becomes.
    type Item: Sized;

    /// The item of a row.
    fn from_raw_query_result(res: QueryResult) -> Result<Self::Item, DbErr>;
}

/// Reads an item from the columns named by the identifiers of `C`.
#[derive(Debug)]
pub struct SelectGetableValue<T, C> where T: TryGetableMany, C: Iterable + IdenStatic {
    columns: PhantomData<C>,
    model: PhantomData<T>,
}

/// Reads an item from the first columns of a row.
#[derive(Debug)]
pub struct SelectGetableTuple<T> where T: TryGetableMany {
    model: PhantomData<T>,
}

/// Reads one record from a row.
#[derive(Debug)]
pub struct SelectModel<M> where M: FromQueryResult {
    model: PhantomData<M>,
}

/// Reads a record and an optional second record from a row.
#[derive(Debug)]
pub struct SelectTwoModel<M, N> where M: FromQueryResult, N: FromQueryResult {
    model: PhantomData<(M, N)>,
}

/// Reads a record and two optional records from a row.
#[derive(Debug)]
pub struct SelectThreeModel<M, N, O> where
    M: FromQueryResult,
    N: FromQueryResult,
    O: FromQueryResult,
 {
    model: PhantomData<(M, N, O)>,
}

/// The prefix of the columns of the first record of a joined row.
pub const SELECT_A: &'static str = "A_";

/// The prefix of the columns of the second record of a joined row.
pub const SELECT_B: &'static str = "B_";

/// The prefix of the columns of the third record of a joined row.
pub const SELECT_C: &'static str = "C_";

impl<T, C> Default for SelectGetableValue<T, C> where T: TryGetableMany, C: Iterable + IdenStatic {
    fn default() -> Self {
        SelectGetableValue { columns: PhantomData, model: PhantomData }
    }
}

impl<M, N> Clone for SelectTwoModel<M, N> where M: FromQueryResult, N: FromQueryResult {
    fn clone(&self) -> Self {
        SelectTwoModel { model: PhantomData }
    }
}

impl<M, N, O> Clone for SelectThreeModel<M, N, O> where
    M: FromQueryResult,
    N: FromQueryResult,
    O: FromQueryResult,
 {
    fn clone(&self) -> Self {
        SelectThreeModel { model: PhantomData }
    }
}

/// Whether the names are those of the identifiers of `C`, in declaration
/// order.
pub open spec fn names_of<C: Iterable + IdenStatic>(names: Seq<String>) -> bool {
    &&& names.len() == C::spec_iter().len()
    &&& forall|i: int| 0 <= i < names.len() ==> (#[trigger] names[i])@ == C::spec_iter()[i].spec_name()
}

/// The names of the identifiers of `C`, in declaration order.
pub fn column_names<C: Iterable + IdenStatic>() -> (names: Vec<String>)
    ensures
        names_of::<C>(names@),
{
    let cols = C::iter();
    let mut names: Vec<String> = Vec::new();
    let mut i: usize = 0;
    while i < cols.len()
        invariant
            i <= cols.len(),
            cols@ == C::spec_iter(),
            names@.len() == i,
            forall|j: int| 0 <= j < i ==> (#[trigger] names@[j])@ == cols@[j].spec_name(),
        decreases cols.len() - i,
    {
        names.push(String::from_str(cols[i].as_str()));
        i += 1;
    }
    names
}

impl<T, C> SelectorTrait for SelectGetableValue<T, C> where
    T: TryGetableMany,
    C: Iterable + IdenStatic,
 {
    type Item = T;

    /// The item read from the columns that `C` names, without a prefix.
    fn from_raw_query_result(res: QueryResult) -> (r: Result<T, DbErr>)
        ensures
            r is Ok ==> exists|cols: Vec<String>|
                names_of::<C>(cols@) && #[trigger] call_ensures(
                    T::try_get_many,
                    (&res, "", &cols),
                    Ok::<T, TryGetError>(r->Ok_0),
                ),
            r is Err ==> exists|cols: Vec<String>, inner: TryGetError|
                names_of::<C>(cols@) && #[trigger] call_ensures(
                    T::try_get_many,
                    (&res, "", &cols),
                    Err::<T, TryGetError>(inner),
                ) && r->Err_0 == inner.spec_into_db_err(),
    {
        let cols: Vec<String> = column_names::<C>();
        let got = T::try_get_many(&res, "", &cols);
        let ghost seen = got;
        let out: Result<T, DbErr> = match got {
            Ok(x) => Ok(x),
            Err(e) => Err(e.into_db_err()),
        };
        proof {
            if out is Ok {
                assert(seen == Ok::<T, TryGetError>(out->Ok_0));
                assert(names_of::<C>(cols@) && call_ensures(
                    T::try_get_many,
                    (&res, "", &cols),
                    Ok::<T, TryGetError>(out->Ok_0),
                ));
            } else {
                assert(names_of::<C>(cols@) && call_ensures(
                    T::try_get_many,
                    (&res, "", &cols),
                    Err::<T, TryGetError>(seen->Err_0),
                ) && out->Err_0 == seen->Err_0.spec_into_db_err());
            }
        }
        out
    }
}

impl<T> SelectorTrait for SelectGetableTuple<T> where T: TryGetableMany {
    type Item = T;

    /// The item read from the first columns of the row, or the error of
    /// that reading as an error of the runtime.
    fn from_raw_query_result(res: QueryResult) -> (r: Result<T, DbErr>)
        ensures
            r is Ok ==> call_ensures(
                T::try_get_many_by_index,
                (&res,),
                Ok::<T, TryGetError>(r->Ok_0),
            ),
            r is Err ==> exists|inner: TryGetError|
                #[trigger] call_ensures(
                    T::try_get_many_by_index,
                    (&res,),
                    Err::<T, TryGetError>(inner),
                ) && r->Err_0 == inner.spec_into_db_err(),
    {
        let got = T::try_get_many_by_index(&res);
        let ghost seen = got;
        let out: Result<T, DbErr> = match got {
            Ok(x) => Ok(x),
            Err(e) => Err(e.into_db_err()),
        };
        proof {
            if out is Err {
                assert(call_ensures(
                    T::try_get_many_by_index,
                    (&res,),
                    Err::<T, TryGetError>(seen->Err_0),
                ) && out->Err_0 == seen->Err_0.spec_into_db_err());
            }
        }
        out
    }
}

impl<M> SelectorTrait for SelectModel<M> where M: FromQueryResult + Sized {
    type Item = M;

    /// The record read from the columns of the row, without a prefix.
    fn from_raw_query_result(res: QueryResult) -> (r: Result<M, DbErr>)
        ensures
            call_ensures(M::from_query_result, (&res, ""), r),
    {
        M::from_query_result(&res, "")
    }
}

/// Whether a record of type `M` can be read from the columns of the row
/// with the given prefix.
pub open spec fn reads_record<M: FromQueryResult>(res: QueryResult, pre: &str) -> bool {
    exists|m: M| #[trigger] call_ensures(M::from_query_result, (&res, pre), Ok::<M, DbErr>(m))
}

/// Whether an optional record of type `N` can be read from the columns of
/// the row with the given prefix.
pub open spec fn reads_optional_record<N: FromQueryResult>(res: QueryResult, pre: &str) -> bool {
    exists|n: Option<N>| #[trigger]
        call_ensures(N::from_query_result_optional, (&res, pre), Ok::<Option<N>, DbErr>(n))
}

impl<M, N> SelectorTrait for SelectTwoModel<M, N> where
    M: FromQueryResult + Sized,
    N: FromQueryResult + Sized,
 {
    type Item = (M, Option<N>);

    /// The first record from the columns with the first prefix and the
    /// optional second record from those with the second prefix; the first
    /// error ends the reading.
    fn from_raw_query_result(res: QueryResult) -> (r: Result<(M, Option<N>), DbErr>)
        ensures
            match r {
                Ok((m, n)) => {
                    &&& call_ensures(M::from_query_result, (&res, SELECT_A), Ok(m))
                    &&& call_ensures(N::from_query_result_optional, (&res, SELECT_B), Ok(n))
                },
                Err(e) => {
                    ||| call_ensures(M::from_query_result, (&res, SELECT_A), Err(e))
                    ||| reads_record::<M>(res, SELECT_A) && call_ensures(
                        N::from_query_result_optional,
                        (&res, SELECT_B),
                        Err(e),
                    )
                },
            },
    {
        let m = match M::from_query_result(&res, SELECT_A) {
            Ok(m) => m,
            Err(e) => {
                return Err(e);
            },
        };
        let n = match N::from_query_result_optional(&res, SELECT_B) {
            Ok(n) => n,
            Err(e) => {
                return Err(e);
            },
        };
        Ok((m, n))
    }
}

impl<M, N, O> SelectorTrait for SelectThreeModel<M, N, O> where
    M: FromQueryResult + Sized,
    N: FromQueryResult + Sized,
    O: FromQueryResult + Sized,
 {
    type Item = (M, Option<N>, Option<O>);

    /// The first record and the two optional records, each from the columns
    /// with its prefix; the first error ends the reading.
    fn from_raw_query_result(res: QueryResult) -> (r: Result<(M, Option<N>, Option<O>), DbErr>)
        ensures
            match r {
                Ok((m, n, o)) => {
                    &&& call_ensures(M::from_query_result, (&res, SELECT_A), Ok(m))
                    &&& call_ensures(N::from_query_result_optional, (&res, SELECT_B), Ok(n))
                    &&& call_ensures(O::from_query_result_optional, (&res, SELECT_C), Ok(o))
                },
                Err(e) => {
                    ||| call_ensures(M::from_query_result, (&res, SELECT_A), Err(e))
                    ||| reads_record::<M>(res, SELECT_A) && call_ensures(
                        N::from_query_result_optional,
                        (&res, SELECT_B),
                        Err(e),
                    )
                    ||| reads_record::<M>(res, SELECT_A) && reads_optional_record::<N>(
                        res,
                        SELECT_B,
                    ) && call_ensures(O::from_query_result_optional, (&res, SELECT_C), Err(e))
                },
            },
    {
        let m = match M::from_query_result(&res, SELECT_A) {
            Ok(m) => m,
            Err(e) => {
                return Err(e);
            },
        };
        let n = match N::from_query_result_optional(&res, SELECT_B) {
            Ok(n) => n,
            Err(e) => {
                return Err(e);
            },
        };
        let o = match O::from_query_result_optional(&res, SELECT_C) {
            Ok(o) => o,
            Err(e) => {
                return Err(e);
            },
        };
        Ok((m, n, o))
    }
}

/// Whether the selector can yield an item for the row.
pub open spec fn yields_item<S: SelectorTrait>(row: QueryResult) -> bool {
    exists|item: S::Item| #[trigger] call_ensures(S::from_raw_query_result, (row,), Ok(item))
}

/// A raw statement with the way to read its rows.
#[derive(Debug)]
pub struct SelectorRaw<S> where S: SelectorTrait {
    pub stmt: Statement,
    pub selector: PhantomData<S>,
}

impl<S> SelectorRaw<S> where S: SelectorTrait {
    /// Read the rows of a raw statement as records of type `M`.
    pub fn from_statement<M>(stmt: Statement) -> (r: SelectorRaw<SelectModel<M>>) where
        M: FromQueryResult,

        ensures
            r.stmt == stmt,
    {
        SelectorRaw { stmt, selector: PhantomData }
    }

    /// The same statement, read as records of type `M`.
    pub fn into_model<M>(self) -> (r: SelectorRaw<SelectModel<M>>) where M: FromQueryResult
        ensures
            r.stmt == self.stmt,
    {
        SelectorRaw { stmt: self.stmt, selector: PhantomData }
    }

    /// The same statement, read as rows that keep every column by name.
    pub fn into_json(self) -> (r: SelectorRaw<SelectModel<QueryResult>>)
        ensures
            r.stmt == self.stmt,
    {
        SelectorRaw { stmt: self.stmt, selector: PhantomData }
    }

    /// The statement.
    pub fn into_statement(self) -> (stmt: Statement)
        ensures
            stmt == self.stmt,
    {
        self.stmt
    }

    /// The item of a query for one row: the item of the row, if the query
    /// found one.
    pub fn one(row: Option<QueryResult>) -> (r: Result<Option<S::Item>, DbErr>)
        ensures
            match row {
                None => r matches Ok(None),
                Some(found) => match r {
                    Ok(Some(item)) => call_ensures(
                        S::from_raw_query_result,
                        (found,),
                        Ok(item),
                    ),
                    Ok(None) => false,
                    Err(e) => call_ensures(S::from_raw_query_result, (found,), Err(e)),
                },
            },
    {
        match row {
            Some(found) => match S::from_raw_query_result(found) {
                Ok(item) => Ok(Some(item)),
                Err(e) => Err(e),
            },
            None => Ok(None),
        }
    }

    /// The items of a query for all rows: the item of each row, in order.
    /// The first row that cannot be read ends the reading with its error.
    pub fn all(rows: Vec<QueryResult>) -> (r: Result<Vec<S::Item>, DbErr>)
        ensures
            match r {
                Ok(items) => {
                    &&& items@.len() == rows@.len()
                    &&& forall|i: int|
                        0 <= i < rows@.len() ==> call_ensures(
                            S::from_raw_query_result,
                            (rows@[i],),
                            Ok(#[trigger] items@[i]),
                        )
                },
                Err(e) => exists|i: int|
                    {
                        &&& 0 <= i < rows@.len()
                        &&& call_ensures(S::from_raw_query_result, (#[trigger] rows@[i],), Err(e))
                        &&& forall|j: int| 0 <= j < i ==> yields_item::<S>(#[trigger] rows@[j])
                    },
            },
    {
        let mut models: Vec<S::Item> = Vec::new();
        for row in it: rows
            invariant
                models@.len() == it.index(),
                forall|i: int|
                    0 <= i < it.index() ==> call_ensures(
                        S::from_raw_query_result,
                        (it.seq()[i],),
                        Ok(#[trigger] models@[i]),
                    ),
                forall|j: int| 0 <= j < it.index() ==> yields_item::<S>(#[trigger] it.seq()[j]),
        {
            match S::from_raw_query_result(row) {
                Ok(item) => {
                    models.push(item);
                },
                Err(e) => {
                    return Err(e);
                },
            }
        }
        Ok(models)
    }

    /// The item of one item of a stream: the item of a row, or the error of
    /// the stream handed on.
    pub fn stream_item(from_stream: Result<QueryResult, DbErr>) -> (r: Result<S::Item, DbErr>)
        ensures
            match from_stream {
                Ok(row) => call_ensures(S::from_raw_query_result, (row,), r),
                Err(e) => r == Err::<S::Item, DbErr>(e),
            },
    {
        match from_stream {
            Ok(row) => S::from_raw_query_result(row),
            Err(e) => Err(e),
        }
    }
}

/// A column without the prefix of its name, or none for a column whose
/// name does not start with the prefix.
pub open spec fn without_prefix(pre: Seq<char>, col: (Seq<char>, ValueView)) -> Option<
    (Seq<char>, ValueView),
> {
    if col.0.len() >= pre.len() && col.0.subrange(0, pre.len() as int) == pre {
        Some((col.0.subrange(pre.len() as int, col.0.len() as int), col.1))
    } else {
        None
    }
}

impl FromQueryResult for QueryResult {
    /// The columns of the row whose names start with the prefix, in order,
    /// under their names without it.
    fn from_query_result(res: &QueryResult, pre: &str) -> (r: Result<QueryResult, DbErr>)
        ensures
            r matches Ok(out) && out@ == res@.filter_map(
                |col: (Seq<char>, ValueView)| without_prefix(pre@, col),
            ),
    {
        let ghost f = |col: (Seq<char>, ValueView)| without_prefix(pre@, col);
        let mut row: Vec<(String, Value)> = Vec::new();
        let n = pre.unicode_len();
        let mut i: usize = 0;
        while i < res.row.len()
            invariant
                i <= res.row.len(),
                n == pre@.len(),
                f == |col: (Seq<char>, ValueView)| without_prefix(pre@, col),
                row@.map_values(|p: (String, Value)| (p.0@, p.1@)) == res@.take(i as int).filter_map(
                    f,
                ),
            decreases res.row.len() - i,
        {
            let ghost before = row@.map_values(|p: (String, Value)| (p.0@, p.1@));
            proof {
                res@.lemma_filter_map_take_succ(f, i as int);
            }
            let name = res.row[i].0.as_str();
            let len = name.unicode_len();
            if len >= n {
                let head = name.substring_char(0, n);
                if String::from_str(head) == String::from_str(pre) {
                    let tail = name.substring_char(n, len);
                    let value = res.row[i].1.clone();
                    row.push((String::from_str(tail), value));
                    assert(row@.map_values(|p: (String, Value)| (p.0@, p.1@)) =~= before + seq![
                        (tail@, value@),
                    ]);
                }
            }
            i += 1;
        }
        assert(res@.take(res.row.len() as int) =~= res@);
        Ok(QueryResult { row })
    }
}

} // verus!
