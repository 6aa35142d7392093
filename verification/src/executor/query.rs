//! A row of a query result and the reading of typed values from it.

use crate::codegen::relation::{decimal, decimal_text};
use crate::error::{DbErr, RuntimeErr};
use crate::value::{Value, ValueView};
use vstd::prelude::*;
use vstd::string::StringExecFns;

verus! {

/// A row as a database returned it: the columns by name, in the order of
/// the statement.
#[derive(Clone, Debug, PartialEq)]
pub struct QueryResult {
    pub row: Vec<(String, Value)>,
}

impl View for QueryResult {
    type V = Seq<(Seq<char>, ValueView)>;

    open spec fn view(&self) -> Seq<(Seq<char>, ValueView)> {
        self.row@.map_values(|p: (String, Value)| (p.0@, p.1@))
    }
}

/// Whether `i` is the first column of the row with the given name.
pub open spec fn first_named(row: Seq<(Seq<char>, ValueView)>, name: Seq<char>, i: int) -> bool {
    &&& 0 <= i < row.len()
    &&& row[i].0 == name
    &&& forall|j: int| 0 <= j < i ==> row[j].0 != name
}

/// Whether the row has a column with the given name.
pub open spec fn has_column(row: Seq<(Seq<char>, ValueView)>, name: Seq<char>) -> bool {
    exists|i: int| 0 <= i < row.len() && (#[trigger] row[i]).0 == name
}

/// The value of the first column of the row with the given name.
pub open spec fn column_value(row: Seq<(Seq<char>, ValueView)>, name: Seq<char>) -> ValueView
    recommends
        has_column(row, name),
{
    row[choose|i: int| first_named(row, name, i)].1
}

/// Why a value could not be read from a row.
#[derive(Clone, Debug, PartialEq, Eq)]
pub enum TryGetError {
    /// The column is missing or holds a value of another family.
    DbErr(DbErr),
    /// The column holds `NULL` where a value was asked for; the payload is
    /// the column's name.
    Null(String),
}

impl TryGetError {
    /// The error of the runtime for a value that could not be read: the
    /// carried error, or a type error that names the `NULL` column.
    pub open spec fn spec_into_db_err(self) -> DbErr {
        match self {
            TryGetError::DbErr(inner) => inner,
            TryGetError::Null(n) => DbErr::Type(n),
        }
    }

    /// The error of the runtime for a value that could not be read: the
    /// carried error, or a type error that names the `NULL` column.
    pub fn into_db_err(self) -> (e: DbErr)
        ensures
            e == self.spec_into_db_err(),
    {
        match self {
            TryGetError::DbErr(inner) => inner,
            TryGetError::Null(n) => DbErr::Type(n),
        }
    }
}

impl QueryResult {
    /// A row of the given columns.
    pub fn new(row: Vec<(String, Value)>) -> (r: Self)
        ensures
            r.row == row,
    {
        QueryResult { row }
    }

    /// The value of the column at the given position, if there is one.
    pub fn get_value_at(&self, idx: usize) -> (r: Option<&Value>)
        ensures
            match r {
                Some(v) => idx < self@.len() && v@ == self@[idx as int].1,
                None => idx >= self@.len(),
            },
    {
        if idx < self.row.len() {
            Some(&self.row[idx].1)
        } else {
            None
        }
    }

    /// The name of the column at the given position, or the empty name
    /// where there is none.
    pub fn name_at(&self, idx: usize) -> (r: String)
        ensures
            r@ == if idx < self@.len() {
                self@[idx as int].0
            } else {
                Seq::<char>::empty()
            },
    {
        if idx < self.row.len() {
            self.row[idx].0.clone()
        } else {
            String::new()
        }
    }

    /// The value of the first column with the given name, if there is one.
    pub fn get_value(&self, name: &str) -> (r: Option<&Value>)
        ensures
            match r {
                Some(v) => has_column(self@, name@) && v@ == column_value(self@, name@),
                None => !has_column(self@, name@),
            },
    {
        let wanted = name.to_owned();
        let mut i: usize = 0;
        while i < self.row.len()
            invariant
                i <= self.row.len(),
                wanted@ == name@,
                forall|j: int| 0 <= j < i ==> (#[trigger] self@[j]).0 != name@,
            decreases self.row.len() - i,
        {
            if self.row[i].0 == wanted {
                proof {
                    assert(self@[i as int].0 == name@);
                    assert(first_named(self@, name@, i as int));
                    let k = choose|k: int| first_named(self@, name@, k);
                    assert(k == i);
                }
                return Some(&self.row[i].1);
            }
            i += 1;
        }
        None
    }
}

/// What reading a value of type `T` from a stored value yields: the value
/// where the stored value is of the type's family, `Null` with the label
/// where it is the family's `NULL`, a query error with the label where
/// nothing is stored, and a type error with the label where the stored
/// value is of another family.
pub open spec fn read_as<T>(
    found: Option<ValueView>,
    label: Seq<char>,
    r: Result<T, TryGetError>,
    decodable: spec_fn(ValueView) -> bool,
    decodes: spec_fn(ValueView, T) -> bool,
    is_null_of: spec_fn(ValueView) -> bool,
) -> bool {
    match r {
        Ok(x) => found matches Some(v) && decodable(v) && decodes(v, x),
        Err(TryGetError::Null(n)) => {
            &&& found matches Some(v) && is_null_of(v) && !decodable(v)
            &&& n@ == label
        },
        Err(TryGetError::DbErr(e)) => match found {
            Some(v) => {
                &&& !decodable(v) && !is_null_of(v)
                &&& e matches DbErr::Type(m) && m@ == label
            },
            None => e matches DbErr::Query(RuntimeErr::Internal(m)) && m@ == label,
        },
    }
}

/// The stored value of the first column with the given name.
pub open spec fn found_by_name(row: Seq<(Seq<char>, ValueView)>, name: Seq<char>) -> Option<
    ValueView,
> {
    if has_column(row, name) {
        Some(column_value(row, name))
    } else {
        None
    }
}

/// The stored value of the column at the given position.
pub open spec fn found_at(row: Seq<(Seq<char>, ValueView)>, idx: int) -> Option<ValueView> {
    if 0 <= idx < row.len() {
        Some(row[idx].1)
    } else {
        None
    }
}

/// The name of the column at the given position, or the empty name where
/// the row has no such column.
pub open spec fn name_at(row: Seq<(Seq<char>, ValueView)>, idx: int) -> Seq<char> {
    if 0 <= idx < row.len() {
        row[idx].0
    } else {
        Seq::empty()
    }
}

/// The view of a stored value that was looked up.
pub open spec fn found_view(found: Option<&Value>) -> Option<ValueView> {
    match found {
        Some(v) => Some(v@),
        None => None,
    }
}

/// A Rust type that can be read from a column of a row.
pub trait TryGetable: Sized {
    /// Whether a stored value is a value of this type's family.
    spec fn decodable(v: ValueView) -> bool;

    /// Whether `x` is what a column of this type yields for a stored value.
    spec fn decodes(v: ValueView, x: Self) -> bool;

    /// Whether a stored value is the `NULL` of this type's family, where the
    /// type itself has no place for it.
    spec fn is_null_of(v: ValueView) -> bool;

    /// Read a value of this type from what was found in a column; the label
    /// names the column in the error.
    fn try_from_value(found: Option<&Value>, label: &str) -> (r: Result<Self, TryGetError>)
        ensures
            read_as(found_view(found), label@, r,
                |v: ValueView| Self::decodable(v),
                |v: ValueView, x: Self| Self::decodes(v, x),
                |v: ValueView| Self::is_null_of(v),
            ),
    ;

    /// Read the first column with the given name.
    fn try_get_by(res: &QueryResult, name: &str) -> (r: Result<Self, TryGetError>)
        ensures
            read_as(found_by_name(res@, name@), name@, r,
                |v: ValueView| Self::decodable(v),
                |v: ValueView, x: Self| Self::decodes(v, x),
                |v: ValueView| Self::is_null_of(v),
            ),
    {
        Self::try_from_value(res.get_value(name), name)
    }

    /// Read the column at the given position.
    fn try_get_by_index(res: &QueryResult, idx: usize) -> (r: Result<Self, TryGetError>)
        ensures
            read_as(
                found_at(res@, idx as int),
                if idx < res@.len() {
                    res@[idx as int].0
                } else {
                    Seq::<char>::empty()
                },
                r,
                |v: ValueView| Self::decodable(v),
                |v: ValueView, x: Self| Self::decodes(v, x),
                |v: ValueView| Self::is_null_of(v),
            ),
    {
        let label = res.name_at(idx);
        Self::try_from_value(res.get_value_at(idx), label.as_str())
    }

    /// Read the column whose name is `pre` followed by `col`.
    fn try_get(res: &QueryResult, pre: &str, col: &str) -> (r: Result<Self, TryGetError>)
        ensures
            read_as(found_by_name(res@, pre@ + col@), pre@ + col@, r,
                |v: ValueView| Self::decodable(v),
                |v: ValueView, x: Self| Self::decodes(v, x),
                |v: ValueView| Self::is_null_of(v),
            ),
    {
        let name = String::from_str(pre).concat(col);
        Self::try_get_by(res, name.as_str())
    }
}

/// What reading a value of type `T` from a stored value yields.
pub open spec fn reads<T: TryGetable>(
    found: Option<ValueView>,
    label: Seq<char>,
    r: Result<T, TryGetError>,
) -> bool {
    read_as(
        found,
        label,
        r,
        |v: ValueView| T::decodable(v),
        |v: ValueView, x: T| T::decodes(v, x),
        |v: ValueView| T::is_null_of(v),
    )
}

/// Whether a value of type `T` can be read from what was found: something
/// was found, and it is of the type's family.
pub open spec fn readable<T: TryGetable>(found: Option<ValueView>) -> bool {
    found matches Some(v) && T::decodable(v)
}

/// The error for a column that a row lacks.
pub fn missing_column(name: &str) -> (e: TryGetError)
    ensures
        e matches TryGetError::DbErr(DbErr::Query(RuntimeErr::Internal(m))) && m@ == name@,
{
    TryGetError::DbErr(DbErr::Query(RuntimeErr::Internal(name.to_owned())))
}

/// The error for a column that holds a value of another family.
pub fn wrong_family(name: &str) -> (e: TryGetError)
    ensures
        e matches TryGetError::DbErr(DbErr::Type(m)) && m@ == name@,
{
    TryGetError::DbErr(DbErr::Type(name.to_owned()))
}

impl TryGetable for i32 {
    open spec fn decodable(v: ValueView) -> bool {
        v matches ValueView::Int(Some(_))
    }

    open spec fn decodes(v: ValueView, x: i32) -> bool {
        v == ValueView::Int(Some(x))
    }

    open spec fn is_null_of(v: ValueView) -> bool {
        v == ValueView::Int(None)
    }

    fn try_from_value(found: Option<&Value>, label: &str) -> (r: Result<i32, TryGetError>) {
        match found {
            None => Err(missing_column(label)),
            Some(Value::Int(Some(x))) => Ok(*x),
            Some(Value::Int(None)) => Err(TryGetError::Null(label.to_owned())),
            Some(_) => Err(wrong_family(label)),
        }
    }
}

impl TryGetable for i64 {
    open spec fn decodable(v: ValueView) -> bool {
        v matches ValueView::BigInt(Some(_))
    }

    open spec fn decodes(v: ValueView, x: i64) -> bool {
        v == ValueView::BigInt(Some(x))
    }

    open spec fn is_null_of(v: ValueView) -> bool {
        v == ValueView::BigInt(None)
    }

    fn try_from_value(found: Option<&Value>, label: &str) -> (r: Result<i64, TryGetError>) {
        match found {
            None => Err(missing_column(label)),
            Some(Value::BigInt(Some(x))) => Ok(*x),
            Some(Value::BigInt(None)) => Err(TryGetError::Null(label.to_owned())),
            Some(_) => Err(wrong_family(label)),
        }
    }
}

impl TryGetable for bool {
    open spec fn decodable(v: ValueView) -> bool {
        v matches ValueView::Bool(Some(_))
    }

    open spec fn decodes(v: ValueView, x: bool) -> bool {
        v == ValueView::Bool(Some(x))
    }

    open spec fn is_null_of(v: ValueView) -> bool {
        v == ValueView::Bool(None)
    }

    fn try_from_value(found: Option<&Value>, label: &str) -> (r: Result<bool, TryGetError>) {
        match found {
            None => Err(missing_column(label)),
            Some(Value::Bool(Some(x))) => Ok(*x),
            Some(Value::Bool(None)) => Err(TryGetError::Null(label.to_owned())),
            Some(_) => Err(wrong_family(label)),
        }
    }
}

impl TryGetable for String {
    open spec fn decodable(v: ValueView) -> bool {
        v matches ValueView::String(Some(_))
    }

    open spec fn decodes(v: ValueView, x: String) -> bool {
        v == ValueView::String(Some(x@))
    }

    open spec fn is_null_of(v: ValueView) -> bool {
        v == ValueView::String(None)
    }

    fn try_from_value(found: Option<&Value>, label: &str) -> (r: Result<String, TryGetError>) {
        match found {
            None => Err(missing_column(label)),
            Some(Value::String(Some(x))) => Ok(x.clone()),
            Some(Value::String(None)) => Err(TryGetError::Null(label.to_owned())),
            Some(_) => Err(wrong_family(label)),
        }
    }
}

impl<T: TryGetable> TryGetable for Option<T> {
    /// A nullable column holds the values of its family and the family's
    /// `NULL`.
    open spec fn decodable(v: ValueView) -> bool {
        T::decodable(v) || T::is_null_of(v)
    }

    open spec fn decodes(v: ValueView, x: Option<T>) -> bool {
        match x {
            Some(y) => T::decodable(v) && T::decodes(v, y),
            None => !T::decodable(v) && T::is_null_of(v),
        }
    }

    open spec fn is_null_of(v: ValueView) -> bool {
        false
    }

    fn try_from_value(found: Option<&Value>, label: &str) -> (r: Result<Option<T>, TryGetError>) {
        match T::try_from_value(found, label) {
            Ok(v) => Ok(Some(v)),
            Err(TryGetError::Null(_)) => Ok(None),
            Err(TryGetError::DbErr(e)) => Err(TryGetError::DbErr(e)),
        }
    }
}

/// A Rust type that can be read from several columns of a row.
pub trait TryGetableMany: Sized {
    /// Read the value from the columns with the given names, each after the
    /// prefix.
    fn try_get_many(res: &QueryResult, pre: &str, cols: &Vec<String>) -> Result<Self, TryGetError>;

    /// Read the value from the first columns of the row.
    fn try_get_many_by_index(res: &QueryResult) -> Result<Self, TryGetError>;
}

/// What the error for a list of column names of the wrong length says:
/// how many names were expected and how many were given.
pub open spec fn wrong_column_count_message(expected: nat, actual: nat) -> Seq<char> {
    "Expect "@ + decimal(expected) + " column names supplied but got slice of length "@ + decimal(
        actual,
    )
}

/// Whether an outcome is the error for a list of column names of the wrong
/// length.
pub open spec fn is_wrong_column_count<T>(r: Result<T, TryGetError>, expected: nat, actual: nat) -> bool {
    r matches Err(TryGetError::DbErr(DbErr::Type(msg))) && msg@ == wrong_column_count_message(
        expected,
        actual,
    )
}

/// The error for a list of column names of the wrong length.
pub fn wrong_column_count(expected: usize, actual: usize) -> (e: TryGetError)
    ensures
        e matches TryGetError::DbErr(DbErr::Type(msg)) && msg@ == wrong_column_count_message(
            expected as nat,
            actual as nat,
        ),
{
    let msg = String::from_str("Expect ").concat(decimal_text(expected).as_str()).concat(
        " column names supplied but got slice of length ",
    ).concat(decimal_text(actual).as_str());
    assert(msg@ =~= wrong_column_count_message(expected as nat, actual as nat));
    TryGetError::DbErr(DbErr::Type(msg))
}

impl<T: TryGetable> TryGetableMany for T {
    /// One column: the list must name exactly one.
    fn try_get_many(res: &QueryResult, pre: &str, cols: &Vec<String>) -> (r: Result<
        T,
        TryGetError,
    >)
        ensures
            cols@.len() == 1 ==> reads::<T>(
                found_by_name(res@, pre@ + cols@[0]@),
                pre@ + cols@[0]@,
                r,
            ),
            cols@.len() != 1 ==> is_wrong_column_count(r, 1, cols@.len()),
    {
        if cols.len() != 1 {
            return Err(wrong_column_count(1, cols.len()));
        }
        T::try_get(res, pre, cols[0].as_str())
    }

    /// The first column of the row.
    fn try_get_many_by_index(res: &QueryResult) -> (r: Result<T, TryGetError>)
        ensures
            reads::<T>(
                found_at(res@, 0),
                if 0 < res@.len() {
                    res@[0].0
                } else {
                    Seq::<char>::empty()
                },
                r,
            ),
    {
        T::try_get_by_index(res, 0)
    }
}

impl<A: TryGetable, B: TryGetable> TryGetableMany for (A, B) {
    /// Two columns: the list must name exactly two. The first is read as
    /// `A`, the second as `B`, each by its name after the prefix. The pair
    /// is read if and only if each column is there and holds a value of its
    /// type's family. Else the error is that of the first column if that
    /// cannot be read, and that of the second otherwise.
    fn try_get_many(res: &QueryResult, pre: &str, cols: &Vec<String>) -> (r: Result<
        (A, B),
        TryGetError,
    >)
        ensures
            cols@.len() != 2 ==> is_wrong_column_count(r, 2, cols@.len()),
            cols@.len() == 2 ==> (r is Ok <==> readable::<A>(
                found_by_name(res@, pre@ + cols@[0]@),
            ) && readable::<B>(found_by_name(res@, pre@ + cols@[1]@))),
            cols@.len() == 2 ==> match r {
                Ok((a, b)) => {
                    &&& reads::<A>(found_by_name(res@, pre@ + cols@[0]@), pre@ + cols@[0]@, Ok(a))
                    &&& reads::<B>(found_by_name(res@, pre@ + cols@[1]@), pre@ + cols@[1]@, Ok(b))
                },
                Err(e) => if readable::<A>(found_by_name(res@, pre@ + cols@[0]@)) {
                    reads::<B>(found_by_name(res@, pre@ + cols@[1]@), pre@ + cols@[1]@, Err(e))
                } else {
                    reads::<A>(found_by_name(res@, pre@ + cols@[0]@), pre@ + cols@[0]@, Err(e))
                },
            },
    {
        if cols.len() != 2 {
            return Err(wrong_column_count(2, cols.len()));
        }
        let a = match A::try_get(res, pre, cols[0].as_str()) {
            Ok(a) => a,
            Err(e) => {
                return Err(e);
            },
        };
        let b = match B::try_get(res, pre, cols[1].as_str()) {
            Ok(b) => b,
            Err(e) => {
                return Err(e);
            },
        };
        Ok((a, b))
    }

    /// The first two columns of the row: the first read as `A`, the second
    /// as `B`. The pair is read if and only if both columns are there and
    /// each holds a value of its type's family. Else the error is that of
    /// the first column if that cannot be read, and that of the second
    /// otherwise.
    fn try_get_many_by_index(res: &QueryResult) -> (r: Result<(A, B), TryGetError>)
        ensures
            r is Ok <==> readable::<A>(found_at(res@, 0)) && readable::<B>(found_at(res@, 1)),
            match r {
                Ok((a, b)) => {
                    &&& reads::<A>(found_at(res@, 0), name_at(res@, 0), Ok(a))
                    &&& reads::<B>(found_at(res@, 1), name_at(res@, 1), Ok(b))
                },
                Err(e) => if readable::<A>(found_at(res@, 0)) {
                    reads::<B>(found_at(res@, 1), name_at(res@, 1), Err(e))
                } else {
                    reads::<A>(found_at(res@, 0), name_at(res@, 0), Err(e))
                },
            },
    {
        let a = match A::try_get_by_index(res, 0) {
            Ok(a) => a,
            Err(e) => {
                return Err(e);
            },
        };
        let b = match B::try_get_by_index(res, 1) {
            Ok(b) => b,
            Err(e) => {
                return Err(e);
            },
        };
        Ok((a, b))
    }
}

} // verus!
