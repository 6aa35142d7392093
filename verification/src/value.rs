//! The scalar values a column may hold.

pub mod convert;

use vstd::prelude::*;
use vstd::std_specs::cmp::PartialEqSpecImpl;

verus! {

/// A database-storable scalar. Each family is nullable: the payload `None`
/// is the SQL `NULL` of that family.
#[derive(Debug)]
pub enum Value {
    Bool(Option<bool>),
    TinyInt(Option<i8>),
    SmallInt(Option<i16>),
    Int(Option<i32>),
    BigInt(Option<i64>),
    TinyUnsigned(Option<u8>),
    SmallUnsigned(Option<u16>),
    Unsigned(Option<u32>),
    BigUnsigned(Option<u64>),
    String(Option<String>),
    Char(Option<char>),
    Bytes(Option<Vec<u8>>),
}

/// The mathematical content of a [`Value`]: text and blobs as sequences.
pub enum ValueView {
    Bool(Option<bool>),
    TinyInt(Option<i8>),
    SmallInt(Option<i16>),
    Int(Option<i32>),
    BigInt(Option<i64>),
    TinyUnsigned(Option<u8>),
    SmallUnsigned(Option<u16>),
    Unsigned(Option<u32>),
    BigUnsigned(Option<u64>),
    String(Option<Seq<char>>),
    Char(Option<char>),
    Bytes(Option<Seq<u8>>),
}

impl View for Value {
    type V = ValueView;

    open spec fn view(&self) -> ValueView {
        match *self {
            Value::Bool(x) => ValueView::Bool(x),
            Value::TinyInt(x) => ValueView::TinyInt(x),
            Value::SmallInt(x) => ValueView::SmallInt(x),
            Value::Int(x) => ValueView::Int(x),
            Value::BigInt(x) => ValueView::BigInt(x),
            Value::TinyUnsigned(x) => ValueView::TinyUnsigned(x),
            Value::SmallUnsigned(x) => ValueView::SmallUnsigned(x),
            Value::Unsigned(x) => ValueView::Unsigned(x),
            Value::BigUnsigned(x) => ValueView::BigUnsigned(x),
            Value::String(x) => ValueView::String(
                match x {
                    Some(s) => Some(s@),
                    None => None,
                },
            ),
            Value::Char(x) => ValueView::Char(x),
            Value::Bytes(x) => ValueView::Bytes(
                match x {
                    Some(b) => Some(b@),
                    None => None,
                },
            ),
        }
    }
}

impl Value {
    /// Structural equality: same family and same payload.
    pub fn same(&self, other: &Value) -> (r: bool)
        ensures
            r == (self@ == other@),
    {
        match (self, other) {
            (Value::Bool(a), Value::Bool(b)) => a == b,
            (Value::TinyInt(a), Value::TinyInt(b)) => a == b,
            (Value::SmallInt(a), Value::SmallInt(b)) => a == b,
            (Value::Int(a), Value::Int(b)) => a == b,
            (Value::BigInt(a), Value::BigInt(b)) => a == b,
            (Value::TinyUnsigned(a), Value::TinyUnsigned(b)) => a == b,
            (Value::SmallUnsigned(a), Value::SmallUnsigned(b)) => a == b,
            (Value::Unsigned(a), Value::Unsigned(b)) => a == b,
            (Value::BigUnsigned(a), Value::BigUnsigned(b)) => a == b,
            (Value::String(a), Value::String(b)) => match (a, b) {
                (Some(x), Some(y)) => *x == *y,
                (None, None) => true,
                _ => false,
            },
            (Value::Char(a), Value::Char(b)) => a == b,
            (Value::Bytes(a), Value::Bytes(b)) => match (a, b) {
                (Some(x), Some(y)) => bytes_same(x, y),
                (None, None) => true,
                _ => false,
            },
            _ => false,
        }
    }
}

/// Whether two byte vectors hold the same bytes.
pub fn bytes_same(a: &Vec<u8>, b: &Vec<u8>) -> (r: bool)
    ensures
        r == (a@ == b@),
{
    if a.len() != b.len() {
        return false;
    }
    let mut i: usize = 0;
    while i < a.len()
        invariant
            a.len() == b.len(),
            i <= a.len(),
            forall|j: int| 0 <= j < i ==> a@[j] == b@[j],
        decreases a.len() - i,
    {
        if a[i] != b[i] {
            return false;
        }
        i += 1;
    }
    assert(a@ =~= b@);
    true
}

impl Clone for Value {
    fn clone(&self) -> (r: Self)
        ensures
            r@ == self@,
    {
        match self {
            Value::Bool(x) => Value::Bool(*x),
            Value::TinyInt(x) => Value::TinyInt(*x),
            Value::SmallInt(x) => Value::SmallInt(*x),
            Value::Int(x) => Value::Int(*x),
            Value::BigInt(x) => Value::BigInt(*x),
            Value::TinyUnsigned(x) => Value::TinyUnsigned(*x),
            Value::SmallUnsigned(x) => Value::SmallUnsigned(*x),
            Value::Unsigned(x) => Value::Unsigned(*x),
            Value::BigUnsigned(x) => Value::BigUnsigned(*x),
            Value::String(x) => match x {
                Some(s) => Value::String(Some(s.clone())),
                None => Value::String(None),
            },
            Value::Char(x) => Value::Char(*x),
            Value::Bytes(x) => match x {
                Some(b) => Value::Bytes(Some(b.clone())),
                None => Value::Bytes(None),
            },
        }
    }
}

impl PartialEq for Value {
    fn eq(&self, other: &Self) -> (r: bool) {
        self.same(other)
    }
}

impl PartialEqSpecImpl for Value {
    open spec fn obeys_eq_spec() -> bool {
        true
    }

    open spec fn eq_spec(&self, other: &Self) -> bool {
        self@ == other@
    }
}

impl Eq for Value {

}

} // verus!

verus! {

/// The value of a primary key: one value per key column, in declaration
/// order. Keys of one, two and three columns have a shape of their own.
#[derive(Clone, Debug, PartialEq)]
pub enum ValueTuple {
    One(Value),
    Two(Value, Value),
    Three(Value, Value, Value),
    Many(Vec<Value>),
}

/// The mathematical content of a [`ValueTuple`].
pub enum ValueTupleView {
    One(ValueView),
    Two(ValueView, ValueView),
    Three(ValueView, ValueView, ValueView),
    Many(Seq<ValueView>),
}

/// The views of a sequence of values.
pub open spec fn views(s: Seq<Value>) -> Seq<ValueView> {
    s.map_values(|v: Value| v@)
}

impl View for ValueTuple {
    type V = ValueTupleView;

    open spec fn view(&self) -> ValueTupleView {
        match *self {
            ValueTuple::One(a) => ValueTupleView::One(a@),
            ValueTuple::Two(a, b) => ValueTupleView::Two(a@, b@),
            ValueTuple::Three(a, b, c) => ValueTupleView::Three(a@, b@, c@),
            ValueTuple::Many(v) => ValueTupleView::Many(views(v@)),
        }
    }
}

impl ValueTupleView {
    /// The values of the tuple, in order.
    pub open spec fn values(self) -> Seq<ValueView> {
        match self {
            ValueTupleView::One(a) => seq![a],
            ValueTupleView::Two(a, b) => seq![a, b],
            ValueTupleView::Three(a, b, c) => seq![a, b, c],
            ValueTupleView::Many(v) => v,
        }
    }

    /// The tuple of the given arity over the given values: the shape is
    /// chosen by the arity, the content by the values.
    pub open spec fn of_arity(arity: nat, values: Seq<ValueView>) -> ValueTupleView
        recommends
            values.len() == arity,
    {
        if arity == 1 {
            ValueTupleView::One(values[0])
        } else if arity == 2 {
            ValueTupleView::Two(values[0], values[1])
        } else if arity == 3 {
            ValueTupleView::Three(values[0], values[1], values[2])
        } else {
            ValueTupleView::Many(values)
        }
    }
}

impl ValueTuple {
    /// The number of values in the tuple.
    pub fn arity(&self) -> (n: usize)
        ensures
            n == self@.values().len(),
    {
        match self {
            ValueTuple::One(_) => 1,
            ValueTuple::Two(_, _) => 2,
            ValueTuple::Three(_, _, _) => 3,
            ValueTuple::Many(vec) => vec.len(),
        }
    }

    /// The values of the tuple as a vector, in order.
    pub fn into_values(self) -> (v: Vec<Value>)
        ensures
            views(v@) == self@.values(),
    {
        let v = match self {
            ValueTuple::One(a) => vec![a],
            ValueTuple::Two(a, b) => vec![a, b],
            ValueTuple::Three(a, b, c) => vec![a, b, c],
            ValueTuple::Many(vec) => vec,
        };
        assert(views(v@) =~= self@.values());
        v
    }
}

} // verus!
