//! Active records: one three-state slot per column of an entity.

use crate::entity::active_value::{ActiveValue, SlotView};
use crate::entity::base_entity::{pk_arity, pk_columns, EntityTrait};
use crate::entity::column::Iterable;
use crate::entity::primary_key::{PrimaryKeyArity, PrimaryKeyToColumn, PrimaryKeyTrait};
use crate::error::DbErr;
use crate::value::convert::Nullable;
use crate::value::{views, Value, ValueTuple, ValueTupleView, ValueView};
use vstd::prelude::*;

verus! {

/// The slots of a record in which every column is `NotSet`.
pub open spec fn all_not_set<E: EntityTrait>() -> Map<E::Column, SlotView> {
    Map::total(|c: E::Column| SlotView::NotSet)
}

/// The slots after a reset of every column: each `Unchanged` slot is
/// `Assigned` with the same value, the others stay.
pub open spec fn reset_all_spec<E: EntityTrait>(slots: Map<E::Column, SlotView>) -> Map<
    E::Column,
    SlotView,
> {
    slots.map_values(|s: SlotView| s.reset())
}

/// Whether at least one slot is `Assigned`.
pub open spec fn spec_is_changed<E: EntityTrait>(slots: Map<E::Column, SlotView>) -> bool {
    exists|c: E::Column| (#[trigger] slots[c]) is Assigned
}

/// Whether the first `n` primary-key columns exist and carry a value.
pub open spec fn pk_present<E: EntityTrait>(slots: Map<E::Column, SlotView>, n: nat) -> bool {
    &&& n <= pk_columns::<E>().len()
    &&& forall|i: int| 0 <= i < n ==> !(slots[#[trigger] pk_columns::<E>()[i]] is NotSet)
}

/// The values of the first `n` primary-key columns, in declaration order.
pub open spec fn pk_values<E: EntityTrait>(slots: Map<E::Column, SlotView>, n: nat) -> Seq<
    ValueView,
> {
    Seq::new(n, |i: int| slots[pk_columns::<E>()[i]].payload().unwrap())
}

/// The primary key held by the slots of a record: the values of as many key
/// columns as the key's value type declares, in declaration order and shaped
/// by that arity; none where such a column is missing or carries no value.
pub open spec fn pk_value_spec<E: EntityTrait>(slots: Map<E::Column, SlotView>) -> Option<
    ValueTupleView,
> {
    let n = pk_arity::<E>();
    if pk_present::<E>(slots, n) {
        Some(ValueTupleView::of_arity(n, pk_values::<E>(slots, n)))
    } else {
        None
    }
}

/// A record whose slots are all `Unchanged`, as one freshly made from a
/// stored row, is not changed.
pub proof fn lemma_unchanged_is_not_changed<E: EntityTrait>(slots: Map<E::Column, SlotView>)
    requires
        forall|c: E::Column| (#[trigger] slots[c]) is Unchanged,
    ensures
        !spec_is_changed::<E>(slots),
{
}

/// A record is changed once a value is assigned to one of its columns,
/// whatever the value and whatever the slot held before.
pub proof fn lemma_assigned_is_changed<E: EntityTrait>(
    slots: Map<E::Column, SlotView>,
    c: E::Column,
    v: ValueView,
)
    ensures
        spec_is_changed::<E>(slots.insert(c, SlotView::Assigned(v))),
{
    assert(slots.insert(c, SlotView::Assigned(v))[c] is Assigned);
}

/// Resetting a record whose slots are all `Unchanged` yields a record whose
/// slots are all `Assigned`, with the same values.
pub proof fn lemma_reset_all_of_unchanged<E: EntityTrait>(slots: Map<E::Column, SlotView>)
    requires
        slots.dom().is_full(),
        forall|c: E::Column| (#[trigger] slots[c]) is Unchanged,
    ensures
        forall|c: E::Column| #[trigger]
            reset_all_spec::<E>(slots)[c] == SlotView::Assigned(slots[c].payload().unwrap()),
{
    assert forall|c: E::Column| #[trigger]
        reset_all_spec::<E>(slots)[c] == SlotView::Assigned(slots[c].payload().unwrap()) by {
        assert(slots.dom().contains(c));
        assert(slots[c] is Unchanged);
    }
}

/// Resetting a record whose slots are all `NotSet` changes nothing.
pub proof fn lemma_reset_all_of_not_set<E: EntityTrait>()
    ensures
        reset_all_spec::<E>(all_not_set::<E>()) == all_not_set::<E>(),
{
    assert(reset_all_spec::<E>(all_not_set::<E>()) =~= all_not_set::<E>());
}

/// The primary key of a record has as many values as the key's value type
/// declares, in the declaration order of the key columns. A key of two
/// columns is a pair.
pub proof fn lemma_pk_value_shape<E: EntityTrait>(slots: Map<E::Column, SlotView>)
    requires
        pk_present::<E>(slots, pk_arity::<E>()),
    ensures
        pk_value_spec::<E>(slots) is Some,
        pk_value_spec::<E>(slots).unwrap().values() == pk_values::<E>(slots, pk_arity::<E>()),
        pk_value_spec::<E>(slots).unwrap().values().len() == pk_arity::<E>(),
        pk_arity::<E>() == 2 ==> pk_value_spec::<E>(slots) == Some(
            ValueTupleView::Two(
                slots[pk_columns::<E>()[0]].payload().unwrap(),
                slots[pk_columns::<E>()[1]].payload().unwrap(),
            ),
        ),
        pk_arity::<E>() >= 4 ==> pk_value_spec::<E>(slots) == Some(
            ValueTupleView::Many(pk_values::<E>(slots, pk_arity::<E>())),
        ),
{
    let n = pk_arity::<E>();
    let vals = pk_values::<E>(slots, n);
    assert(ValueTupleView::of_arity(n, vals).values() =~= vals);
}

/// An active record: a mutable row that holds one [`ActiveValue`] for each
/// column of its entity, addressed by column.
pub trait ActiveModelTrait: Sized {
    /// The entity this record belongs to.
    type Entity: EntityTrait;

    /// The slots of the record, by column.
    spec fn slots(&self) -> Map<<Self::Entity as EntityTrait>::Column, SlotView>;

    /// Whether a column can hold a value.
    spec fn accepts(c: <Self::Entity as EntityTrait>::Column, v: ValueView) -> bool;

    /// A record has a slot for every column of its entity.
    proof fn lemma_slots_total(&self)
        ensures
            self.slots().dom().is_full(),
    ;

    /// Every value that a record holds is one that its column can hold.
    proof fn lemma_payload_accepted(&self, c: <Self::Entity as EntityTrait>::Column)
        ensures
            self.slots()[c].payload() matches Some(v) ==> Self::accepts(c, v),
    ;

    /// Move the slot of a column out; the slot is `NotSet` afterwards.
    fn take(&mut self, c: <Self::Entity as EntityTrait>::Column) -> (r: ActiveValue<Value>)
        ensures
            r@ == old(self).slots()[c],
            final(self).slots() == old(self).slots().insert(c, SlotView::NotSet),
    ;

    /// A copy of the slot of a column.
    fn get(&self, c: <Self::Entity as EntityTrait>::Column) -> (r: ActiveValue<Value>)
        ensures
            r@ == self.slots()[c],
    ;

    /// Assign a value to a column.
    fn set(&mut self, c: <Self::Entity as EntityTrait>::Column, v: Value)
        requires
            Self::accepts(c, v@),
        ensures
            final(self).slots() == old(self).slots().insert(c, SlotView::Assigned(v@)),
    ;

    /// Put the slot of a column into the `NotSet` state.
    fn not_set(&mut self, c: <Self::Entity as EntityTrait>::Column)
        ensures
            final(self).slots() == old(self).slots().insert(c, SlotView::NotSet),
    ;

    /// Whether the slot of a column is `NotSet`.
    fn is_not_set(&self, c: <Self::Entity as EntityTrait>::Column) -> (r: bool)
        ensures
            r == (self.slots()[c] is NotSet),
    ;

    /// A record with every slot `NotSet`.
    fn default() -> (r: Self)
        ensures
            r.slots() == all_not_set::<Self::Entity>(),
    ;

    /// A record with every slot `Assigned` to the default value of its
    /// type, or `NotSet` where the type has none.
    fn default_values() -> (r: Self)
        ensures
            forall|c: <Self::Entity as EntityTrait>::Column| !(r.slots()[c] is Unchanged),
    ;

    /// Turn the slot of a column from `Unchanged` into `Assigned`; an
    /// `Assigned` or `NotSet` slot stays.
    fn reset(&mut self, c: <Self::Entity as EntityTrait>::Column)
        ensures
            final(self).slots() == old(self).slots().insert(c, old(self).slots()[c].reset()),
    ;

    /// Turn every `Unchanged` slot into `Assigned`, with the same value;
    /// `Assigned` and `NotSet` slots stay.
    fn reset_all(self) -> (r: Self)
        ensures
            r.slots() == reset_all_spec::<Self::Entity>(self.slots()),
    {
        let mut me = self;
        let cols = <Self::Entity as EntityTrait>::Column::iter();
        proof {
            <Self::Entity as EntityTrait>::Column::lemma_iter_distinct();
            self.lemma_slots_total();
        }
        let mut i: usize = 0;
        while i < cols.len()
            invariant
                i <= cols.len(),
                cols@ == <Self::Entity as EntityTrait>::Column::spec_iter(),
                cols@.no_duplicates(),
                me.slots().dom().is_full(),
                forall|j: int|
                    0 <= j < i ==> me.slots()[#[trigger] cols@[j]] == self.slots()[cols@[j]].reset(),
                forall|j: int|
                    i <= j < cols.len() ==> me.slots()[#[trigger] cols@[j]] == self.slots()[cols@[j]],
            decreases cols.len() - i,
        {
            me.reset(cols[i]);
            proof {
                me.lemma_slots_total();
            }
            i += 1;
        }
        proof {
            let want = reset_all_spec::<Self::Entity>(self.slots());
            assert forall|c: <Self::Entity as EntityTrait>::Column|
                me.slots().dom().contains(c) && want.dom().contains(c) && #[trigger] me.slots()[c]
                    == want[c] by {
                <Self::Entity as EntityTrait>::Column::lemma_iter_complete(c);
                let j = choose|j: int| 0 <= j < cols@.len() && cols@[j] == c;
                assert(me.slots()[cols@[j]] == self.slots()[cols@[j]].reset());
            }
            assert(me.slots() =~= want);
        }
        me
    }

    /// The primary key of the record, or `None` where a key column carries
    /// no value.
    fn get_primary_key_value(&self) -> (r: Option<ValueTuple>)
        ensures
            match r {
                Some(t) => pk_value_spec::<Self::Entity>(self.slots()) == Some(t@),
                None => pk_value_spec::<Self::Entity>(self.slots()) is None,
            },
    {
        let n: usize =
            <<<Self::Entity as EntityTrait>::PrimaryKey as PrimaryKeyTrait>::ValueType as PrimaryKeyArity>::arity();
        let keys = <Self::Entity as EntityTrait>::PrimaryKey::iter();
        if n > keys.len() {
            return None;
        }
        let ghost cols = pk_columns::<Self::Entity>();
        let mut vals: Vec<Value> = Vec::new();
        let mut i: usize = 0;
        while i < n
            invariant
                i <= n <= keys.len(),
                n == pk_arity::<Self::Entity>(),
                keys@ == <Self::Entity as EntityTrait>::PrimaryKey::spec_iter(),
                cols == pk_columns::<Self::Entity>(),
                cols.len() == keys@.len(),
                vals@.len() == i,
                forall|j: int| 0 <= j < i ==> !(self.slots()[#[trigger] cols[j]] is NotSet),
                forall|j: int|
                    0 <= j < i ==> self.slots()[cols[j]].payload() == Some((#[trigger] vals@[j])@),
            decreases n - i,
        {
            let col = keys[i].into_column();
            assert(col == cols[i as int]);
            match self.get(col) {
                ActiveValue::Assigned(v) => {
                    vals.push(v);
                },
                ActiveValue::Unchanged(v) => {
                    vals.push(v);
                },
                ActiveValue::NotSet => {
                    assert(self.slots()[cols[i as int]] is NotSet);
                    return None;
                },
            }
            i += 1;
        }
        assert(pk_present::<Self::Entity>(self.slots(), n as nat));
        assert(views(vals@) =~= pk_values::<Self::Entity>(self.slots(), n as nat));
        if n == 1 {
            let a = vals.pop().unwrap();
            Some(ValueTuple::One(a))
        } else if n == 2 {
            let b = vals.pop().unwrap();
            let a = vals.pop().unwrap();
            Some(ValueTuple::Two(a, b))
        } else if n == 3 {
            let c = vals.pop().unwrap();
            let b = vals.pop().unwrap();
            let a = vals.pop().unwrap();
            Some(ValueTuple::Three(a, b, c))
        } else {
            Some(ValueTuple::Many(vals))
        }
    }

    /// Whether any slot of the record is `Assigned`.
    fn is_changed(&self) -> (r: bool)
        ensures
            r == spec_is_changed::<Self::Entity>(self.slots()),
    {
        let cols = <Self::Entity as EntityTrait>::Column::iter();
        let mut i: usize = 0;
        while i < cols.len()
            invariant
                i <= cols.len(),
                cols@ == <Self::Entity as EntityTrait>::Column::spec_iter(),
                forall|j: int| 0 <= j < i ==> !(self.slots()[#[trigger] cols@[j]] is Assigned),
            decreases cols.len() - i,
        {
            if self.get(cols[i]).is_set() {
                assert(self.slots()[cols@[i as int]] is Assigned);
                return true;
            }
            i += 1;
        }
        proof {
            assert forall|c: <Self::Entity as EntityTrait>::Column|
                !((#[trigger] self.slots()[c]) is Assigned) by {
                <Self::Entity as EntityTrait>::Column::lemma_iter_complete(c);
                let j = choose|j: int| 0 <= j < cols@.len() && cols@[j] == c;
                assert(!(self.slots()[cols@[j]] is Assigned));
            }
        }
        false
    }
}

/// The hooks of the lifecycle of an active record. Every hook passes its
/// argument through unless it is overridden.
pub trait ActiveModelBehavior: ActiveModelTrait {
    /// The record that a write of this active record returns.
    type Model;

    /// A new active record with every slot `NotSet`.
    fn new() -> (r: Self)
        default_ensures
            r.slots() == all_not_set::<Self::Entity>(),
    {
        <Self as ActiveModelTrait>::default()
    }

    /// Called before an insert (`insert` is true) or an update.
    fn before_save(self, insert: bool) -> (r: Result<Self, DbErr>)
        default_ensures
            r == Ok::<Self, DbErr>(self),
    {
        Ok(self)
    }

    /// Called after an insert (`insert` is true) or an update, with the
    /// record that the write returned.
    fn after_save(model: Self::Model, insert: bool) -> (r: Result<Self::Model, DbErr>)
        default_ensures
            r == Ok::<Self::Model, DbErr>(model),
    {
        Ok(model)
    }

    /// Called before a delete.
    fn before_delete(self) -> (r: Result<Self, DbErr>)
        default_ensures
            r == Ok::<Self, DbErr>(self),
    {
        Ok(self)
    }

    /// Called after a delete.
    fn after_delete(self) -> (r: Result<Self, DbErr>)
        default_ensures
            r == Ok::<Self, DbErr>(self),
    {
        Ok(self)
    }
}

/// A type that can be turned into an active record.
pub trait IntoActiveModel<A> where A: ActiveModelTrait {
    /// The active record of this value.
    fn into_active_model(self) -> A;
}

impl<A> IntoActiveModel<A> for A where A: ActiveModelTrait {
    fn into_active_model(self) -> (r: A)
        ensures
            r == self,
    {
        self
    }
}

/// A type that can be turned into an [`ActiveValue`].
pub trait IntoActiveValue<V> where V: Into<Value> {
    /// The active value of this value.
    fn into_active_value(self) -> ActiveValue<V>;
}

impl<V> IntoActiveValue<Option<V>> for Option<V> where
    V: IntoActiveValue<V> + Into<Value> + Nullable,
 {
    /// `Some(v)` is assigned as `Some(v)`; `None` leaves the slot `NotSet`.
    fn into_active_value(self) -> (r: ActiveValue<Option<V>>)
        ensures
            r == match self {
                Some(value) => ActiveValue::Assigned(Some(value)),
                None => ActiveValue::NotSet,
            },
    {
        match self {
            Some(value) => ActiveValue::Assigned(Some(value)),
            None => ActiveValue::NotSet,
        }
    }
}

impl<V> IntoActiveValue<Option<V>> for Option<Option<V>> where
    V: IntoActiveValue<V> + Into<Value> + Nullable,
 {
    /// `Some(v)` is assigned as `v`, which may be `NULL`; `None` leaves the
    /// slot `NotSet`.
    fn into_active_value(self) -> (r: ActiveValue<Option<V>>)
        ensures
            r == match self {
                Some(value) => ActiveValue::Assigned(value),
                None => ActiveValue::NotSet,
            },
    {
        match self {
            Some(value) => ActiveValue::Assigned(value),
            None => ActiveValue::NotSet,
        }
    }
}

} // verus!

verus! {

impl IntoActiveValue<bool> for bool {
    fn into_active_value(self) -> (r: ActiveValue<bool>)
        ensures
            r == ActiveValue::Assigned(self),
    {
        ActiveValue::Assigned(self)
    }
}

impl IntoActiveValue<i8> for i8 {
    fn into_active_value(self) -> (r: ActiveValue<i8>)
        ensures
            r == ActiveValue::Assigned(self),
    {
        ActiveValue::Assigned(self)
    }
}

impl IntoActiveValue<i16> for i16 {
    fn into_active_value(self) -> (r: ActiveValue<i16>)
        ensures
            r == ActiveValue::Assigned(self),
    {
        ActiveValue::Assigned(self)
    }
}

impl IntoActiveValue<i32> for i32 {
    fn into_active_value(self) -> (r: ActiveValue<i32>)
        ensures
            r == ActiveValue::Assigned(self),
    {
        ActiveValue::Assigned(self)
    }
}

impl IntoActiveValue<i64> for i64 {
    fn into_active_value(self) -> (r: ActiveValue<i64>)
        ensures
            r == ActiveValue::Assigned(self),
    {
        ActiveValue::Assigned(self)
    }
}

impl IntoActiveValue<u8> for u8 {
    fn into_active_value(self) -> (r: ActiveValue<u8>)
        ensures
            r == ActiveValue::Assigned(self),
    {
        ActiveValue::Assigned(self)
    }
}

impl IntoActiveValue<u16> for u16 {
    fn into_active_value(self) -> (r: ActiveValue<u16>)
        ensures
            r == ActiveValue::Assigned(self),
    {
        ActiveValue::Assigned(self)
    }
}

impl IntoActiveValue<u32> for u32 {
    fn into_active_value(self) -> (r: ActiveValue<u32>)
        ensures
            r == ActiveValue::Assigned(self),
    {
        ActiveValue::Assigned(self)
    }
}

impl IntoActiveValue<u64> for u64 {
    fn into_active_value(self) -> (r: ActiveValue<u64>)
        ensures
            r == ActiveValue::Assigned(self),
    {
        ActiveValue::Assigned(self)
    }
}

impl IntoActiveValue<char> for char {
    fn into_active_value(self) -> (r: ActiveValue<char>)
        ensures
            r == ActiveValue::Assigned(self),
    {
        ActiveValue::Assigned(self)
    }
}

impl IntoActiveValue<String> for String {
    fn into_active_value(self) -> (r: ActiveValue<String>)
        ensures
            r == ActiveValue::Assigned(self),
    {
        ActiveValue::Assigned(self)
    }
}

impl IntoActiveValue<Vec<u8>> for Vec<u8> {
    fn into_active_value(self) -> (r: ActiveValue<Vec<u8>>)
        ensures
            r == ActiveValue::Assigned(self),
    {
        ActiveValue::Assigned(self)
    }
}

impl IntoActiveValue<&'static str> for &'static str {
    fn into_active_value(self) -> (r: ActiveValue<&'static str>)
        ensures
            r == ActiveValue::Assigned(self),
    {
        ActiveValue::Assigned(self)
    }
}

} // verus!
