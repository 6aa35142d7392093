//! The three-state value of one field of an active record.

use crate::value::convert::Nullable;
use crate::value::{Value, ValueView};
use vstd::prelude::*;
use vstd::std_specs::cmp::{PartialEqSpec, PartialEqSpecImpl};
use vstd::std_specs::convert::{FromSpecImpl, IntoSpec};

verus! {

/// The state of a field in an active record.
///
/// - `Assigned`: a value explicitly set by the application and sent to the
///   database.
/// - `Unchanged`: an existing value known to equal what storage holds.
/// - `NotSet`: no value; the field takes part in no statement.
///
/// The default state is `NotSet`.
#[derive(Debug)]
pub enum ActiveValue<V> where V: Into<Value> {
    Assigned(V),
    Unchanged(V),
    NotSet,
}

/// The `NotSet` state, whatever the argument.
#[allow(non_snake_case)]
pub fn Unset<V>(_unused: Option<bool>) -> (r: ActiveValue<V>) where V: Into<Value>
    ensures
        r == ActiveValue::<V>::NotSet,
{
    ActiveValue::not_set()
}

impl<V> Default for ActiveValue<V> where V: Into<Value> {
    /// The `NotSet` state.
    fn default() -> (r: Self)
        ensures
            r == ActiveValue::<V>::NotSet,
    {
        ActiveValue::NotSet
    }
}

impl<V> ActiveValue<V> where V: Into<Value> {
    /// The value a state carries, if it carries one.
    pub open spec fn payload(self) -> Option<V> {
        match self {
            ActiveValue::Assigned(v) => Some(v),
            ActiveValue::Unchanged(v) => Some(v),
            ActiveValue::NotSet => None,
        }
    }

    /// The state after a reset: `Unchanged(v)` becomes `Assigned(v)`, the
    /// other two states stay.
    pub open spec fn reset_spec(self) -> Self {
        match self {
            ActiveValue::Unchanged(v) => ActiveValue::Assigned(v),
            _ => self,
        }
    }

    /// The same state over the payload converted into a [`Value`].
    pub open spec fn wrapped_spec(self) -> ActiveValue<Value> {
        match self {
            ActiveValue::Assigned(v) => ActiveValue::Assigned(v.into_spec()),
            ActiveValue::Unchanged(v) => ActiveValue::Unchanged(v.into_spec()),
            ActiveValue::NotSet => ActiveValue::NotSet,
        }
    }

    /// Create an `Assigned` value.
    pub fn set(value: V) -> (r: Self)
        ensures
            r == ActiveValue::Assigned(value),
    {
        ActiveValue::Assigned(value)
    }

    /// Whether the state is `Assigned`.
    pub fn is_set(&self) -> (r: bool)
        ensures
            r == (*self is Assigned),
    {
        matches!(self, ActiveValue::Assigned(_))
    }

    /// Create an `Unchanged` value.
    pub fn unchanged(value: V) -> (r: Self)
        ensures
            r == ActiveValue::Unchanged(value),
    {
        ActiveValue::Unchanged(value)
    }

    /// Whether the state is `Unchanged`.
    pub fn is_unchanged(&self) -> (r: bool)
        ensures
            r == (*self is Unchanged),
    {
        matches!(self, ActiveValue::Unchanged(_))
    }

    /// Create a `NotSet` value.
    pub fn not_set() -> (r: Self)
        ensures
            r == ActiveValue::<V>::NotSet,
    {
        ActiveValue::NotSet
    }

    /// Whether the state is `NotSet`.
    pub fn is_not_set(&self) -> (r: bool)
        ensures
            r == (*self is NotSet),
    {
        matches!(self, ActiveValue::NotSet)
    }

    /// Move the payload out. The slot is `NotSet` afterwards, so a second
    /// `take` yields `None`.
    pub fn take(&mut self) -> (r: Option<V>)
        ensures
            r == old(self).payload(),
            *final(self) == ActiveValue::<V>::NotSet,
            final(self).payload() is None,
    {
        let mut taken = ActiveValue::NotSet;
        core::mem::swap(self, &mut taken);
        match taken {
            ActiveValue::Assigned(value) => Some(value),
            ActiveValue::Unchanged(value) => Some(value),
            ActiveValue::NotSet => None,
        }
    }

    /// The payload of a state that carries one.
    pub fn unwrap(self) -> (r: V)
        requires
            !(self is NotSet),
        ensures
            self.payload() == Some(r),
    {
        match self {
            ActiveValue::Assigned(value) => value,
            ActiveValue::Unchanged(value) => value,
            ActiveValue::NotSet => vstd::pervasive::unreached(),
        }
    }

    /// The payload as a [`Value`], if there is one.
    pub fn into_value(self) -> (r: Option<Value>)
        ensures
            (r is None) == (self is NotSet),
            V::obeys_into_spec() ==> r == match self.payload() {
                Some(v) => Some(v.into_spec()),
                None => None,
            },
    {
        match self {
            ActiveValue::Assigned(value) => Some(value.into()),
            ActiveValue::Unchanged(value) => Some(value.into()),
            ActiveValue::NotSet => None,
        }
    }

    /// The same state with the payload converted into a [`Value`].
    pub fn into_wrapped_value(self) -> (r: ActiveValue<Value>)
        ensures
            (r is Assigned) == (self is Assigned),
            (r is Unchanged) == (self is Unchanged),
            (r is NotSet) == (self is NotSet),
            V::obeys_into_spec() ==> r == self.wrapped_spec(),
    {
        match self {
            ActiveValue::Assigned(value) => ActiveValue::set(value.into()),
            ActiveValue::Unchanged(value) => ActiveValue::unchanged(value.into()),
            ActiveValue::NotSet => ActiveValue::not_set(),
        }
    }

    /// Turn `Unchanged` into `Assigned`; `Assigned` and `NotSet` stay.
    pub fn reset(&mut self)
        ensures
            *final(self) == old(self).reset_spec(),
    {
        let mut taken = ActiveValue::NotSet;
        core::mem::swap(self, &mut taken);
        *self = match taken {
            ActiveValue::Assigned(value) => ActiveValue::Assigned(value),
            ActiveValue::Unchanged(value) => ActiveValue::Assigned(value),
            ActiveValue::NotSet => ActiveValue::NotSet,
        };
    }

    /// The state after [`set_if_not_equals`](Self::set_if_not_equals): an
    /// `Unchanged` payload that the new value equals is kept, anything else
    /// becomes `Assigned(value)`.
    pub open spec fn set_if_not_equals_spec(self, value: V) -> Self where V: PartialEq {
        match self {
            ActiveValue::Unchanged(current) => if value.eq_spec(&current) {
                self
            } else {
                ActiveValue::Assigned(value)
            },
            _ => ActiveValue::Assigned(value),
        }
    }

    /// `Assigned(value)`, except when the state is `Unchanged` and `value`
    /// equals the current payload: then the state stays `Unchanged`.
    ///
    /// Whatever the equality of `V` is, the state stays as it was exactly
    /// when it is `Unchanged` and that equality answers that `value` equals
    /// the payload; where the equality of `V` is the one of its
    /// specification, the new state is `set_if_not_equals_spec`.
    pub fn set_if_not_equals(&mut self, value: V) where V: PartialEq
        ensures
            V::obeys_eq_spec() ==> *final(self) == old(self).set_if_not_equals_spec(value),
            !(*old(self) is Unchanged) ==> *final(self) == ActiveValue::Assigned(value),
            *old(self) is Unchanged ==> exists|same: bool|
                {
                    &&& #[trigger] call_ensures(
                        <V as PartialEq>::eq,
                        (&value, &old(self)->Unchanged_0),
                        same,
                    )
                    &&& *final(self) == if same {
                        *old(self)
                    } else {
                        ActiveValue::Assigned(value)
                    }
                },
    {
        let ghost before = *self;
        let keep = match &*self {
            ActiveValue::Unchanged(current) => {
                let same = value == *current;
                assert(call_ensures(<V as PartialEq>::eq, (&value, &before->Unchanged_0), same));
                same
            },
            _ => false,
        };
        if !keep {
            *self = ActiveValue::Assigned(value);
        }
    }

    /// A reference to the payload, unless the state is `NotSet`.
    pub fn try_as_ref(&self) -> (r: Option<&V>)
        ensures
            r == match self.payload() {
                Some(v) => Some(&v),
                None => None,
            },
    {
        match self {
            ActiveValue::Assigned(value) => Some(value),
            ActiveValue::Unchanged(value) => Some(value),
            ActiveValue::NotSet => None,
        }
    }

    /// A reference to the payload of a state that carries one.
    pub fn as_ref(&self) -> (r: &V)
        requires
            !(*self is NotSet),
        ensures
            self.payload() == Some(*r),
    {
        match self {
            ActiveValue::Assigned(value) => value,
            ActiveValue::Unchanged(value) => value,
            ActiveValue::NotSet => vstd::pervasive::unreached(),
        }
    }
}

impl<V> Clone for ActiveValue<V> where V: Into<Value> + Clone {
    /// The same state over a clone of the payload.
    fn clone(&self) -> (r: Self)
        ensures
            match (*self, r) {
                (ActiveValue::Assigned(a), ActiveValue::Assigned(b)) => cloned(a, b),
                (ActiveValue::Unchanged(a), ActiveValue::Unchanged(b)) => cloned(a, b),
                (ActiveValue::NotSet, ActiveValue::NotSet) => true,
                _ => false,
            },
    {
        match self {
            ActiveValue::Assigned(value) => ActiveValue::Assigned(value.clone()),
            ActiveValue::Unchanged(value) => ActiveValue::Unchanged(value.clone()),
            ActiveValue::NotSet => ActiveValue::NotSet,
        }
    }
}

impl<V> PartialEq for ActiveValue<V> where V: Into<Value> + PartialEq {
    fn eq(&self, other: &Self) -> (r: bool) {
        match (self, other) {
            (ActiveValue::Assigned(l), ActiveValue::Assigned(r)) => *l == *r,
            (ActiveValue::Unchanged(l), ActiveValue::Unchanged(r)) => *l == *r,
            (ActiveValue::NotSet, ActiveValue::NotSet) => true,
            _ => false,
        }
    }
}

impl<V> PartialEqSpecImpl for ActiveValue<V> where V: Into<Value> + PartialEq {
    open spec fn obeys_eq_spec() -> bool {
        V::obeys_eq_spec()
    }

    /// Two states are equal when they are the same state over equal payloads.
    open spec fn eq_spec(&self, other: &Self) -> bool {
        match (*self, *other) {
            (ActiveValue::Assigned(l), ActiveValue::Assigned(r)) => l.eq_spec(&r),
            (ActiveValue::Unchanged(l), ActiveValue::Unchanged(r)) => l.eq_spec(&r),
            (ActiveValue::NotSet, ActiveValue::NotSet) => true,
            _ => false,
        }
    }
}

impl<V> From<ActiveValue<V>> for ActiveValue<Option<V>> where V: Into<Value> + Nullable {
    fn from(value: ActiveValue<V>) -> (r: Self) {
        match value {
            ActiveValue::Assigned(value) => ActiveValue::set(Some(value)),
            ActiveValue::Unchanged(value) => ActiveValue::unchanged(Some(value)),
            ActiveValue::NotSet => ActiveValue::not_set(),
        }
    }
}

impl<V> FromSpecImpl<ActiveValue<V>> for ActiveValue<Option<V>> where V: Into<Value> + Nullable {
    open spec fn obeys_from_spec() -> bool {
        true
    }

    /// The same state over the payload made nullable.
    open spec fn from_spec(value: ActiveValue<V>) -> Self {
        match value {
            ActiveValue::Assigned(v) => ActiveValue::Assigned(Some(v)),
            ActiveValue::Unchanged(v) => ActiveValue::Unchanged(Some(v)),
            ActiveValue::NotSet => ActiveValue::NotSet,
        }
    }
}

/// Setting a value on an `Unchanged` slot keeps the slot `Unchanged` if
/// and only if the new value equals the old one; otherwise the slot is
/// `Assigned` to the new value.
pub proof fn lemma_set_if_not_equals_of_unchanged<V: Into<Value> + PartialEq>(old_value: V, new_value: V)
    ensures
        ActiveValue::Unchanged(old_value).set_if_not_equals_spec(new_value) == if new_value.eq_spec(
            &old_value,
        ) {
            ActiveValue::Unchanged(old_value)
        } else {
            ActiveValue::Assigned(new_value)
        },
{
}

/// Setting the same value twice is the same as setting it once.
pub proof fn lemma_set_if_not_equals_idempotent<V: Into<Value> + PartialEq>(
    slot: ActiveValue<V>,
    value: V,
)
    ensures
        slot.set_if_not_equals_spec(value).set_if_not_equals_spec(value)
            == slot.set_if_not_equals_spec(value),
{
}

/// A reset keeps the payload, and a second reset changes nothing.
pub proof fn lemma_reset_keeps_payload<V: Into<Value>>(slot: ActiveValue<V>)
    ensures
        slot.reset_spec().payload() == slot.payload(),
        !(slot.reset_spec() is Unchanged),
        slot.reset_spec().reset_spec() == slot.reset_spec(),
{
}

/// The mathematical content of one slot of an active record: its state
/// over the view of its payload.
pub enum SlotView {
    Assigned(ValueView),
    Unchanged(ValueView),
    NotSet,
}

impl SlotView {
    /// The value the slot carries, if it carries one.
    pub open spec fn payload(self) -> Option<ValueView> {
        match self {
            SlotView::Assigned(v) => Some(v),
            SlotView::Unchanged(v) => Some(v),
            SlotView::NotSet => None,
        }
    }

    /// The slot after a reset: `Unchanged(v)` becomes `Assigned(v)`.
    pub open spec fn reset(self) -> SlotView {
        match self {
            SlotView::Unchanged(v) => SlotView::Assigned(v),
            _ => self,
        }
    }
}

impl View for ActiveValue<Value> {
    type V = SlotView;

    open spec fn view(&self) -> SlotView {
        match *self {
            ActiveValue::Assigned(v) => SlotView::Assigned(v@),
            ActiveValue::Unchanged(v) => SlotView::Unchanged(v@),
            ActiveValue::NotSet => SlotView::NotSet,
        }
    }
}

} // verus!
