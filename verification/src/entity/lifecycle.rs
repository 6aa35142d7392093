//! The lifecycle of an active record: what is written on insert, update
//! and delete, and where the hooks stand.
//!
//! The engine never talks to a database. It turns an active record into a
//! [`WriteRequest`], which a driver performs, and takes the driver's answer
//! back to run the hook that follows the write.
//!
//! An update with no `Assigned` column outside the primary key writes
//! nothing: its request is [`WriteRequest::Fetch`], which reads the record
//! of that key back.

use crate::entity::active_model::{ActiveModelBehavior, ActiveModelTrait};
use crate::entity::active_value::{ActiveValue, SlotView};
use crate::entity::base_entity::{is_pk_column, pk_columns, EntityTrait};
use crate::entity::column::Iterable;
use crate::entity::primary_key::PrimaryKeyToColumn;
use crate::error::DbErr;
use crate::seq_util::{lemma_filter_map_all_none, lemma_filter_map_keeps, lemma_filter_map_single};
use crate::value::{Value, ValueView};
use vstd::prelude::*;

verus! {

/// What a driver is asked to do for an active record.
#[derive(Clone, Debug, PartialEq)]
pub enum WriteRequest<C> {
    /// Insert a row with these columns; the other columns take the
    /// backend's defaults.
    Insert { columns: Vec<(C, Value)> },
    /// Set these columns in the row with this key.
    Update { columns: Vec<(C, Value)>, key: Vec<(C, Value)> },
    /// Write nothing and read the row with this key.
    Fetch { key: Vec<(C, Value)> },
    /// Delete the row with this key.
    Delete { key: Vec<(C, Value)> },
}

/// The mathematical content of a [`WriteRequest`].
pub enum WriteRequestView<C> {
    Insert { columns: Seq<(C, ValueView)> },
    Update { columns: Seq<(C, ValueView)>, key: Seq<(C, ValueView)> },
    Fetch { key: Seq<(C, ValueView)> },
    Delete { key: Seq<(C, ValueView)> },
}

/// The views of a list of columns with their values.
pub open spec fn pairs_view<C>(s: Seq<(C, Value)>) -> Seq<(C, ValueView)> {
    s.map_values(|p: (C, Value)| (p.0, p.1@))
}

impl<C> View for WriteRequest<C> {
    type V = WriteRequestView<C>;

    open spec fn view(&self) -> WriteRequestView<C> {
        match *self {
            WriteRequest::Insert { columns } => WriteRequestView::Insert {
                columns: pairs_view(columns@),
            },
            WriteRequest::Update { columns, key } => WriteRequestView::Update {
                columns: pairs_view(columns@),
                key: pairs_view(key@),
            },
            WriteRequest::Fetch { key } => WriteRequestView::Fetch { key: pairs_view(key@) },
            WriteRequest::Delete { key } => WriteRequestView::Delete { key: pairs_view(key@) },
        }
    }
}

/// Whether a save inserts or updates.
#[derive(Clone, Copy, Debug, PartialEq, Eq, Structural)]
pub enum SaveKind {
    Insert,
    Update,
}

/// The outcome of a delete.
#[derive(Clone, Copy, Debug, PartialEq, Eq, Structural)]
pub struct DeleteResult {
    /// The number of rows that the statement removed.
    pub rows_affected: u64,
}

/// What an insert writes to a column: the value of its slot, if the slot
/// carries one.
pub open spec fn insert_entry<E: EntityTrait>(slots: Map<E::Column, SlotView>, c: E::Column) -> Option<
    (E::Column, ValueView),
> {
    match slots[c].payload() {
        Some(v) => Some((c, v)),
        None => None,
    }
}

/// What an update sets in a column: the value of its slot, if the slot is
/// `Assigned` and the column is outside the primary key.
pub open spec fn update_entry<E: EntityTrait>(slots: Map<E::Column, SlotView>, c: E::Column) -> Option<
    (E::Column, ValueView),
> {
    match slots[c] {
        SlotView::Assigned(v) => if is_pk_column::<E>(c) {
            None
        } else {
            Some((c, v))
        },
        _ => None,
    }
}

/// The columns of an insert: every column whose slot carries a value,
/// `Assigned` or `Unchanged`, in declaration order, each with that value.
pub open spec fn insert_columns_spec<E: EntityTrait>(slots: Map<E::Column, SlotView>) -> Seq<
    (E::Column, ValueView),
> {
    E::Column::spec_iter().filter_map(|c: E::Column| insert_entry::<E>(slots, c))
}

/// The columns that an update sets: every column outside the primary key
/// whose slot is `Assigned`, in declaration order, each with its value.
pub open spec fn update_columns_spec<E: EntityTrait>(slots: Map<E::Column, SlotView>) -> Seq<
    (E::Column, ValueView),
> {
    E::Column::spec_iter().filter_map(|c: E::Column| update_entry::<E>(slots, c))
}

/// Whether every column of the primary key carries a value.
pub open spec fn pk_is_set<E: EntityTrait>(slots: Map<E::Column, SlotView>) -> bool {
    forall|i: int|
        0 <= i < pk_columns::<E>().len() ==> !(slots[#[trigger] pk_columns::<E>()[i]] is NotSet)
}

/// The key of a statement: every column of the primary key with its value,
/// in declaration order.
pub open spec fn key_spec<E: EntityTrait>(slots: Map<E::Column, SlotView>) -> Seq<
    (E::Column, ValueView),
> {
    pk_columns::<E>().map_values(|c: E::Column| (c, slots[c].payload().unwrap()))
}

/// The request of an insert.
pub open spec fn insert_request_spec<E: EntityTrait>(
    slots: Map<E::Column, SlotView>,
) -> WriteRequestView<E::Column> {
    WriteRequestView::Insert { columns: insert_columns_spec::<E>(slots) }
}

/// The request of an update: none where a key column carries no value; a
/// fetch where there is nothing to set; else the update of the `Assigned`
/// columns.
pub open spec fn update_request_spec<E: EntityTrait>(slots: Map<E::Column, SlotView>) -> Option<
    WriteRequestView<E::Column>,
> {
    if !pk_is_set::<E>(slots) {
        None
    } else if update_columns_spec::<E>(slots).len() == 0 {
        Some(WriteRequestView::Fetch { key: key_spec::<E>(slots) })
    } else {
        Some(
            WriteRequestView::Update {
                columns: update_columns_spec::<E>(slots),
                key: key_spec::<E>(slots),
            },
        )
    }
}

/// The request of a delete: none where a key column carries no value.
pub open spec fn delete_request_spec<E: EntityTrait>(slots: Map<E::Column, SlotView>) -> Option<
    WriteRequestView<E::Column>,
> {
    if pk_is_set::<E>(slots) {
        Some(WriteRequestView::Delete { key: key_spec::<E>(slots) })
    } else {
        None
    }
}

/// What a save does: it updates where every key column carries a value
/// and inserts otherwise.
pub open spec fn save_kind_spec<E: EntityTrait>(slots: Map<E::Column, SlotView>) -> SaveKind {
    if pk_is_set::<E>(slots) {
        SaveKind::Update
    } else {
        SaveKind::Insert
    }
}

/// The columns of an insert of the record.
pub fn insert_columns<A: ActiveModelTrait>(am: &A) -> (r: Vec<
    (<A::Entity as EntityTrait>::Column, Value),
>)
    ensures
        pairs_view(r@) == insert_columns_spec::<A::Entity>(am.slots()),
{
    let cols = <A::Entity as EntityTrait>::Column::iter();
    let ghost f = |c: <A::Entity as EntityTrait>::Column| insert_entry::<A::Entity>(am.slots(), c);
    let mut out: Vec<(<A::Entity as EntityTrait>::Column, Value)> = Vec::new();
    let mut i: usize = 0;
    while i < cols.len()
        invariant
            i <= cols.len(),
            cols@ == <A::Entity as EntityTrait>::Column::spec_iter(),
            f == |c: <A::Entity as EntityTrait>::Column| insert_entry::<A::Entity>(am.slots(), c),
            pairs_view(out@) == cols@.take(i as int).filter_map(f),
        decreases cols.len() - i,
    {
        let col = cols[i];
        let ghost before = out@;
        proof {
            let next = cols@.take(i + 1);
            assert(next.drop_last() =~= cols@.take(i as int));
            assert(next.last() == col);
            assert(next.filter_map(f) == match f(col) {
                Some(x) => next.drop_last().filter_map(f) + seq![x],
                None => next.drop_last().filter_map(f),
            });
        }
        match am.get(col) {
            ActiveValue::Assigned(v) => {
                out.push((col, v));
                assert(pairs_view(out@) =~= pairs_view(before) + seq![(col, v@)]);
            },
            ActiveValue::Unchanged(v) => {
                out.push((col, v));
                assert(pairs_view(out@) =~= pairs_view(before) + seq![(col, v@)]);
            },
            ActiveValue::NotSet => {},
        }
        i += 1;
    }
    assert(cols@.take(cols.len() as int) =~= cols@);
    out
}

/// The columns that an update of the record sets.
pub fn update_columns<A: ActiveModelTrait>(am: &A) -> (r: Vec<
    (<A::Entity as EntityTrait>::Column, Value),
>)
    ensures
        pairs_view(r@) == update_columns_spec::<A::Entity>(am.slots()),
{
    let cols = <A::Entity as EntityTrait>::Column::iter();
    let ghost f = |c: <A::Entity as EntityTrait>::Column| update_entry::<A::Entity>(am.slots(), c);
    let mut out: Vec<(<A::Entity as EntityTrait>::Column, Value)> = Vec::new();
    let mut i: usize = 0;
    while i < cols.len()
        invariant
            i <= cols.len(),
            cols@ == <A::Entity as EntityTrait>::Column::spec_iter(),
            f == |c: <A::Entity as EntityTrait>::Column| update_entry::<A::Entity>(am.slots(), c),
            pairs_view(out@) == cols@.take(i as int).filter_map(f),
        decreases cols.len() - i,
    {
        let col = cols[i];
        let ghost before = out@;
        proof {
            let next = cols@.take(i + 1);
            assert(next.drop_last() =~= cols@.take(i as int));
            assert(next.last() == col);
            assert(next.filter_map(f) == match f(col) {
                Some(x) => next.drop_last().filter_map(f) + seq![x],
                None => next.drop_last().filter_map(f),
            });
        }
        let in_key = is_key_column::<A::Entity>(col);
        match am.get(col) {
            ActiveValue::Assigned(v) => {
                if !in_key {
                    out.push((col, v));
                    assert(pairs_view(out@) =~= pairs_view(before) + seq![(col, v@)]);
                }
            },
            _ => {},
        }
        i += 1;
    }
    assert(cols@.take(cols.len() as int) =~= cols@);
    out
}

/// Whether a column belongs to the primary key of its entity.
pub fn is_key_column<E: EntityTrait>(col: E::Column) -> (r: bool)
    ensures
        r == is_pk_column::<E>(col),
{
    match <E::PrimaryKey as PrimaryKeyToColumn>::from_column(col) {
        Some(k) => {
            proof {
                <E::PrimaryKey as Iterable>::lemma_iter_complete(k);
                let keys = <E::PrimaryKey as Iterable>::spec_iter();
                let j = choose|j: int| 0 <= j < keys.len() && keys[j] == k;
                assert(pk_columns::<E>()[j] == col);
            }
            true
        },
        None => {
            proof {
                let keys = <E::PrimaryKey as Iterable>::spec_iter();
                assert forall|j: int| 0 <= j < pk_columns::<E>().len() implies pk_columns::<E>()[j]
                    != col by {
                    assert(keys[j].spec_column() != col);
                }
            }
            false
        },
    }
}

/// The key of a statement on the record, or `None` where a column of the
/// primary key carries no value.
pub fn key_of<A: ActiveModelTrait>(am: &A) -> (r: Option<
    Vec<(<A::Entity as EntityTrait>::Column, Value)>,
>)
    ensures
        match r {
            Some(key) => pk_is_set::<A::Entity>(am.slots()) && pairs_view(key@) == key_spec::<
                A::Entity,
            >(am.slots()),
            None => !pk_is_set::<A::Entity>(am.slots()),
        },
{
    let keys = <A::Entity as EntityTrait>::PrimaryKey::iter();
    let ghost cols = pk_columns::<A::Entity>();
    let mut out: Vec<(<A::Entity as EntityTrait>::Column, Value)> = Vec::new();
    let mut i: usize = 0;
    while i < keys.len()
        invariant
            i <= keys.len(),
            keys@ == <A::Entity as EntityTrait>::PrimaryKey::spec_iter(),
            cols == pk_columns::<A::Entity>(),
            cols.len() == keys@.len(),
            out@.len() == i,
            forall|j: int| 0 <= j < i ==> !(am.slots()[#[trigger] cols[j]] is NotSet),
            forall|j: int|
                0 <= j < i ==> (#[trigger] out@[j]).0 == cols[j] && am.slots()[cols[j]].payload()
                    == Some(out@[j].1@),
        decreases keys.len() - i,
    {
        let col = keys[i].into_column();
        assert(col == cols[i as int]);
        match am.get(col) {
            ActiveValue::Assigned(v) => {
                out.push((col, v));
            },
            ActiveValue::Unchanged(v) => {
                out.push((col, v));
            },
            ActiveValue::NotSet => {
                assert(am.slots()[cols[i as int]] is NotSet);
                return None;
            },
        }
        i += 1;
    }
    assert(pairs_view(out@) =~= key_spec::<A::Entity>(am.slots()));
    Some(out)
}

/// The request of an insert of the record.
pub fn insert_request<A: ActiveModelTrait>(am: &A) -> (r: WriteRequest<
    <A::Entity as EntityTrait>::Column,
>)
    ensures
        r@ == insert_request_spec::<A::Entity>(am.slots()),
{
    WriteRequest::Insert { columns: insert_columns(am) }
}

/// The request of an update of the record. It fails where a column of the
/// primary key carries no value.
pub fn update_request<A: ActiveModelTrait>(am: &A) -> (r: Result<
    WriteRequest<<A::Entity as EntityTrait>::Column>,
    DbErr,
>)
    ensures
        match r {
            Ok(req) => update_request_spec::<A::Entity>(am.slots()) == Some(req@),
            Err(e) => update_request_spec::<A::Entity>(am.slots()) is None && e.is_pk_not_set(
                "UpdateOne"@,
            ),
        },
{
    match key_of(am) {
        None => Err(DbErr::PrimaryKeyNotSet("UpdateOne".to_owned())),
        Some(key) => {
            let columns = update_columns(am);
            if columns.len() == 0 {
                Ok(WriteRequest::Fetch { key })
            } else {
                Ok(WriteRequest::Update { columns, key })
            }
        },
    }
}

/// The request of a delete of the record. It fails where a column of the
/// primary key carries no value.
pub fn delete_request<A: ActiveModelTrait>(am: &A) -> (r: Result<
    WriteRequest<<A::Entity as EntityTrait>::Column>,
    DbErr,
>)
    ensures
        match r {
            Ok(req) => delete_request_spec::<A::Entity>(am.slots()) == Some(req@),
            Err(e) => delete_request_spec::<A::Entity>(am.slots()) is None && e.is_pk_not_set(
                "DeleteOne"@,
            ),
        },
{
    match key_of(am) {
        None => Err(DbErr::PrimaryKeyNotSet("DeleteOne".to_owned())),
        Some(key) => Ok(WriteRequest::Delete { key }),
    }
}

/// Whether a save of the record inserts or updates.
pub fn save_kind<A: ActiveModelTrait>(am: &A) -> (r: SaveKind)
    ensures
        r == save_kind_spec::<A::Entity>(am.slots()),
{
    let keys = <A::Entity as EntityTrait>::PrimaryKey::iter();
    let ghost cols = pk_columns::<A::Entity>();
    let mut i: usize = 0;
    while i < keys.len()
        invariant
            i <= keys.len(),
            keys@ == <A::Entity as EntityTrait>::PrimaryKey::spec_iter(),
            cols == pk_columns::<A::Entity>(),
            cols.len() == keys@.len(),
            forall|j: int| 0 <= j < i ==> !(am.slots()[#[trigger] cols[j]] is NotSet),
        decreases keys.len() - i,
    {
        let col = keys[i].into_column();
        assert(col == cols[i as int]);
        if am.is_not_set(col) {
            assert(am.slots()[cols[i as int]] is NotSet);
            return SaveKind::Insert;
        }
        i += 1;
    }
    SaveKind::Update
}

/// A write that is ready for the driver: the record as the hook before the
/// write left it, and the request made from it.
pub struct WritePlan<A: ActiveModelTrait> {
    pub record: A,
    pub request: WriteRequest<<A::Entity as EntityTrait>::Column>,
}

/// The first half of an insert: the hook before the save, then the request
/// made from the record that the hook returned. An error of the hook ends
/// the insert before anything is written.
pub fn plan_insert<A: ActiveModelBehavior>(am: A) -> (r: Result<WritePlan<A>, DbErr>)
    ensures
        match r {
            Ok(plan) => {
                &&& call_ensures(A::before_save, (am, true), Ok::<A, DbErr>(plan.record))
                &&& plan.request@ == insert_request_spec::<A::Entity>(plan.record.slots())
            },
            Err(e) => call_ensures(A::before_save, (am, true), Err::<A, DbErr>(e)),
        },
{
    match am.before_save(true) {
        Ok(record) => {
            let request = insert_request(&record);
            Ok(WritePlan { record, request })
        },
        Err(e) => Err(e),
    }
}

/// The first half of an update: the hook before the save, then the request
/// made from the record that the hook returned. An error of the hook ends
/// the update before anything is written, and so does a record without a
/// primary-key value.
pub fn plan_update<A: ActiveModelBehavior>(am: A) -> (r: Result<WritePlan<A>, DbErr>)
    ensures
        match r {
            Ok(plan) => {
                &&& call_ensures(A::before_save, (am, false), Ok::<A, DbErr>(plan.record))
                &&& update_request_spec::<A::Entity>(plan.record.slots()) == Some(plan.request@)
            },
            Err(e) => {
                ||| call_ensures(A::before_save, (am, false), Err::<A, DbErr>(e))
                ||| e.is_pk_not_set("UpdateOne"@) && exists|record: A|
                    {
                        &&& #[trigger] call_ensures(
                            A::before_save,
                            (am, false),
                            Ok::<A, DbErr>(record),
                        )
                        &&& update_request_spec::<A::Entity>(record.slots()) is None
                    }
            },
        },
{
    match am.before_save(false) {
        Ok(record) => match update_request(&record) {
            Ok(request) => Ok(WritePlan { record, request }),
            Err(e) => Err(e),
        },
        Err(e) => Err(e),
    }
}

/// The first half of a save: an insert where a column of the primary key
/// carries no value, an update otherwise. The kind is decided on the record
/// as it was given, before any hook.
pub fn plan_save<A: ActiveModelBehavior>(am: A) -> (r: (SaveKind, Result<WritePlan<A>, DbErr>))
    ensures
        r.0 == save_kind_spec::<A::Entity>(am.slots()),
        r.0 == SaveKind::Insert ==> call_ensures(plan_insert::<A>, (am,), r.1),
        r.0 == SaveKind::Update ==> call_ensures(plan_update::<A>, (am,), r.1),
{
    let kind = save_kind(&am);
    match kind {
        SaveKind::Insert => (kind, plan_insert(am)),
        SaveKind::Update => (kind, plan_update(am)),
    }
}

/// The second half of an insert or an update: the hook after the save on
/// the record that the driver returned. Its result is the result of the
/// whole operation.
pub fn finish_save<A: ActiveModelBehavior>(model: A::Model, insert: bool) -> (r: Result<
    A::Model,
    DbErr,
>)
    ensures
        call_ensures(A::after_save, (model, insert), r),
{
    A::after_save(model, insert)
}

/// The first half of a delete: the hook before the delete, then the request
/// made from the record that the hook returned. An error of the hook ends
/// the delete before anything is removed, and so does a record without a
/// primary-key value.
pub fn plan_delete<A: ActiveModelBehavior>(am: A) -> (r: Result<WritePlan<A>, DbErr>)
    ensures
        match r {
            Ok(plan) => {
                &&& call_ensures(A::before_delete, (am,), Ok::<A, DbErr>(plan.record))
                &&& delete_request_spec::<A::Entity>(plan.record.slots()) == Some(plan.request@)
            },
            Err(e) => {
                ||| call_ensures(A::before_delete, (am,), Err::<A, DbErr>(e))
                ||| e.is_pk_not_set("DeleteOne"@) && exists|record: A|
                    {
                        &&& #[trigger] call_ensures(
                            A::before_delete,
                            (am,),
                            Ok::<A, DbErr>(record),
                        )
                        &&& delete_request_spec::<A::Entity>(record.slots()) is None
                    }
            },
        },
{
    match am.before_delete() {
        Ok(record) => match delete_request(&record) {
            Ok(request) => Ok(WritePlan { record, request }),
            Err(e) => Err(e),
        },
        Err(e) => Err(e),
    }
}

/// The second half of a delete: the hook after the delete on the record
/// that was deleted, then the count of the rows that the driver removed.
/// An error of the hook is returned although the rows are gone.
pub fn finish_delete<A: ActiveModelBehavior>(record: A, rows_affected: u64) -> (r: Result<
    DeleteResult,
    DbErr,
>)
    ensures
        match r {
            Ok(d) => d.rows_affected == rows_affected && exists|after: A| #[trigger]
                call_ensures(A::after_delete, (record,), Ok::<A, DbErr>(after)),
            Err(e) => call_ensures(A::after_delete, (record,), Err::<A, DbErr>(e)),
        },
{
    match record.after_delete() {
        Ok(_) => Ok(DeleteResult { rows_affected }),
        Err(e) => Err(e),
    }
}

/// An insert of a record with one `Assigned` column and every other column
/// `NotSet` writes exactly that column.
pub proof fn lemma_insert_of_one_assigned<E: EntityTrait>(
    slots: Map<E::Column, SlotView>,
    c: E::Column,
    v: ValueView,
)
    requires
        slots[c] == SlotView::Assigned(v),
        forall|d: E::Column| d != c ==> (#[trigger] slots[d]) is NotSet,
    ensures
        insert_columns_spec::<E>(slots) == seq![(c, v)],
{
    let cols = E::Column::spec_iter();
    let f = |d: E::Column| insert_entry::<E>(slots, d);
    E::Column::lemma_iter_complete(c);
    E::Column::lemma_iter_distinct();
    let i = choose|i: int| 0 <= i < cols.len() && cols[i] == c;
    assert forall|j: int| 0 <= j < cols.len() && j != i implies f(#[trigger] cols[j]) is None by {
        assert(cols[j] != c);
        assert(slots[cols[j]] is NotSet);
    }
    lemma_filter_map_single(cols, f, i);
}

/// An update of a record with no `Assigned` column writes nothing: its
/// request reads the row of the record's key.
pub proof fn lemma_update_of_nothing_assigned<E: EntityTrait>(slots: Map<E::Column, SlotView>)
    requires
        pk_is_set::<E>(slots),
        forall|c: E::Column| !((#[trigger] slots[c]) is Assigned),
    ensures
        update_request_spec::<E>(slots) == Some(
            WriteRequestView::Fetch { key: key_spec::<E>(slots) },
        ),
{
    let cols = E::Column::spec_iter();
    let f = |d: E::Column| update_entry::<E>(slots, d);
    assert forall|j: int| 0 <= j < cols.len() implies f(#[trigger] cols[j]) is None by {
        assert(!(slots[cols[j]] is Assigned));
    }
    lemma_filter_map_all_none(cols, f);
}

/// An update of a record with an `Assigned` column outside the primary key
/// sets that column.
pub proof fn lemma_update_of_assigned<E: EntityTrait>(
    slots: Map<E::Column, SlotView>,
    c: E::Column,
    v: ValueView,
)
    requires
        pk_is_set::<E>(slots),
        slots[c] == SlotView::Assigned(v),
        !is_pk_column::<E>(c),
    ensures
        update_request_spec::<E>(slots) == Some(
            WriteRequestView::Update {
                columns: update_columns_spec::<E>(slots),
                key: key_spec::<E>(slots),
            },
        ),
        update_columns_spec::<E>(slots).contains((c, v)),
{
    let cols = E::Column::spec_iter();
    let f = |d: E::Column| update_entry::<E>(slots, d);
    E::Column::lemma_iter_complete(c);
    let i = choose|i: int| 0 <= i < cols.len() && cols[i] == c;
    lemma_filter_map_keeps(cols, f, i);
}

/// An update writes no column of the primary key and no column whose slot
/// is not `Assigned`.
pub proof fn lemma_update_sets_only_assigned<E: EntityTrait>(
    slots: Map<E::Column, SlotView>,
    c: E::Column,
    v: ValueView,
)
    requires
        update_columns_spec::<E>(slots).contains((c, v)),
    ensures
        slots[c] == SlotView::Assigned(v),
        !is_pk_column::<E>(c),
{
    let cols = E::Column::spec_iter();
    let f = |d: E::Column| update_entry::<E>(slots, d);
    cols.lemma_filter_map_contains(f, (c, v));
}

} // verus!
