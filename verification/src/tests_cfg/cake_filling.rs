//! The `cake_filling` table: the pairs of a cake and a filling, keyed by both.

use crate::entity::active_model::{
    all_not_set, ActiveModelBehavior, ActiveModelTrait, IntoActiveModel,
};
use crate::entity::active_value::{ActiveValue, SlotView};
use crate::entity::base_entity::{EntityName, EntityTrait};
use crate::entity::column::{ColumnDef, ColumnTrait, ColumnType, IdenStatic, Iterable, StringLen};
use crate::entity::model::{FromQueryResult, ModelTrait, TryIntoModel};
use crate::entity::primary_key::{PrimaryKeyToColumn, PrimaryKeyTrait};
use crate::error::DbErr;
use crate::executor::query::{QueryResult, TryGetable};
use crate::value::{Value, ValueView};
use vstd::prelude::*;

verus! {

/// The entity of the `cake_filling` table.
#[derive(Copy, Clone, Default, Debug)]
pub struct Entity;

/// A row of the `cake_filling` table.
#[derive(Clone, Debug, PartialEq, Eq)]
pub struct Model {
    pub cake_id: i32,
    pub filling_id: i32,
}

/// An active record of the `cake_filling` table.
#[derive(Clone, Debug, Default, PartialEq)]
pub struct ActiveModel {
    pub cake_id: ActiveValue<i32>,
    pub filling_id: ActiveValue<i32>,
}

/// The columns of the `cake_filling` table, in declaration order.
#[derive(Copy, Clone, Debug, PartialEq, Eq, Structural)]
pub enum Column {
    CakeId,
    FillingId,
}

/// The primary key of the `cake_filling` table.
#[derive(Copy, Clone, Debug, PartialEq, Eq, Structural)]
pub enum PrimaryKey {
    CakeId,
    FillingId,
}

impl IdenStatic for Entity {
    open spec fn spec_name(&self) -> Seq<char> {
        "cake_filling"@
    }

    fn as_str(&self) -> (s: &'static str) {
        "cake_filling"
    }
}

impl EntityName for Entity {
    fn table_name(&self) -> (s: &'static str) {
        "cake_filling"
    }
}

impl EntityTrait for Entity {
    type Column = Column;

    type PrimaryKey = PrimaryKey;
}

impl IdenStatic for Column {
    open spec fn spec_name(&self) -> Seq<char> {
        match self {
            Column::CakeId => "cake_id"@,
            Column::FillingId => "filling_id"@,
        }
    }

    fn as_str(&self) -> (s: &'static str) {
        match self {
            Column::CakeId => "cake_id",
            Column::FillingId => "filling_id",
        }
    }
}

impl Iterable for Column {
    open spec fn spec_iter() -> Seq<Column> {
        seq![Column::CakeId, Column::FillingId]
    }

    fn iter() -> (v: Vec<Column>) {
        let v = vec![Column::CakeId, Column::FillingId];
        assert(v@ =~= Self::spec_iter());
        v
    }

    proof fn lemma_iter_complete(item: Column) {
        let s = Self::spec_iter();
        match item {
            Column::CakeId => assert(s[0] == item),
            Column::FillingId => assert(s[1] == item),
        }
    }

    proof fn lemma_iter_distinct() {
    }
}

impl ColumnTrait for Column {
    open spec fn spec_def(&self) -> ColumnDef {
        match self {
            Column::CakeId => ColumnDef {
                col_type: ColumnType::Integer,
                null: false,
                unique: false,
                indexed: false,
            },
            Column::FillingId => ColumnDef {
                col_type: ColumnType::Integer,
                null: false,
                unique: false,
                indexed: false,
            },
        }
    }

    fn def(&self) -> (d: ColumnDef) {
        match self {
            Column::CakeId => ColumnType::Integer.def(),
            Column::FillingId => ColumnType::Integer.def(),
        }
    }
}

impl Iterable for PrimaryKey {
    open spec fn spec_iter() -> Seq<PrimaryKey> {
        seq![PrimaryKey::CakeId, PrimaryKey::FillingId]
    }

    fn iter() -> (v: Vec<PrimaryKey>) {
        let v = vec![PrimaryKey::CakeId, PrimaryKey::FillingId];
        assert(v@ =~= Self::spec_iter());
        v
    }

    proof fn lemma_iter_complete(item: PrimaryKey) {
        let s = Self::spec_iter();
        match item {
            PrimaryKey::CakeId => assert(s[0] == item),
            PrimaryKey::FillingId => assert(s[1] == item),
        }
    }

    proof fn lemma_iter_distinct() {
    }
}

impl PrimaryKeyTrait for PrimaryKey {
    type ValueType = (i32, i32);

    fn auto_increment() -> (r: bool)
        ensures
            r == false,
    {
        false
    }
}

impl PrimaryKeyToColumn for PrimaryKey {
    type Column = Column;

    open spec fn spec_column(self) -> Column {
        match self {
            PrimaryKey::CakeId => Column::CakeId,
            PrimaryKey::FillingId => Column::FillingId,
        }
    }

    fn into_column(self) -> (c: Column) {
        match self {
            PrimaryKey::CakeId => Column::CakeId,
            PrimaryKey::FillingId => Column::FillingId,
        }
    }

    proof fn lemma_column_injective(a: PrimaryKey, b: PrimaryKey) {
    }

    fn from_column(col: Column) -> (r: Option<PrimaryKey>) {
        match col {
            Column::CakeId => Some(PrimaryKey::CakeId),
            Column::FillingId => Some(PrimaryKey::FillingId),
        }
    }
}

impl ModelTrait for Model {
    type Entity = Entity;

    open spec fn fields(&self) -> Map<Column, ValueView> {
        Map::total(
            |c: Column|
                match c {
                    Column::CakeId => ValueView::Int(Some(self.cake_id)),
                    Column::FillingId => ValueView::Int(Some(self.filling_id)),
                },
        )
    }

    proof fn lemma_fields_total(&self) {
    }

    fn get(&self, c: Column) -> (v: Value) {
        match c {
            Column::CakeId => Value::Int(Some(self.cake_id)),
            Column::FillingId => Value::Int(Some(self.filling_id)),
        }
    }
}

/// Whether `inner` is the error of the first column that cannot be read
/// from the row: the columns are read in declaration order, each by its
/// name after the prefix.
pub open spec fn first_unread(
    row: Seq<(Seq<char>, ValueView)>,
    pre: Seq<char>,
    inner: crate::executor::query::TryGetError,
) -> bool {
    if !crate::executor::query::readable::<i32>(
        crate::executor::query::found_by_name(row, pre + "cake_id"@),
    ) {
        crate::executor::query::reads::<i32>(
            crate::executor::query::found_by_name(row, pre + "cake_id"@),
            pre + "cake_id"@,
            Err(inner),
        )
    } else {
        crate::executor::query::reads::<i32>(
            crate::executor::query::found_by_name(row, pre + "filling_id"@),
            pre + "filling_id"@,
            Err(inner),
        )
    }
}

impl FromQueryResult for Model {
    /// The record of the columns of the row whose names are the prefix
    /// followed by the names of the columns. The row yields a record if
    /// and only if every such column is there and holds a value of its
    /// field's family; the first column that does not ends the reading
    /// with its error.
    fn from_query_result(res: &QueryResult, pre: &str) -> (r: Result<Model, DbErr>)
        ensures
            r matches Ok(m) ==> {
                &&& crate::executor::query::reads::<i32>(
                    crate::executor::query::found_by_name(res@, pre@ + "cake_id"@),
                    pre@ + "cake_id"@,
                    Ok(m.cake_id),
                )
                &&& crate::executor::query::reads::<i32>(
                    crate::executor::query::found_by_name(res@, pre@ + "filling_id"@),
                    pre@ + "filling_id"@,
                    Ok(m.filling_id),
                )
            },
            r is Ok <==> {
                &&& crate::executor::query::readable::<i32>(
                    crate::executor::query::found_by_name(res@, pre@ + "cake_id"@),
                )
                &&& crate::executor::query::readable::<i32>(
                    crate::executor::query::found_by_name(res@, pre@ + "filling_id"@),
                )
            },
            r matches Err(e) ==> exists|inner: crate::executor::query::TryGetError| #[trigger]
                first_unread(res@, pre@, inner) && e == inner.spec_into_db_err(),
    {
        let cake_id = match <i32 as TryGetable>::try_get(res, pre, "cake_id") {
            Ok(x) => x,
            Err(e) => {
                assert(first_unread(res@, pre@, e));
                return Err(e.into_db_err());
            },
        };
        let filling_id = match <i32 as TryGetable>::try_get(res, pre, "filling_id") {
            Ok(x) => x,
            Err(e) => {
                assert(first_unread(res@, pre@, e));
                return Err(e.into_db_err());
            },
        };
        Ok(Model { cake_id, filling_id })
    }
}

impl ActiveModelTrait for ActiveModel {
    type Entity = Entity;

    open spec fn slots(&self) -> Map<Column, SlotView> {
        Map::total(
            |c: Column|
                match c {
                    Column::CakeId => match self.cake_id {
                        ActiveValue::Assigned(x) => SlotView::Assigned(ValueView::Int(Some(x))),
                        ActiveValue::Unchanged(x) => SlotView::Unchanged(ValueView::Int(Some(x))),
                        ActiveValue::NotSet => SlotView::NotSet,
                    },
                    Column::FillingId => match self.filling_id {
                        ActiveValue::Assigned(x) => SlotView::Assigned(ValueView::Int(Some(x))),
                        ActiveValue::Unchanged(x) => SlotView::Unchanged(ValueView::Int(Some(x))),
                        ActiveValue::NotSet => SlotView::NotSet,
                    },
                },
        )
    }

    open spec fn accepts(c: Column, v: ValueView) -> bool {
        match c {
            Column::CakeId => v matches ValueView::Int(Some(_)),
            Column::FillingId => v matches ValueView::Int(Some(_)),
        }
    }

    proof fn lemma_slots_total(&self) {
    }

    proof fn lemma_payload_accepted(&self, c: Column) {
    }

    fn take(&mut self, c: Column) -> (r: ActiveValue<Value>) {
        let r = self.get(c);
        self.not_set(c);
        r
    }

    fn get(&self, c: Column) -> (r: ActiveValue<Value>) {
        match c {
            Column::CakeId => match &self.cake_id {
                ActiveValue::Assigned(x) => ActiveValue::Assigned(Value::Int(Some(*x))),
                ActiveValue::Unchanged(x) => ActiveValue::Unchanged(Value::Int(Some(*x))),
                ActiveValue::NotSet => ActiveValue::NotSet,
            },
            Column::FillingId => match &self.filling_id {
                ActiveValue::Assigned(x) => ActiveValue::Assigned(Value::Int(Some(*x))),
                ActiveValue::Unchanged(x) => ActiveValue::Unchanged(Value::Int(Some(*x))),
                ActiveValue::NotSet => ActiveValue::NotSet,
            },
        }
    }

    fn set(&mut self, c: Column, v: Value) {
        match c {
            Column::CakeId => match v {
                Value::Int(Some(x)) => {
                    self.cake_id = ActiveValue::Assigned(x);
                },
                _ => vstd::pervasive::unreached(),
            },
            Column::FillingId => match v {
                Value::Int(Some(x)) => {
                    self.filling_id = ActiveValue::Assigned(x);
                },
                _ => vstd::pervasive::unreached(),
            },
        }
        assert(self.slots() =~= old(self).slots().insert(c, SlotView::Assigned(v@)));
    }

    fn not_set(&mut self, c: Column) {
        match c {
            Column::CakeId => {
                self.cake_id = ActiveValue::NotSet;
            },
            Column::FillingId => {
                self.filling_id = ActiveValue::NotSet;
            },
        }
        assert(self.slots() =~= old(self).slots().insert(c, SlotView::NotSet));
    }

    fn is_not_set(&self, c: Column) -> (r: bool) {
        match c {
            Column::CakeId => self.cake_id.is_not_set(),
            Column::FillingId => self.filling_id.is_not_set(),
        }
    }

    fn default() -> (r: ActiveModel) {
        let r = ActiveModel {
            cake_id: ActiveValue::NotSet,
            filling_id: ActiveValue::NotSet,
        };
        assert(r.slots() =~= all_not_set::<Entity>());
        r
    }

    /// Every slot is `Assigned` the default of its type: zero, the empty
    /// text, `NULL`.
    fn default_values() -> (r: ActiveModel)
        ensures
            r.cake_id == ActiveValue::Assigned(0i32),
            r.filling_id == ActiveValue::Assigned(0i32),
    {
        ActiveModel {
            cake_id: ActiveValue::Assigned(0),
            filling_id: ActiveValue::Assigned(0),
        }
    }

    fn reset(&mut self, c: Column) {
        match c {
            Column::CakeId => {
                let mut value = ActiveValue::NotSet;
                core::mem::swap(&mut value, &mut self.cake_id);
                self.cake_id = match value {
                    ActiveValue::Unchanged(x) => ActiveValue::Assigned(x),
                    other => other,
                };
            },
            Column::FillingId => {
                let mut value = ActiveValue::NotSet;
                core::mem::swap(&mut value, &mut self.filling_id);
                self.filling_id = match value {
                    ActiveValue::Unchanged(x) => ActiveValue::Assigned(x),
                    other => other,
                };
            },
        }
        assert(self.slots() =~= old(self).slots().insert(c, old(self).slots()[c].reset()));
    }
}

impl ActiveModelBehavior for ActiveModel {
    type Model = Model;
}

impl IntoActiveModel<ActiveModel> for Model {
    /// Every slot is `Unchanged` with the value of the record.
    fn into_active_model(self) -> (r: ActiveModel)
        ensures
            r.cake_id == ActiveValue::Unchanged(self.cake_id),
            r.filling_id == ActiveValue::Unchanged(self.filling_id),
            forall|c: Column| r.slots()[c] == SlotView::Unchanged(#[trigger] self.fields()[c]),
    {
        ActiveModel {
            cake_id: ActiveValue::Unchanged(self.cake_id),
            filling_id: ActiveValue::Unchanged(self.filling_id),
        }
    }
}

impl TryIntoModel<Model> for ActiveModel {
    /// The record of the payloads; where a slot is `NotSet`, the error that
    /// names the first such column in declaration order.
    fn try_into_model(self) -> (r: Result<Model, DbErr>)
        ensures
            match r {
                Ok(m) => {
                    &&& self.cake_id.payload() == Some(m.cake_id)
                    &&& self.filling_id.payload() == Some(m.filling_id)
                },
                Err(e) => e matches DbErr::AttrNotSet(n) && {
                    ||| self.cake_id is NotSet && n@ == "cake_id"@
                    ||| !(self.cake_id is NotSet) && self.filling_id is NotSet && n@ == "filling_id"@
                },
            },
    {
        let cake_id = match self.cake_id {
            ActiveValue::Assigned(x) => x,
            ActiveValue::Unchanged(x) => x,
            ActiveValue::NotSet => {
                return Err(DbErr::AttrNotSet("cake_id".to_owned()));
            },
        };
        let filling_id = match self.filling_id {
            ActiveValue::Assigned(x) => x,
            ActiveValue::Unchanged(x) => x,
            ActiveValue::NotSet => {
                return Err(DbErr::AttrNotSet("filling_id".to_owned()));
            },
        };
        Ok(Model { cake_id, filling_id })
    }
}

} // verus!
