//! The `fruit` table: an integer key, a name and an optional cake.

use crate::entity::active_model::{
    all_not_set, ActiveModelBehavior, ActiveModelTrait, IntoActiveModel,
};
use crate::entity::active_value::{ActiveValue, SlotView};
use crate::entity::base_entity::{EntityName, EntityTrait};
use crate::entity::column::{ColumnDef, ColumnTrait, ColumnType, IdenStatic, Iterable, StringLen};
use crate::entity::model::{FromQueryResult, ModelTrait, TryIntoModel};
use crate::entity::primary_key::{PrimaryKeyToColumn, PrimaryKeyTrait};
use crate::error::DbErr;
use crate::executor::query::{QueryResult, TryGetable};
use crate::value::{Value, ValueView};
use vstd::prelude::*;

verus! {

/// The entity of the `fruit` table.
#[derive(Copy, Clone, Default, Debug)]
pub struct Entity;

/// A row of the `fruit` table.
#[derive(Clone, Debug, PartialEq, Eq)]
pub struct Model {
    pub id: i32,
    pub name: String,
    pub cake_id: Option<i32>,
}

/// An active record of the `fruit` table.
#[derive(Clone, Debug, Default, PartialEq)]
pub struct ActiveModel {
    pub id: ActiveValue<i32>,
    pub name: ActiveValue<String>,
    pub cake_id: ActiveValue<Option<i32>>,
}

/// The columns of the `fruit` table, in declaration order.
#[derive(Copy, Clone, Debug, PartialEq, Eq, Structural)]
pub enum Column {
    Id,
    Name,
    CakeId,
}

/// The primary key of the `fruit` table.
#[derive(Copy, Clone, Debug, PartialEq, Eq, Structural)]
pub enum PrimaryKey {
    Id,
}

impl IdenStatic for Entity {
    open spec fn spec_name(&self) -> Seq<char> {
        "fruit"@
    }

    fn as_str(&self) -> (s: &'static str) {
        "fruit"
    }
}

impl EntityName for Entity {
    fn table_name(&self) -> (s: &'static str) {
        "fruit"
    }
}

impl EntityTrait for Entity {
    type Column = Column;

    type PrimaryKey = PrimaryKey;
}

impl IdenStatic for Column {
    open spec fn spec_name(&self) -> Seq<char> {
        match self {
            Column::Id => "id"@,
            Column::Name => "name"@,
            Column::CakeId => "cake_id"@,
        }
    }

    fn as_str(&self) -> (s: &'static str) {
        match self {
            Column::Id => "id",
            Column::Name => "name",
            Column::CakeId => "cake_id",
        }
    }
}

impl Iterable for Column {
    open spec fn spec_iter() -> Seq<Column> {
        seq![Column::Id, Column::Name, Column::CakeId]
    }

    fn iter() -> (v: Vec<Column>) {
        let v = vec![Column::Id, Column::Name, Column::CakeId];
        assert(v@ =~= Self::spec_iter());
        v
    }

    proof fn lemma_iter_complete(item: Column) {
        let s = Self::spec_iter();
        match item {
            Column::Id => assert(s[0] == item),
            Column::Name => assert(s[1] == item),
            Column::CakeId => assert(s[2] == item),
        }
    }

    proof fn lemma_iter_distinct() {
    }
}

impl ColumnTrait for Column {
    open spec fn spec_def(&self) -> ColumnDef {
        match self {
            Column::Id => ColumnDef {
                col_type: ColumnType::Integer,
                null: false,
                unique: false,
                indexed: false,
            },
            Column::Name => ColumnDef {
                col_type: ColumnType::String(StringLen::Unbounded),
                null: false,
                unique: false,
                indexed: false,
            },
            Column::CakeId => ColumnDef {
                col_type: ColumnType::Integer,
                null: true,
                unique: false,
                indexed: false,
            },
        }
    }

    fn def(&self) -> (d: ColumnDef) {
        match self {
            Column::Id => ColumnType::Integer.def(),
            Column::Name => ColumnType::String(StringLen::Unbounded).def(),
            Column::CakeId => ColumnType::Integer.def().nullable(),
        }
    }
}

impl Iterable for PrimaryKey {
    open spec fn spec_iter() -> Seq<PrimaryKey> {
        seq![PrimaryKey::Id]
    }

    fn iter() -> (v: Vec<PrimaryKey>) {
        let v = vec![PrimaryKey::Id];
        assert(v@ =~= Self::spec_iter());
        v
    }

    proof fn lemma_iter_complete(item: PrimaryKey) {
        let s = Self::spec_iter();
        match item {
            PrimaryKey::Id => assert(s[0] == item),
        }
    }

    proof fn lemma_iter_distinct() {
    }
}

impl PrimaryKeyTrait for PrimaryKey {
    type ValueType = i32;

    fn auto_increment() -> (r: bool)
        ensures
            r == true,
    {
        true
    }
}

impl PrimaryKeyToColumn for PrimaryKey {
    type Column = Column;

    open spec fn spec_column(self) -> Column {
        match self {
            PrimaryKey::Id => Column::Id,
        }
    }

    fn into_column(self) -> (c: Column) {
        match self {
            PrimaryKey::Id => Column::Id,
        }
    }

    proof fn lemma_column_injective(a: PrimaryKey, b: PrimaryKey) {
    }

    fn from_column(col: Column) -> (r: Option<PrimaryKey>) {
        match col {
            Column::Id => Some(PrimaryKey::Id),
            _ => None,
        }
    }
}

impl ModelTrait for Model {
    type Entity = Entity;

    open spec fn fields(&self) -> Map<Column, ValueView> {
        Map::total(
            |c: Column|
                match c {
                    Column::Id => ValueView::Int(Some(self.id)),
                    Column::Name => ValueView::String(Some(self.name@)),
                    Column::CakeId => ValueView::Int(self.cake_id),
                },
        )
    }

    proof fn lemma_fields_total(&self) {
    }

    fn get(&self, c: Column) -> (v: Value) {
        match c {
            Column::Id => Value::Int(Some(self.id)),
            Column::Name => Value::String(Some(self.name.clone())),
            Column::CakeId => Value::Int(self.cake_id),
        }
    }
}

/// Whether `inner` is the error of the first column that cannot be read
/// from the row: the columns are read in declaration order, each by its
/// name after the prefix.
pub open spec fn first_unread(
    row: Seq<(Seq<char>, ValueView)>,
    pre: Seq<char>,
    inner: crate::executor::query::TryGetError,
) -> bool {
    if !crate::executor::query::readable::<i32>(
        crate::executor::query::found_by_name(row, pre + "id"@),
    ) {
        crate::executor::query::reads::<i32>(
            crate::executor::query::found_by_name(row, pre + "id"@),
            pre + "id"@,
            Err(inner),
        )
    } else if !crate::executor::query::readable::<String>(
        crate::executor::query::found_by_name(row, pre + "name"@),
    ) {
        crate::executor::query::reads::<String>(
            crate::executor::query::found_by_name(row, pre + "name"@),
            pre + "name"@,
            Err(inner),
        )
    } else {
        crate::executor::query::reads::<Option<i32>>(
            crate::executor::query::found_by_name(row, pre + "cake_id"@),
            pre + "cake_id"@,
            Err(inner),
        )
    }
}

impl FromQueryResult for Model {
    /// The record of the columns of the row whose names are the prefix
    /// followed by the names of the columns. The row yields a record if
    /// and only if every such column is there and holds a value of its
    /// field's family; the first column that does not ends the reading
    /// with its error.
    fn from_query_result(res: &QueryResult, pre: &str) -> (r: Result<Model, DbErr>)
        ensures
            r matches Ok(m) ==> {
                &&& crate::executor::query::reads::<i32>(
                    crate::executor::query::found_by_name(res@, pre@ + "id"@),
                    pre@ + "id"@,
                    Ok(m.id),
                )
                &&& crate::executor::query::reads::<String>(
                    crate::executor::query::found_by_name(res@, pre@ + "name"@),
                    pre@ + "name"@,
                    Ok(m.name),
                )
                &&& crate::executor::query::reads::<Option<i32>>(
                    crate::executor::query::found_by_name(res@, pre@ + "cake_id"@),
                    pre@ + "cake_id"@,
                    Ok(m.cake_id),
                )
            },
            r is Ok <==> {
                &&& crate::executor::query::readable::<i32>(
                    crate::executor::query::found_by_name(res@, pre@ + "id"@),
                )
                &&& crate::executor::query::readable::<String>(
                    crate::executor::query::found_by_name(res@, pre@ + "name"@),
                )
                &&& crate::executor::query::readable::<Option<i32>>(
                    crate::executor::query::found_by_name(res@, pre@ + "cake_id"@),
                )
            },
            r matches Err(e) ==> exists|inner: crate::executor::query::TryGetError| #[trigger]
                first_unread(res@, pre@, inner) && e == inner.spec_into_db_err(),
    {
        let id = match <i32 as TryGetable>::try_get(res, pre, "id") {
            Ok(x) => x,
            Err(e) => {
                assert(first_unread(res@, pre@, e));
                return Err(e.into_db_err());
            },
        };
        let name = match <String as TryGetable>::try_get(res, pre, "name") {
            Ok(x) => x,
            Err(e) => {
                assert(first_unread(res@, pre@, e));
                return Err(e.into_db_err());
            },
        };
        let cake_id = match <Option<i32> as TryGetable>::try_get(res, pre, "cake_id") {
            Ok(x) => x,
            Err(e) => {
                assert(first_unread(res@, pre@, e));
                return Err(e.into_db_err());
            },
        };
        Ok(Model { id, name, cake_id })
    }
}

impl ActiveModelTrait for ActiveModel {
    type Entity = Entity;

    open spec fn slots(&self) -> Map<Column, SlotView> {
        Map::total(
            |c: Column|
                match c {
                    Column::Id => match self.id {
                        ActiveValue::Assigned(x) => SlotView::Assigned(ValueView::Int(Some(x))),
                        ActiveValue::Unchanged(x) => SlotView::Unchanged(ValueView::Int(Some(x))),
                        ActiveValue::NotSet => SlotView::NotSet,
                    },
                    Column::Name => match self.name {
                        ActiveValue::Assigned(x) => SlotView::Assigned(ValueView::String(Some(x@))),
                        ActiveValue::Unchanged(x) => SlotView::Unchanged(ValueView::String(Some(x@))),
                        ActiveValue::NotSet => SlotView::NotSet,
                    },
                    Column::CakeId => match self.cake_id {
                        ActiveValue::Assigned(x) => SlotView::Assigned(ValueView::Int(x)),
                        ActiveValue::Unchanged(x) => SlotView::Unchanged(ValueView::Int(x)),
                        ActiveValue::NotSet => SlotView::NotSet,
                    },
                },
        )
    }

    open spec fn accepts(c: Column, v: ValueView) -> bool {
        match c {
            Column::Id => v matches ValueView::Int(Some(_)),
            Column::Name => v matches ValueView::String(Some(_)),
            Column::CakeId => v matches ValueView::Int(_),
        }
    }

    proof fn lemma_slots_total(&self) {
    }

    proof fn lemma_payload_accepted(&self, c: Column) {
    }

    fn take(&mut self, c: Column) -> (r: ActiveValue<Value>) {
        let r = self.get(c);
        self.not_set(c);
        r
    }

    fn get(&self, c: Column) -> (r: ActiveValue<Value>) {
        match c {
            Column::Id => match &self.id {
                ActiveValue::Assigned(x) => ActiveValue::Assigned(Value::Int(Some(*x))),
                ActiveValue::Unchanged(x) => ActiveValue::Unchanged(Value::Int(Some(*x))),
                ActiveValue::NotSet => ActiveValue::NotSet,
            },
            Column::Name => match &self.name {
                ActiveValue::Assigned(x) => ActiveValue::Assigned(Value::String(Some(x.clone()))),
                ActiveValue::Unchanged(x) => ActiveValue::Unchanged(Value::String(Some(x.clone()))),
                ActiveValue::NotSet => ActiveValue::NotSet,
            },
            Column::CakeId => match &self.cake_id {
                ActiveValue::Assigned(x) => ActiveValue::Assigned(Value::Int(*x)),
                ActiveValue::Unchanged(x) => ActiveValue::Unchanged(Value::Int(*x)),
                ActiveValue::NotSet => ActiveValue::NotSet,
            },
        }
    }

    fn set(&mut self, c: Column, v: Value) {
        match c {
            Column::Id => match v {
                Value::Int(Some(x)) => {
                    self.id = ActiveValue::Assigned(x);
                },
                _ => vstd::pervasive::unreached(),
            },
            Column::Name => match v {
                Value::String(Some(x)) => {
                    self.name = ActiveValue::Assigned(x);
                },
                _ => vstd::pervasive::unreached(),
            },
            Column::CakeId => match v {
                Value::Int(x) => {
                    self.cake_id = ActiveValue::Assigned(x);
                },
                _ => vstd::pervasive::unreached(),
            },
        }
        assert(self.slots() =~= old(self).slots().insert(c, SlotView::Assigned(v@)));
    }

    fn not_set(&mut self, c: Column) {
        match c {
            Column::Id => {
                self.id = ActiveValue::NotSet;
            },
            Column::Name => {
                self.name = ActiveValue::NotSet;
            },
            Column::CakeId => {
                self.cake_id = ActiveValue::NotSet;
            },
        }
        assert(self.slots() =~= old(self).slots().insert(c, SlotView::NotSet));
    }

    fn is_not_set(&self, c: Column) -> (r: bool) {
        match c {
            Column::Id => self.id.is_not_set(),
            Column::Name => self.name.is_not_set(),
            Column::CakeId => self.cake_id.is_not_set(),
        }
    }

    fn default() -> (r: ActiveModel) {
        let r = ActiveModel {
            id: ActiveValue::NotSet,
            name: ActiveValue::NotSet,
            cake_id: ActiveValue::NotSet,
        };
        assert(r.slots() =~= all_not_set::<Entity>());
        r
    }

    /// Every slot is `Assigned` the default of its type: zero, the empty
    /// text, `NULL`.
    fn default_values() -> (r: ActiveModel)
        ensures
            r.id == ActiveValue::Assigned(0i32),
            r.name matches ActiveValue::Assigned(s) && s@.len() == 0,
            r.cake_id == ActiveValue::Assigned(None::<i32>),
    {
        ActiveModel {
            id: ActiveValue::Assigned(0),
            name: ActiveValue::Assigned(String::new()),
            cake_id: ActiveValue::Assigned(None),
        }
    }

    fn reset(&mut self, c: Column) {
        match c {
            Column::Id => {
                let mut value = ActiveValue::NotSet;
                core::mem::swap(&mut value, &mut self.id);
                self.id = match value {
                    ActiveValue::Unchanged(x) => ActiveValue::Assigned(x),
                    other => other,
                };
            },
            Column::Name => {
                let mut value = ActiveValue::NotSet;
                core::mem::swap(&mut value, &mut self.name);
                self.name = match value {
                    ActiveValue::Unchanged(x) => ActiveValue::Assigned(x),
                    other => other,
                };
            },
            Column::CakeId => {
                let mut value = ActiveValue::NotSet;
                core::mem::swap(&mut value, &mut self.cake_id);
                self.cake_id = match value {
                    ActiveValue::Unchanged(x) => ActiveValue::Assigned(x),
                    other => other,
                };
            },
        }
        assert(self.slots() =~= old(self).slots().insert(c, old(self).slots()[c].reset()));
    }
}

impl ActiveModelBehavior for ActiveModel {
    type Model = Model;
}

impl IntoActiveModel<ActiveModel> for Model {
    /// Every slot is `Unchanged` with the value of the record.
    fn into_active_model(self) -> (r: ActiveModel)
        ensures
            r.id == ActiveValue::Unchanged(self.id),
            r.name == ActiveValue::Unchanged(self.name),
            r.cake_id == ActiveValue::Unchanged(self.cake_id),
            forall|c: Column| r.slots()[c] == SlotView::Unchanged(#[trigger] self.fields()[c]),
    {
        ActiveModel {
            id: ActiveValue::Unchanged(self.id),
            name: ActiveValue::Unchanged(self.name),
            cake_id: ActiveValue::Unchanged(self.cake_id),
        }
    }
}

impl TryIntoModel<Model> for ActiveModel {
    /// The record of the payloads; where a slot is `NotSet`, the error that
    /// names the first such column in declaration order.
    fn try_into_model(self) -> (r: Result<Model, DbErr>)
        ensures
            match r {
                Ok(m) => {
                    &&& self.id.payload() == Some(m.id)
                    &&& self.name.payload() == Some(m.name)
                    &&& self.cake_id.payload() == Some(m.cake_id)
                },
                Err(e) => e matches DbErr::AttrNotSet(n) && {
                    ||| self.id is NotSet && n@ == "id"@
                    ||| !(self.id is NotSet) && self.name is NotSet && n@ == "name"@
                    ||| !(self.id is NotSet) && !(self.name is NotSet) && self.cake_id is NotSet && n@ == "cake_id"@
                },
            },
    {
        let id = match self.id {
            ActiveValue::Assigned(x) => x,
            ActiveValue::Unchanged(x) => x,
            ActiveValue::NotSet => {
                return Err(DbErr::AttrNotSet("id".to_owned()));
            },
        };
        let name = match self.name {
            ActiveValue::Assigned(x) => x,
            ActiveValue::Unchanged(x) => x,
            ActiveValue::NotSet => {
                return Err(DbErr::AttrNotSet("name".to_owned()));
            },
        };
        let cake_id = match self.cake_id {
            ActiveValue::Assigned(x) => x,
            ActiveValue::Unchanged(x) => x,
            ActiveValue::NotSet => {
                return Err(DbErr::AttrNotSet("cake_id".to_owned()));
            },
        };
        Ok(Model { id, name, cake_id })
    }
}

} // verus!
