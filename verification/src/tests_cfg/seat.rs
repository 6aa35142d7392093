//! The `seat` table: the seats of the halls by day, keyed by hall, row, number and day.

use crate::entity::active_model::{
    all_not_set, ActiveModelBehavior, ActiveModelTrait, IntoActiveModel,
};
use crate::entity::active_value::{ActiveValue, SlotView};
use crate::entity::base_entity::{EntityName, EntityTrait};
use crate::entity::column::{ColumnDef, ColumnTrait, ColumnType, IdenStatic, Iterable, StringLen};
use crate::entity::model::{FromQueryResult, ModelTrait, TryIntoModel};
use crate::entity::primary_key::{PrimaryKeyToColumn, PrimaryKeyTrait};
use crate::error::DbErr;
use crate::executor::query::{QueryResult, TryGetable};
use crate::value::{Value, ValueView};
use vstd::prelude::*;

verus! {

/// The entity of the `seat` table.
#[derive(Copy, Clone, Default, Debug)]
pub struct Entity;

/// A row of the `seat` table.
#[derive(Clone, Debug, PartialEq, Eq)]
pub struct Model {
    pub hall: i32,
    pub row_no: i32,
    pub seat_no: i32,
    pub day: i32,
    pub holder: Option<i32>,
}

/// An active record of the `seat` table.
#[derive(Clone, Debug, Default, PartialEq)]
pub struct ActiveModel {
    pub hall: ActiveValue<i32>,
    pub row_no: ActiveValue<i32>,
    pub seat_no: ActiveValue<i32>,
    pub day: ActiveValue<i32>,
    pub holder: ActiveValue<Option<i32>>,
}

/// The columns of the `seat` table, in declaration order.
#[derive(Copy, Clone, Debug, PartialEq, Eq, Structural)]
pub enum Column {
    Hall,
    RowNo,
    SeatNo,
    Day,
    Holder,
}

/// The primary key of the `seat` table.
#[derive(Copy, Clone, Debug, PartialEq, Eq, Structural)]
pub enum PrimaryKey {
    Hall,
    RowNo,
    SeatNo,
    Day,
}

impl IdenStatic for Entity {
    open spec fn spec_name(&self) -> Seq<char> {
        "seat"@
    }

    fn as_str(&self) -> (s: &'static str) {
        "seat"
    }
}

impl EntityName for Entity {
    fn table_name(&self) -> (s: &'static str) {
        "seat"
    }
}

impl EntityTrait for Entity {
    type Column = Column;

    type PrimaryKey = PrimaryKey;
}

impl IdenStatic for Column {
    open spec fn spec_name(&self) -> Seq<char> {
        match self {
            Column::Hall => "hall"@,
            Column::RowNo => "row_no"@,
            Column::SeatNo => "seat_no"@,
            Column::Day => "day"@,
            Column::Holder => "holder"@,
        }
    }

    fn as_str(&self) -> (s: &'static str) {
        match self {
            Column::Hall => "hall",
            Column::RowNo => "row_no",
            Column::SeatNo => "seat_no",
            Column::Day => "day",
            Column::Holder => "holder",
        }
    }
}

impl Iterable for Column {
    open spec fn spec_iter() -> Seq<Column> {
        seq![Column::Hall, Column::RowNo, Column::SeatNo, Column::Day, Column::Holder]
    }

    fn iter() -> (v: Vec<Column>) {
        let v = vec![Column::Hall, Column::RowNo, Column::SeatNo, Column::Day, Column::Holder];
        assert(v@ =~= Self::spec_iter());
        v
    }

    proof fn lemma_iter_complete(item: Column) {
        let s = Self::spec_iter();
        match item {
            Column::Hall => assert(s[0] == item),
            Column::RowNo => assert(s[1] == item),
            Column::SeatNo => assert(s[2] == item),
            Column::Day => assert(s[3] == item),
            Column::Holder => assert(s[4] == item),
        }
    }

    proof fn lemma_iter_distinct() {
    }
}

impl ColumnTrait for Column {
    open spec fn spec_def(&self) -> ColumnDef {
        match self {
            Column::Hall => ColumnDef {
                col_type: ColumnType::Integer,
                null: false,
                unique: false,
                indexed: false,
            },
            Column::RowNo => ColumnDef {
                col_type: ColumnType::Integer,
                null: false,
                unique: false,
                indexed: false,
            },
            Column::SeatNo => ColumnDef {
                col_type: ColumnType::Integer,
                null: false,
                unique: false,
                indexed: false,
            },
            Column::Day => ColumnDef {
                col_type: ColumnType::Integer,
                null: false,
                unique: false,
                indexed: false,
            },
            Column::Holder => ColumnDef {
                col_type: ColumnType::Integer,
                null: true,
                unique: false,
                indexed: false,
            },
        }
    }

    fn def(&self) -> (d: ColumnDef) {
        match self {
            Column::Hall => ColumnType::Integer.def(),
            Column::RowNo => ColumnType::Integer.def(),
            Column::SeatNo => ColumnType::Integer.def(),
            Column::Day => ColumnType::Integer.def(),
            Column::Holder => ColumnType::Integer.def().nullable(),
        }
    }
}

impl Iterable for PrimaryKey {
    open spec fn spec_iter() -> Seq<PrimaryKey> {
        seq![PrimaryKey::Hall, PrimaryKey::RowNo, PrimaryKey::SeatNo, PrimaryKey::Day]
    }

    fn iter() -> (v: Vec<PrimaryKey>) {
        let v = vec![PrimaryKey::Hall, PrimaryKey::RowNo, PrimaryKey::SeatNo, PrimaryKey::Day];
        assert(v@ =~= Self::spec_iter());
        v
    }

    proof fn lemma_iter_complete(item: PrimaryKey) {
        let s = Self::spec_iter();
        match item {
            PrimaryKey::Hall => assert(s[0] == item),
            PrimaryKey::RowNo => assert(s[1] == item),
            PrimaryKey::SeatNo => assert(s[2] == item),
            PrimaryKey::Day => assert(s[3] == item),
        }
    }

    proof fn lemma_iter_distinct() {
    }
}

impl PrimaryKeyTrait for PrimaryKey {
    type ValueType = (i32, i32, i32, i32);

    fn auto_increment() -> (r: bool)
        ensures
            r == false,
    {
        false
    }
}

impl PrimaryKeyToColumn for PrimaryKey {
    type Column = Column;

    open spec fn spec_column(self) -> Column {
        match self {
            PrimaryKey::Hall => Column::Hall,
            PrimaryKey::RowNo => Column::RowNo,
            PrimaryKey::SeatNo => Column::SeatNo,
            PrimaryKey::Day => Column::Day,
        }
    }

    fn into_column(self) -> (c: Column) {
        match self {
            PrimaryKey::Hall => Column::Hall,
            PrimaryKey::RowNo => Column::RowNo,
            PrimaryKey::SeatNo => Column::SeatNo,
            PrimaryKey::Day => Column::Day,
        }
    }

    proof fn lemma_column_injective(a: PrimaryKey, b: PrimaryKey) {
    }

    fn from_column(col: Column) -> (r: Option<PrimaryKey>) {
        match col {
            Column::Hall => Some(PrimaryKey::Hall),
            Column::RowNo => Some(PrimaryKey::RowNo),
            Column::SeatNo => Some(PrimaryKey::SeatNo),
            Column::Day => Some(PrimaryKey::Day),
            _ => None,
        }
    }
}

impl ModelTrait for Model {
    type Entity = Entity;

    open spec fn fields(&self) -> Map<Column, ValueView> {
        Map::total(
            |c: Column|
                match c {
                    Column::Hall => ValueView::Int(Some(self.hall)),
                    Column::RowNo => ValueView::Int(Some(self.row_no)),
                    Column::SeatNo => ValueView::Int(Some(self.seat_no)),
                    Column::Day => ValueView::Int(Some(self.day)),
                    Column::Holder => ValueView::Int(self.holder),
                },
        )
    }

    proof fn lemma_fields_total(&self) {
    }

    fn get(&self, c: Column) -> (v: Value) {
        match c {
            Column::Hall => Value::Int(Some(self.hall)),
            Column::RowNo => Value::Int(Some(self.row_no)),
            Column::SeatNo => Value::Int(Some(self.seat_no)),
            Column::Day => Value::Int(Some(self.day)),
            Column::Holder => Value::Int(self.holder),
        }
    }
}

/// Whether `inner` is the error of the first column that cannot be read
/// from the row: the columns are read in declaration order, each by its
/// name after the prefix.
pub open spec fn first_unread(
    row: Seq<(Seq<char>, ValueView)>,
    pre: Seq<char>,
    inner: crate::executor::query::TryGetError,
) -> bool {
    if !crate::executor::query::readable::<i32>(
        crate::executor::query::found_by_name(row, pre + "hall"@),
    ) {
        crate::executor::query::reads::<i32>(
            crate::executor::query::found_by_name(row, pre + "hall"@),
            pre + "hall"@,
            Err(inner),
        )
    } else if !crate::executor::query::readable::<i32>(
        crate::executor::query::found_by_name(row, pre + "row_no"@),
    ) {
        crate::executor::query::reads::<i32>(
            crate::executor::query::found_by_name(row, pre + "row_no"@),
            pre + "row_no"@,
            Err(inner),
        )
    } else if !crate::executor::query::readable::<i32>(
        crate::executor::query::found_by_name(row, pre + "seat_no"@),
    ) {
        crate::executor::query::reads::<i32>(
            crate::executor::query::found_by_name(row, pre + "seat_no"@),
            pre + "seat_no"@,
            Err(inner),
        )
    } else if !crate::executor::query::readable::<i32>(
        crate::executor::query::found_by_name(row, pre + "day"@),
    ) {
        crate::executor::query::reads::<i32>(
            crate::executor::query::found_by_name(row, pre + "day"@),
            pre + "day"@,
            Err(inner),
        )
    } else {
        crate::executor::query::reads::<Option<i32>>(
            crate::executor::query::found_by_name(row, pre + "holder"@),
            pre + "holder"@,
            Err(inner),
        )
    }
}

impl FromQueryResult for Model {
    /// The record of the columns of the row whose names are the prefix
    /// followed by the names of the columns. The row yields a record if
    /// and only if every such column is there and holds a value of its
    /// field's family; the first column that does not ends the reading
    /// with its error.
    fn from_query_result(res: &QueryResult, pre: &str) -> (r: Result<Model, DbErr>)
        ensures
            r matches Ok(m) ==> {
                &&& crate::executor::query::reads::<i32>(
                    crate::executor::query::found_by_name(res@, pre@ + "hall"@),
                    pre@ + "hall"@,
                    Ok(m.hall),
                )
                &&& crate::executor::query::reads::<i32>(
                    crate::executor::query::found_by_name(res@, pre@ + "row_no"@),
                    pre@ + "row_no"@,
                    Ok(m.row_no),
                )
                &&& crate::executor::query::reads::<i32>(
                    crate::executor::query::found_by_name(res@, pre@ + "seat_no"@),
                    pre@ + "seat_no"@,
                    Ok(m.seat_no),
                )
                &&& crate::executor::query::reads::<i32>(
                    crate::executor::query::found_by_name(res@, pre@ + "day"@),
                    pre@ + "day"@,
                    Ok(m.day),
                )
                &&& crate::executor::query::reads::<Option<i32>>(
                    crate::executor::query::found_by_name(res@, pre@ + "holder"@),
                    pre@ + "holder"@,
                    Ok(m.holder),
                )
            },
            r is Ok <==> {
                &&& crate::executor::query::readable::<i32>(
                    crate::executor::query::found_by_name(res@, pre@ + "hall"@),
                )
                &&& crate::executor::query::readable::<i32>(
                    crate::executor::query::found_by_name(res@, pre@ + "row_no"@),
                )
                &&& crate::executor::query::readable::<i32>(
                    crate::executor::query::found_by_name(res@, pre@ + "seat_no"@),
                )
                &&& crate::executor::query::readable::<i32>(
                    crate::executor::query::found_by_name(res@, pre@ + "day"@),
                )
                &&& crate::executor::query::readable::<Option<i32>>(
                    crate::executor::query::found_by_name(res@, pre@ + "holder"@),
                )
            },
            r matches Err(e) ==> exists|inner: crate::executor::query::TryGetError| #[trigger]
                first_unread(res@, pre@, inner) && e == inner.spec_into_db_err(),
    {
        let hall = match <i32 as TryGetable>::try_get(res, pre, "hall") {
            Ok(x) => x,
            Err(e) => {
                assert(first_unread(res@, pre@, e));
                return Err(e.into_db_err());
            },
        };
        let row_no = match <i32 as TryGetable>::try_get(res, pre, "row_no") {
            Ok(x) => x,
            Err(e) => {
                assert(first_unread(res@, pre@, e));
                return Err(e.into_db_err());
            },
        };
        let seat_no = match <i32 as TryGetable>::try_get(res, pre, "seat_no") {
            Ok(x) => x,
            Err(e) => {
                assert(first_unread(res@, pre@, e));
                return Err(e.into_db_err());
            },
        };
        let day = match <i32 as TryGetable>::try_get(res, pre, "day") {
            Ok(x) => x,
            Err(e) => {
                assert(first_unread(res@, pre@, e));
                return Err(e.into_db_err());
            },
        };
        let holder = match <Option<i32> as TryGetable>::try_get(res, pre, "holder") {
            Ok(x) => x,
            Err(e) => {
                assert(first_unread(res@, pre@, e));
                return Err(e.into_db_err());
            },
        };
        Ok(Model { hall, row_no, seat_no, day, holder })
    }
}

impl ActiveModelTrait for ActiveModel {
    type Entity = Entity;

    open spec fn slots(&self) -> Map<Column, SlotView> {
        Map::total(
            |c: Column|
                match c {
                    Column::Hall => match self.hall {
                        ActiveValue::Assigned(x) => SlotView::Assigned(ValueView::Int(Some(x))),
                        ActiveValue::Unchanged(x) => SlotView::Unchanged(ValueView::Int(Some(x))),
                        ActiveValue::NotSet => SlotView::NotSet,
                    },
                    Column::RowNo => match self.row_no {
                        ActiveValue::Assigned(x) => SlotView::Assigned(ValueView::Int(Some(x))),
                        ActiveValue::Unchanged(x) => SlotView::Unchanged(ValueView::Int(Some(x))),
                        ActiveValue::NotSet => SlotView::NotSet,
                    },
                    Column::SeatNo => match self.seat_no {
                        ActiveValue::Assigned(x) => SlotView::Assigned(ValueView::Int(Some(x))),
                        ActiveValue::Unchanged(x) => SlotView::Unchanged(ValueView::Int(Some(x))),
                        ActiveValue::NotSet => SlotView::NotSet,
                    },
                    Column::Day => match self.day {
                        ActiveValue::Assigned(x) => SlotView::Assigned(ValueView::Int(Some(x))),
                        ActiveValue::Unchanged(x) => SlotView::Unchanged(ValueView::Int(Some(x))),
                        ActiveValue::NotSet => SlotView::NotSet,
                    },
                    Column::Holder => match self.holder {
                        ActiveValue::Assigned(x) => SlotView::Assigned(ValueView::Int(x)),
                        ActiveValue::Unchanged(x) => SlotView::Unchanged(ValueView::Int(x)),
                        ActiveValue::NotSet => SlotView::NotSet,
                    },
                },
        )
    }

    open spec fn accepts(c: Column, v: ValueView) -> bool {
        match c {
            Column::Hall => v matches ValueView::Int(Some(_)),
            Column::RowNo => v matches ValueView::Int(Some(_)),
            Column::SeatNo => v matches ValueView::Int(Some(_)),
            Column::Day => v matches ValueView::Int(Some(_)),
            Column::Holder => v matches ValueView::Int(_),
        }
    }

    proof fn lemma_slots_total(&self) {
    }

    proof fn lemma_payload_accepted(&self, c: Column) {
    }

    fn take(&mut self, c: Column) -> (r: ActiveValue<Value>) {
        let r = self.get(c);
        self.not_set(c);
        r
    }

    fn get(&self, c: Column) -> (r: ActiveValue<Value>) {
        match c {
            Column::Hall => match &self.hall {
                ActiveValue::Assigned(x) => ActiveValue::Assigned(Value::Int(Some(*x))),
                ActiveValue::Unchanged(x) => ActiveValue::Unchanged(Value::Int(Some(*x))),
                ActiveValue::NotSet => ActiveValue::NotSet,
            },
            Column::RowNo => match &self.row_no {
                ActiveValue::Assigned(x) => ActiveValue::Assigned(Value::Int(Some(*x))),
                ActiveValue::Unchanged(x) => ActiveValue::Unchanged(Value::Int(Some(*x))),
                ActiveValue::NotSet => ActiveValue::NotSet,
            },
            Column::SeatNo => match &self.seat_no {
                ActiveValue::Assigned(x) => ActiveValue::Assigned(Value::Int(Some(*x))),
                ActiveValue::Unchanged(x) => ActiveValue::Unchanged(Value::Int(Some(*x))),
                ActiveValue::NotSet => ActiveValue::NotSet,
            },
            Column::Day => match &self.day {
                ActiveValue::Assigned(x) => ActiveValue::Assigned(Value::Int(Some(*x))),
                ActiveValue::Unchanged(x) => ActiveValue::Unchanged(Value::Int(Some(*x))),
                ActiveValue::NotSet => ActiveValue::NotSet,
            },
            Column::Holder => match &self.holder {
                ActiveValue::Assigned(x) => ActiveValue::Assigned(Value::Int(*x)),
                ActiveValue::Unchanged(x) => ActiveValue::Unchanged(Value::Int(*x)),
                ActiveValue::NotSet => ActiveValue::NotSet,
            },
        }
    }

    fn set(&mut self, c: Column, v: Value) {
        match c {
            Column::Hall => match v {
                Value::Int(Some(x)) => {
                    self.hall = ActiveValue::Assigned(x);
                },
                _ => vstd::pervasive::unreached(),
            },
            Column::RowNo => match v {
                Value::Int(Some(x)) => {
                    self.row_no = ActiveValue::Assigned(x);
                },
                _ => vstd::pervasive::unreached(),
            },
            Column::SeatNo => match v {
                Value::Int(Some(x)) => {
                    self.seat_no = ActiveValue::Assigned(x);
                },
                _ => vstd::pervasive::unreached(),
            },
            Column::Day => match v {
                Value::Int(Some(x)) => {
                    self.day = ActiveValue::Assigned(x);
                },
                _ => vstd::pervasive::unreached(),
            },
            Column::Holder => match v {
                Value::Int(x) => {
                    self.holder = ActiveValue::Assigned(x);
                },
                _ => vstd::pervasive::unreached(),
            },
        }
        assert(self.slots() =~= old(self).slots().insert(c, SlotView::Assigned(v@)));
    }

    fn not_set(&mut self, c: Column) {
        match c {
            Column::Hall => {
                self.hall = ActiveValue::NotSet;
            },
            Column::RowNo => {
                self.row_no = ActiveValue::NotSet;
            },
            Column::SeatNo => {
                self.seat_no = ActiveValue::NotSet;
            },
            Column::Day => {
                self.day = ActiveValue::NotSet;
            },
            Column::Holder => {
                self.holder = ActiveValue::NotSet;
            },
        }
        assert(self.slots() =~= old(self).slots().insert(c, SlotView::NotSet));
    }

    fn is_not_set(&self, c: Column) -> (r: bool) {
        match c {
            Column::Hall => self.hall.is_not_set(),
            Column::RowNo => self.row_no.is_not_set(),
            Column::SeatNo => self.seat_no.is_not_set(),
            Column::Day => self.day.is_not_set(),
            Column::Holder => self.holder.is_not_set(),
        }
    }

    fn default() -> (r: ActiveModel) {
        let r = ActiveModel {
            hall: ActiveValue::NotSet,
            row_no: ActiveValue::NotSet,
            seat_no: ActiveValue::NotSet,
            day: ActiveValue::NotSet,
            holder: ActiveValue::NotSet,
        };
        assert(r.slots() =~= all_not_set::<Entity>());
        r
    }

    /// Every slot is `Assigned` the default of its type: zero, the empty
    /// text, `NULL`.
    fn default_values() -> (r: ActiveModel)
        ensures
            r.hall == ActiveValue::Assigned(0i32),
            r.row_no == ActiveValue::Assigned(0i32),
            r.seat_no == ActiveValue::Assigned(0i32),
            r.day == ActiveValue::Assigned(0i32),
            r.holder == ActiveValue::Assigned(None::<i32>),
    {
        ActiveModel {
            hall: ActiveValue::Assigned(0),
            row_no: ActiveValue::Assigned(0),
            seat_no: ActiveValue::Assigned(0),
            day: ActiveValue::Assigned(0),
            holder: ActiveValue::Assigned(None),
        }
    }

    fn reset(&mut self, c: Column) {
        match c {
            Column::Hall => {
                let mut value = ActiveValue::NotSet;
                core::mem::swap(&mut value, &mut self.hall);
                self.hall = match value {
                    ActiveValue::Unchanged(x) => ActiveValue::Assigned(x),
                    other => other,
                };
            },
            Column::RowNo => {
                let mut value = ActiveValue::NotSet;
                core::mem::swap(&mut value, &mut self.row_no);
                self.row_no = match value {
                    ActiveValue::Unchanged(x) => ActiveValue::Assigned(x),
                    other => other,
                };
            },
            Column::SeatNo => {
                let mut value = ActiveValue::NotSet;
                core::mem::swap(&mut value, &mut self.seat_no);
                self.seat_no = match value {
                    ActiveValue::Unchanged(x) => ActiveValue::Assigned(x),
                    other => other,
                };
            },
            Column::Day => {
                let mut value = ActiveValue::NotSet;
                core::mem::swap(&mut value, &mut self.day);
                self.day = match value {
                    ActiveValue::Unchanged(x) => ActiveValue::Assigned(x),
                    other => other,
                };
            },
            Column::Holder => {
                let mut value = ActiveValue::NotSet;
                core::mem::swap(&mut value, &mut self.holder);
                self.holder = match value {
                    ActiveValue::Unchanged(x) => ActiveValue::Assigned(x),
                    other => other,
                };
            },
        }
        assert(self.slots() =~= old(self).slots().insert(c, old(self).slots()[c].reset()));
    }
}

impl ActiveModelBehavior for ActiveModel {
    type Model = Model;
}

impl IntoActiveModel<ActiveModel> for Model {
    /// Every slot is `Unchanged` with the value of the record.
    fn into_active_model(self) -> (r: ActiveModel)
        ensures
            r.hall == ActiveValue::Unchanged(self.hall),
            r.row_no == ActiveValue::Unchanged(self.row_no),
            r.seat_no == ActiveValue::Unchanged(self.seat_no),
            r.day == ActiveValue::Unchanged(self.day),
            r.holder == ActiveValue::Unchanged(self.holder),
            forall|c: Column| r.slots()[c] == SlotView::Unchanged(#[trigger] self.fields()[c]),
    {
        ActiveModel {
            hall: ActiveValue::Unchanged(self.hall),
            row_no: ActiveValue::Unchanged(self.row_no),
            seat_no: ActiveValue::Unchanged(self.seat_no),
            day: ActiveValue::Unchanged(self.day),
            holder: ActiveValue::Unchanged(self.holder),
        }
    }
}

impl TryIntoModel<Model> for ActiveModel {
    /// The record of the payloads; where a slot is `NotSet`, the error that
    /// names the first such column in declaration order.
    fn try_into_model(self) -> (r: Result<Model, DbErr>)
        ensures
            match r {
                Ok(m) => {
                    &&& self.hall.payload() == Some(m.hall)
                    &&& self.row_no.payload() == Some(m.row_no)
                    &&& self.seat_no.payload() == Some(m.seat_no)
                    &&& self.day.payload() == Some(m.day)
                    &&& self.holder.payload() == Some(m.holder)
                },
                Err(e) => e matches DbErr::AttrNotSet(n) && {
                    ||| self.hall is NotSet && n@ == "hall"@
                    ||| !(self.hall is NotSet) && self.row_no is NotSet && n@ == "row_no"@
                    ||| !(self.hall is NotSet) && !(self.row_no is NotSet) && self.seat_no is NotSet && n@ == "seat_no"@
                    ||| !(self.hall is NotSet) && !(self.row_no is NotSet) && !(self.seat_no is NotSet) && self.day is NotSet && n@ == "day"@
                    ||| !(self.hall is NotSet) && !(self.row_no is NotSet) && !(self.seat_no is NotSet) && !(self.day is NotSet) && self.holder is NotSet && n@ == "holder"@
                },
            },
    {
        let hall = match self.hall {
            ActiveValue::Assigned(x) => x,
            ActiveValue::Unchanged(x) => x,
            ActiveValue::NotSet => {
                return Err(DbErr::AttrNotSet("hall".to_owned()));
            },
        };
        let row_no = match self.row_no {
            ActiveValue::Assigned(x) => x,
            ActiveValue::Unchanged(x) => x,
            ActiveValue::NotSet => {
                return Err(DbErr::AttrNotSet("row_no".to_owned()));
            },
        };
        let seat_no = match self.seat_no {
            ActiveValue::Assigned(x) => x,
            ActiveValue::Unchanged(x) => x,
            ActiveValue::NotSet => {
                return Err(DbErr::AttrNotSet("seat_no".to_owned()));
            },
        };
        let day = match self.day {
            ActiveValue::Assigned(x) => x,
            ActiveValue::Unchanged(x) => x,
            ActiveValue::NotSet => {
                return Err(DbErr::AttrNotSet("day".to_owned()));
            },
        };
        let holder = match self.holder {
            ActiveValue::Assigned(x) => x,
            ActiveValue::Unchanged(x) => x,
            ActiveValue::NotSet => {
                return Err(DbErr::AttrNotSet("holder".to_owned()));
            },
        };
        Ok(Model { hall, row_no, seat_no, day, holder })
    }
}

} // verus!
