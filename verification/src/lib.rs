//! A typed relational-mapping runtime core: the active-value state machine,
//! active records and their lifecycle, the transaction state machine and the
//! consolidation of joined rows.

pub mod codegen;
pub mod database;
pub mod entity;
pub mod error;
pub mod executor;
pub mod query;
pub mod seq_util;
pub mod tests_cfg;
pub mod value;

pub use database::statement::{
    AccessMode, ConnectionKind, DbBackend, ExecResult, IsolationLevel, Statement, Values,
};
pub use database::stream::transaction::{StreamSource, TransactionStream};
pub use database::transaction::{
    DatabaseTransaction, DriverCall, DriverError, TransactionError, TxAction,
};
pub use entity::active_model::{
    ActiveModelBehavior, ActiveModelTrait, IntoActiveModel, IntoActiveValue,
};
pub use entity::active_value::{ActiveValue, SlotView, Unset};
pub use entity::base_entity::{EntityName, EntityTrait, TableRef};
pub use entity::column::{ColumnDef, ColumnTrait, ColumnType, IdenStatic, Iterable, StringLen};
pub use entity::lifecycle::{DeleteResult, SaveKind, WritePlan, WriteRequest};
pub use entity::model::{FromQueryResult, ModelTrait, TryIntoModel};
pub use entity::primary_key::{PrimaryKeyArity, PrimaryKeyToColumn, PrimaryKeyTrait};
pub use error::{DbErr, RuntimeErr};
pub use executor::consolidate::{consolidate_query_result, consolidate_query_result_of};
pub use executor::query::{QueryResult, TryGetError, TryGetable, TryGetableMany};
pub use executor::select::{
    SelectGetableTuple, SelectGetableValue, SelectModel, SelectThreeModel, SelectTwoModel,
    SelectorRaw, SelectorTrait,
};
pub use query::{
    DeleteMany, Select, SelectStatement, SelectThree, SelectTwo, SelectTwoMany, Selector,
};
pub use value::convert::Nullable;
pub use value::{Value, ValueTuple, ValueTupleView, ValueView};
