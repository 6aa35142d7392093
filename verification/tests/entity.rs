use sea_orm::entity::base_entity::make_table_ref;
use sea_orm::tests_cfg::hello;
use sea_orm::{DbErr, EntityName, TableRef, TransactionError};

#[test]
fn entity_model_2() {
    assert_eq!(hello::Entity.table_name(), "hello");
    assert_eq!(hello::Entity.schema_name(), Some("world"));
    assert_eq!(
        hello::Entity.table_ref(),
        TableRef::SchemaTable("world".to_owned(), "hello".to_owned())
    );
}

#[test]
fn a_table_reference_with_and_without_a_schema() {
    assert_eq!(
        make_table_ref(None, "cake"),
        TableRef::Table("cake".to_owned())
    );
    assert_eq!(
        make_table_ref(Some("public"), "cake"),
        TableRef::SchemaTable("public".to_owned(), "cake".to_owned())
    );
}

#[test]
fn an_error_of_the_runtime_is_a_connection_failure_of_a_unit_of_work() {
    let e: TransactionError<String> = DbErr::Custom("x".into()).into();
    assert_eq!(e, TransactionError::Connection(DbErr::Custom("x".into())));
}
