use sea_orm::entity::active_value::ActiveValue::{Assigned, NotSet, Unchanged};
use sea_orm::entity::lifecycle::{
    delete_request, finish_delete, finish_save, insert_columns, insert_request, is_key_column,
    key_of, plan_delete, plan_insert, plan_save, plan_update, save_kind, update_columns,
    update_request,
};
use sea_orm::tests_cfg::{cake_filling, fruit};
use sea_orm::{
    ActiveModelTrait, DbErr, DeleteResult, IntoActiveModel, SaveKind, Value, WriteRequest,
};

fn apple() -> fruit::Model {
    fruit::Model {
        id: 1,
        name: "Apple".into(),
        cake_id: None,
    }
}

#[test]
fn an_insert_writes_exactly_the_columns_with_a_value() {
    let one = fruit::ActiveModel {
        id: NotSet,
        name: Assigned("Apple".to_owned()),
        cake_id: NotSet,
    };
    assert_eq!(
        insert_request(&one),
        WriteRequest::Insert {
            columns: vec![(fruit::Column::Name, Value::from("Apple"))]
        }
    );
    let mixed = fruit::ActiveModel {
        id: Unchanged(7),
        name: NotSet,
        cake_id: Assigned(Some(2)),
    };
    assert_eq!(
        insert_columns(&mixed),
        vec![
            (fruit::Column::Id, Value::Int(Some(7))),
            (fruit::Column::CakeId, Value::Int(Some(2)))
        ]
    );
    let empty: fruit::ActiveModel = Default::default();
    assert_eq!(insert_columns(&empty), vec![]);
}

#[test]
fn an_update_without_assigned_columns_writes_nothing() {
    let unchanged = apple().into_active_model();
    assert_eq!(
        update_request(&unchanged),
        Ok(WriteRequest::Fetch {
            key: vec![(fruit::Column::Id, Value::Int(Some(1)))]
        })
    );
    // an assigned key alone is nothing to set
    let key_only = fruit::ActiveModel {
        id: Assigned(1),
        name: NotSet,
        cake_id: NotSet,
    };
    assert_eq!(
        update_request(&key_only),
        Ok(WriteRequest::Fetch {
            key: vec![(fruit::Column::Id, Value::Int(Some(1)))]
        })
    );
    assert_eq!(update_columns(&key_only), vec![]);
}

#[test]
fn an_update_sets_the_assigned_columns_outside_the_key() {
    let reset = apple().into_active_model().reset_all();
    assert_eq!(
        update_request(&reset),
        Ok(WriteRequest::Update {
            columns: vec![
                (fruit::Column::Name, Value::from("Apple")),
                (fruit::Column::CakeId, Value::Int(None))
            ],
            key: vec![(fruit::Column::Id, Value::Int(Some(1)))]
        })
    );
    let orange = fruit::ActiveModel {
        id: Unchanged(1),
        name: NotSet,
        cake_id: Assigned(Some(2)),
    };
    assert_eq!(
        update_request(&orange),
        Ok(WriteRequest::Update {
            columns: vec![(fruit::Column::CakeId, Value::Int(Some(2)))],
            key: vec![(fruit::Column::Id, Value::Int(Some(1)))]
        })
    );
}

#[test]
fn a_statement_by_key_needs_the_whole_key() {
    let no_key = fruit::ActiveModel {
        id: NotSet,
        name: Assigned("x".to_owned()),
        cake_id: NotSet,
    };
    assert_eq!(
        update_request(&no_key),
        Err(DbErr::PrimaryKeyNotSet("UpdateOne".into()))
    );
    assert_eq!(
        delete_request(&no_key),
        Err(DbErr::PrimaryKeyNotSet("DeleteOne".into()))
    );
    assert_eq!(key_of(&no_key), None);
    let half = cake_filling::ActiveModel {
        cake_id: Assigned(1),
        filling_id: NotSet,
    };
    assert_eq!(key_of(&half), None);
    assert_eq!(save_kind(&half), SaveKind::Insert);
    let whole = cake_filling::ActiveModel {
        cake_id: Assigned(1),
        filling_id: Unchanged(2),
    };
    assert_eq!(
        key_of(&whole),
        Some(vec![
            (cake_filling::Column::CakeId, Value::Int(Some(1))),
            (cake_filling::Column::FillingId, Value::Int(Some(2)))
        ])
    );
    assert_eq!(
        delete_request(&whole),
        Ok(WriteRequest::Delete {
            key: vec![
                (cake_filling::Column::CakeId, Value::Int(Some(1))),
                (cake_filling::Column::FillingId, Value::Int(Some(2)))
            ]
        })
    );
    assert_eq!(save_kind(&whole), SaveKind::Update);
    assert!(is_key_column::<cake_filling::Entity>(
        cake_filling::Column::FillingId
    ));
    assert!(is_key_column::<fruit::Entity>(fruit::Column::Id));
    assert!(!is_key_column::<fruit::Entity>(fruit::Column::Name));
}

#[test]
fn a_save_inserts_without_a_key_and_updates_with_one() {
    let new = fruit::ActiveModel {
        id: NotSet,
        name: Assigned("Apple".to_owned()),
        cake_id: NotSet,
    };
    let (kind, plan) = plan_save(new);
    assert_eq!(kind, SaveKind::Insert);
    assert_eq!(
        plan.unwrap().request,
        WriteRequest::Insert {
            columns: vec![(fruit::Column::Name, Value::from("Apple"))]
        }
    );
    let old = fruit::ActiveModel {
        id: Assigned(2),
        name: Assigned("Orange".to_owned()),
        cake_id: Assigned(Some(1)),
    };
    let (kind, plan) = plan_save(old.clone());
    assert_eq!(kind, SaveKind::Update);
    let plan = plan.unwrap();
    assert_eq!(plan.record, old);
    assert_eq!(
        plan.request,
        WriteRequest::Update {
            columns: vec![
                (fruit::Column::Name, Value::from("Orange")),
                (fruit::Column::CakeId, Value::Int(Some(1)))
            ],
            key: vec![(fruit::Column::Id, Value::Int(Some(2)))]
        }
    );
}

#[test]
fn the_default_hooks_pass_everything_through() {
    let am = apple().into_active_model();
    let insert = plan_insert(am.clone()).unwrap();
    assert_eq!(insert.record, am);
    assert_eq!(
        insert.request,
        WriteRequest::Insert {
            columns: vec![
                (fruit::Column::Id, Value::Int(Some(1))),
                (fruit::Column::Name, Value::from("Apple")),
                (fruit::Column::CakeId, Value::Int(None))
            ]
        }
    );
    assert!(matches!(
        plan_update(am.clone()).unwrap().request,
        WriteRequest::Fetch { .. }
    ));
    assert_eq!(
        finish_save::<fruit::ActiveModel>(apple(), true),
        Ok(apple())
    );
    let delete = plan_delete(am.clone()).unwrap();
    assert_eq!(
        delete.request,
        WriteRequest::Delete {
            key: vec![(fruit::Column::Id, Value::Int(Some(1)))]
        }
    );
    assert_eq!(
        finish_delete(delete.record, 1),
        Ok(DeleteResult { rows_affected: 1 })
    );
    let no_key: fruit::ActiveModel = Default::default();
    assert_eq!(
        plan_delete(no_key.clone()).err(),
        Some(DbErr::PrimaryKeyNotSet("DeleteOne".into()))
    );
    assert_eq!(
        plan_update(no_key).err(),
        Some(DbErr::PrimaryKeyNotSet("UpdateOne".into()))
    );
}

#[test]
fn a_hook_can_reject_a_record_before_anything_is_written() {
    use_vendor_hook();
}

fn use_vendor_hook() {
    let nameless = sea_orm::tests_cfg::vendor::ActiveModel {
        id: Assigned(1),
        name: NotSet,
    };
    assert_eq!(
        plan_insert(nameless.clone()).err(),
        Some(DbErr::Custom("a vendor needs a name".into()))
    );
    let (kind, plan) = plan_save(sea_orm::tests_cfg::vendor::ActiveModel {
        id: NotSet,
        name: NotSet,
    });
    assert_eq!(kind, SaveKind::Insert);
    assert_eq!(
        plan.err(),
        Some(DbErr::Custom("a vendor needs a name".into()))
    );
    // the hook lets an update of the same record pass
    assert!(matches!(
        plan_update(nameless).unwrap().request,
        WriteRequest::Fetch { .. }
    ));
    let named = sea_orm::tests_cfg::vendor::ActiveModel {
        id: NotSet,
        name: Assigned("Apollo".to_owned()),
    };
    assert_eq!(
        plan_insert(named).unwrap().request,
        WriteRequest::Insert {
            columns: vec![(sea_orm::tests_cfg::vendor::Column::Name, Value::from("Apollo"))]
        }
    );
}
