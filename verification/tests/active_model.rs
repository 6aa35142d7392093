use sea_orm::entity::active_value::ActiveValue::{Assigned, NotSet, Unchanged};
use sea_orm::tests_cfg::{cake, cake_filling, filling, fruit};
use sea_orm::{
    ActiveModelBehavior, ActiveModelTrait, ActiveValue, DbErr, IntoActiveModel, IntoActiveValue,
    TryIntoModel, Value, ValueTuple,
};

struct NewFruit {
    name: String,
    cake_id: i32,
}

impl IntoActiveModel<fruit::ActiveModel> for NewFruit {
    fn into_active_model(self) -> fruit::ActiveModel {
        fruit::ActiveModel {
            name: self.name.into_active_value(),
            cake_id: self.cake_id.into_active_value().into(),
            ..Default::default()
        }
    }
}

struct FruitName {
    name: String,
}

impl IntoActiveModel<fruit::ActiveModel> for FruitName {
    fn into_active_model(self) -> fruit::ActiveModel {
        fruit::ActiveModel {
            name: self.name.into_active_value(),
            ..Default::default()
        }
    }
}

struct FruitCake {
    cake_id: Option<Option<i32>>,
}

impl IntoActiveModel<fruit::ActiveModel> for FruitCake {
    fn into_active_model(self) -> fruit::ActiveModel {
        fruit::ActiveModel {
            cake_id: self.cake_id.into_active_value(),
            ..Default::default()
        }
    }
}

#[test]
fn test_derive_into_active_model_1() {
    assert_eq!(
        NewFruit {
            name: "Apple".to_owned(),
            cake_id: 1,
        }
        .into_active_model(),
        fruit::ActiveModel {
            id: NotSet,
            name: Assigned("Apple".to_owned()),
            cake_id: Assigned(Some(1)),
        }
    );
}

#[test]
fn test_derive_into_active_model_2() {
    assert_eq!(
        FruitName {
            name: "Apple Pie".to_owned(),
        }
        .into_active_model(),
        fruit::ActiveModel {
            id: NotSet,
            name: Assigned("Apple Pie".to_owned()),
            cake_id: NotSet,
        }
    );

    assert_eq!(
        FruitCake {
            cake_id: Some(Some(1)),
        }
        .into_active_model(),
        fruit::ActiveModel {
            id: NotSet,
            name: NotSet,
            cake_id: Assigned(Some(1)),
        }
    );

    assert_eq!(
        FruitCake {
            cake_id: Some(None),
        }
        .into_active_model(),
        fruit::ActiveModel {
            id: NotSet,
            name: NotSet,
            cake_id: Assigned(None),
        }
    );

    assert_eq!(
        FruitCake { cake_id: None }.into_active_model(),
        fruit::ActiveModel {
            id: NotSet,
            name: NotSet,
            cake_id: NotSet,
        }
    );
}

#[test]
fn test_derive_try_into_model_1() {
    assert_eq!(
        fruit::ActiveModel {
            id: Assigned(1),
            name: Assigned("Pineapple".to_owned()),
            cake_id: Assigned(None),
        }
        .try_into_model()
        .unwrap(),
        fruit::Model {
            id: 1,
            name: "Pineapple".to_owned(),
            cake_id: None,
        }
    );

    assert_eq!(
        fruit::ActiveModel {
            id: Assigned(2),
            name: Assigned("Apple".to_owned()),
            cake_id: Assigned(Some(1)),
        }
        .try_into_model()
        .unwrap(),
        fruit::Model {
            id: 2,
            name: "Apple".to_owned(),
            cake_id: Some(1),
        }
    );

    assert_eq!(
        fruit::ActiveModel {
            id: Assigned(1),
            name: NotSet,
            cake_id: Assigned(None),
        }
        .try_into_model(),
        Err(DbErr::AttrNotSet(String::from("name")))
    );

    assert_eq!(
        fruit::ActiveModel {
            id: Assigned(1),
            name: Assigned("Pineapple".to_owned()),
            cake_id: NotSet,
        }
        .try_into_model(),
        Err(DbErr::AttrNotSet(String::from("cake_id")))
    );
}

#[test]
fn try_into_model_names_the_first_missing_column() {
    assert_eq!(
        filling::ActiveModel {
            id: NotSet,
            name: NotSet,
            vendor_id: NotSet,
        }
        .try_into_model(),
        Err(DbErr::AttrNotSet(String::from("id")))
    );
    assert_eq!(
        filling::ActiveModel {
            id: Unchanged(3),
            name: Assigned("jam".to_owned()),
            vendor_id: Unchanged(Some(2)),
        }
        .try_into_model(),
        Ok(filling::Model {
            id: 3,
            name: "jam".to_owned(),
            vendor_id: Some(2),
            ignored_attr: 0,
        })
    );
}

#[test]
fn test_active_model_is_changed() {
    let mut fruit: fruit::ActiveModel = Default::default();
    assert!(!fruit.is_changed());

    fruit.set(fruit::Column::Name, "apple".into());
    assert!(fruit.is_changed());
}

#[test]
fn a_record_made_from_a_row_is_not_changed() {
    let mut fruit = fruit::Model {
        id: 1,
        name: "Apple".into(),
        cake_id: None,
    }
    .into_active_model();
    assert!(!fruit.is_changed());
    // an equal value, plainly assigned, still marks the record
    fruit.set(fruit::Column::Name, "Apple".into());
    assert!(fruit.is_changed());
    assert_eq!(fruit.name, Assigned("Apple".to_owned()));
    assert_eq!(fruit.id, Unchanged(1));
}

#[test]
fn test_reset_1() {
    assert_eq!(
        fruit::Model {
            id: 1,
            name: "Apple".into(),
            cake_id: None,
        }
        .into_active_model(),
        fruit::ActiveModel {
            id: Unchanged(1),
            name: Unchanged("Apple".into()),
            cake_id: Unchanged(None)
        },
    );

    assert_eq!(
        fruit::Model {
            id: 1,
            name: "Apple".into(),
            cake_id: None,
        }
        .into_active_model()
        .reset_all(),
        fruit::ActiveModel {
            id: Assigned(1),
            name: Assigned("Apple".into()),
            cake_id: Assigned(None)
        },
    );

    assert_eq!(
        fruit::Model {
            id: 1,
            name: "Apple".into(),
            cake_id: Some(2),
        }
        .into_active_model(),
        fruit::ActiveModel {
            id: Unchanged(1),
            name: Unchanged("Apple".into()),
            cake_id: Unchanged(Some(2)),
        },
    );

    assert_eq!(
        fruit::Model {
            id: 1,
            name: "Apple".into(),
            cake_id: Some(2),
        }
        .into_active_model()
        .reset_all(),
        fruit::ActiveModel {
            id: Assigned(1),
            name: Assigned("Apple".into()),
            cake_id: Assigned(Some(2)),
        },
    );
}

#[test]
fn reset_all_of_a_record_without_values_changes_nothing() {
    let empty: fruit::ActiveModel = Default::default();
    assert_eq!(empty.clone().reset_all(), empty);
    let mixed = fruit::ActiveModel {
        id: Unchanged(1),
        name: Assigned("a".to_owned()),
        cake_id: NotSet,
    };
    assert_eq!(
        mixed.reset_all(),
        fruit::ActiveModel {
            id: Assigned(1),
            name: Assigned("a".to_owned()),
            cake_id: NotSet,
        }
    );
}

#[test]
fn test_active_model_default_values() {
    assert_eq!(
        fruit::ActiveModel::default_values(),
        fruit::ActiveModel {
            id: Assigned(0),
            name: Assigned("".into()),
            cake_id: Assigned(None),
        },
    );
    assert_eq!(
        <fruit::ActiveModel as ActiveModelTrait>::default(),
        fruit::ActiveModel {
            id: NotSet,
            name: NotSet,
            cake_id: NotSet,
        },
    );
    assert_eq!(
        <cake::ActiveModel as ActiveModelBehavior>::new(),
        cake::ActiveModel {
            id: NotSet,
            name: NotSet,
        },
    );
}

#[test]
fn slots_are_addressed_by_column() {
    let mut am = fruit::ActiveModel {
        id: Unchanged(1),
        name: Assigned("a".to_owned()),
        cake_id: NotSet,
    };
    assert_eq!(am.get(fruit::Column::Id), Unchanged(Value::Int(Some(1))));
    assert_eq!(
        am.get(fruit::Column::Name),
        Assigned(Value::String(Some("a".to_owned())))
    );
    assert_eq!(am.get(fruit::Column::CakeId), NotSet);
    assert!(am.is_not_set(fruit::Column::CakeId));
    assert_eq!(am.take(fruit::Column::Name), Assigned(Value::from("a")));
    assert_eq!(am.name, NotSet);
    assert_eq!(am.take(fruit::Column::Name), NotSet);
    am.set(fruit::Column::CakeId, Value::Int(None));
    assert_eq!(am.cake_id, Assigned(None));
    am.reset(fruit::Column::Id);
    assert_eq!(am.id, Assigned(1));
    am.not_set(fruit::Column::Id);
    assert_eq!(am.id, NotSet);
}

#[test]
fn primary_key_of_one_column() {
    let am = fruit::ActiveModel {
        id: Assigned(7),
        name: NotSet,
        cake_id: NotSet,
    };
    assert_eq!(
        am.get_primary_key_value(),
        Some(ValueTuple::One(Value::Int(Some(7))))
    );
    let none: fruit::ActiveModel = Default::default();
    assert_eq!(none.get_primary_key_value(), None);
}

#[test]
fn primary_key_of_two_columns_is_a_pair_in_declared_order() {
    let am = cake_filling::ActiveModel {
        cake_id: Assigned(1),
        filling_id: Unchanged(2),
    };
    assert_eq!(
        am.get_primary_key_value(),
        Some(ValueTuple::Two(Value::Int(Some(1)), Value::Int(Some(2))))
    );
    let half = cake_filling::ActiveModel {
        cake_id: Assigned(1),
        filling_id: NotSet,
    };
    assert_eq!(half.get_primary_key_value(), None);
    assert_eq!(
        ValueTuple::Two(Value::Int(Some(1)), Value::Int(Some(2))).arity(),
        2
    );
    assert_eq!(
        ValueTuple::Many(vec![Value::Int(Some(1)); 4]).into_values().len(),
        4
    );
    let _: ActiveValue<i32> = NotSet;
}

#[test]
fn primary_key_of_four_columns_is_a_list_in_declared_order() {
    use_seat();
}

fn use_seat() {
    let am = sea_orm::tests_cfg::seat::ActiveModel {
        hall: Assigned(1),
        row_no: Unchanged(2),
        seat_no: Assigned(3),
        day: Assigned(4),
        holder: NotSet,
    };
    assert_eq!(
        am.get_primary_key_value(),
        Some(ValueTuple::Many(vec![
            Value::Int(Some(1)),
            Value::Int(Some(2)),
            Value::Int(Some(3)),
            Value::Int(Some(4))
        ]))
    );
    let missing = sea_orm::tests_cfg::seat::ActiveModel {
        day: NotSet,
        ..am
    };
    assert_eq!(missing.get_primary_key_value(), None);
}
