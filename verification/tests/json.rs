use sea_orm::entity::active_value::ActiveValue::{self, Assigned, NotSet, Unchanged};
use sea_orm::entity::json::{
    from_json, key_presence, mask_by_presence, set_from_json, take_primary_key, JsonObject,
};
use sea_orm::tests_cfg::{cake, fruit};
use sea_orm::{DbErr, IntoActiveModel, Value};

fn object(text: &str) -> Result<serde_json::Map<String, serde_json::Value>, String> {
    match serde_json::from_str::<serde_json::Value>(text) {
        Ok(serde_json::Value::Object(m)) => Ok(m),
        Ok(_) => Err("invalid type: expected a map".to_owned()),
        Err(e) => Err(e.to_string()),
    }
}

fn int_field(m: &serde_json::Map<String, serde_json::Value>, key: &str) -> Result<i32, String> {
    match m.get(key) {
        None => Err(format!("missing field `{key}`")),
        Some(v) => match v.as_i64() {
            Some(n) => Ok(n as i32),
            None => Err(format!("invalid type for `{key}`, expected i32")),
        },
    }
}

fn text_field(m: &serde_json::Map<String, serde_json::Value>, key: &str) -> Result<String, String> {
    match m.get(key) {
        None => Err(format!("missing field `{key}`")),
        Some(v) => match v.as_str() {
            Some(s) => Ok(s.to_owned()),
            None => Err(format!("invalid type for `{key}`, expected a string")),
        },
    }
}

fn optional_int_field(
    m: &serde_json::Map<String, serde_json::Value>,
    key: &str,
) -> Result<Option<i32>, String> {
    match m.get(key) {
        None => Ok(None),
        Some(v) if v.is_null() => Ok(None),
        Some(v) => match v.as_i64() {
            Some(n) => Ok(Some(n as i32)),
            None => Err(format!("invalid type for `{key}`, expected i32")),
        },
    }
}

fn cake_to_json(m: &cake::Model) -> Option<String> {
    let mut o = serde_json::Map::new();
    o.insert("id".to_owned(), serde_json::Value::from(m.id));
    o.insert("name".to_owned(), serde_json::Value::from(m.name.clone()));
    serde_json::to_string(&serde_json::Value::Object(o)).ok()
}

fn cake_of_json(text: &str) -> Result<cake::Model, String> {
    let m = object(text)?;
    Ok(cake::Model {
        id: int_field(&m, "id")?,
        name: text_field(&m, "name")?,
    })
}

fn fruit_to_json(m: &fruit::Model) -> Option<String> {
    let mut o = serde_json::Map::new();
    o.insert("id".to_owned(), serde_json::Value::from(m.id));
    o.insert("name".to_owned(), serde_json::Value::from(m.name.clone()));
    o.insert("cake_id".to_owned(), serde_json::Value::from(m.cake_id));
    serde_json::to_string(&serde_json::Value::Object(o)).ok()
}

/// The key of a fruit is never read from JSON.
fn fruit_of_json(text: &str) -> Result<fruit::Model, String> {
    let m = object(text)?;
    Ok(fruit::Model {
        id: 0,
        name: text_field(&m, "name")?,
        cake_id: optional_int_field(&m, "cake_id")?,
    })
}

fn cake_from(text: &str) -> Result<cake::ActiveModel, DbErr> {
    from_json::<cake::ActiveModel, cake::Model, _, _>(text, cake_to_json, cake_of_json)
}

fn fruit_from(text: &str) -> Result<fruit::ActiveModel, DbErr> {
    from_json::<fruit::ActiveModel, fruit::Model, _, _>(text, fruit_to_json, fruit_of_json)
}

fn set_fruit(fruit: &mut fruit::ActiveModel, text: &str) -> Result<(), DbErr> {
    set_from_json::<fruit::ActiveModel, fruit::Model, _, _>(
        fruit,
        text,
        fruit_to_json,
        fruit_of_json,
    )
}

#[test]
fn test_active_model_set_from_json_1() {
    assert_eq!(
        cake_from(r#"{"id": 1, "name": "Apple Pie"}"#).unwrap(),
        cake::ActiveModel {
            id: Assigned(1),
            name: Assigned("Apple Pie".to_owned()),
        }
    );

    assert_eq!(
        cake_from(r#"{"id": 1}"#).unwrap(),
        cake::ActiveModel {
            id: Assigned(1),
            name: NotSet,
        }
    );

    assert_eq!(
        cake_from(r#"{"name": "Apple Pie"}"#).unwrap(),
        cake::ActiveModel {
            id: NotSet,
            name: Assigned("Apple Pie".to_owned()),
        }
    );

    let mut cake: cake::ActiveModel = Default::default();
    set_from_json::<cake::ActiveModel, cake::Model, _, _>(
        &mut cake,
        r#"{"name": "Apple Pie"}"#,
        cake_to_json,
        cake_of_json,
    )
    .unwrap();
    assert_eq!(
        cake,
        cake::ActiveModel {
            id: NotSet,
            name: Assigned("Apple Pie".to_owned()),
        }
    );
}

#[test]
fn test_active_model_set_from_json_2() -> Result<(), DbErr> {
    let mut fruit: fruit::ActiveModel = Default::default();

    set_fruit(&mut fruit, r#"{"name": "Apple"}"#)?;
    assert_eq!(
        fruit,
        fruit::ActiveModel {
            id: ActiveValue::NotSet,
            name: ActiveValue::Assigned("Apple".to_owned()),
            cake_id: ActiveValue::NotSet,
        }
    );

    assert_eq!(
        fruit_from(r#"{"name": "Apple"}"#)?,
        fruit::ActiveModel {
            id: ActiveValue::NotSet,
            name: ActiveValue::Assigned("Apple".to_owned()),
            cake_id: ActiveValue::NotSet,
        }
    );

    set_fruit(&mut fruit, r#"{"name": "Apple", "cake_id": null}"#)?;
    assert_eq!(
        fruit,
        fruit::ActiveModel {
            id: ActiveValue::NotSet,
            name: ActiveValue::Assigned("Apple".to_owned()),
            cake_id: ActiveValue::Assigned(None),
        }
    );

    set_fruit(&mut fruit, r#"{"id": null, "name": "Apple", "cake_id": 1}"#)?;
    assert_eq!(
        fruit,
        fruit::ActiveModel {
            id: ActiveValue::NotSet,
            name: ActiveValue::Assigned("Apple".to_owned()),
            cake_id: ActiveValue::Assigned(Some(1)),
        }
    );

    set_fruit(&mut fruit, r#"{"id": 2, "name": "Apple", "cake_id": 1}"#)?;
    assert_eq!(
        fruit,
        fruit::ActiveModel {
            id: ActiveValue::NotSet,
            name: ActiveValue::Assigned("Apple".to_owned()),
            cake_id: ActiveValue::Assigned(Some(1)),
        }
    );

    let mut fruit = fruit::ActiveModel {
        id: ActiveValue::Assigned(1),
        name: ActiveValue::NotSet,
        cake_id: ActiveValue::NotSet,
    };
    set_fruit(&mut fruit, r#"{"id": 8, "name": "Apple", "cake_id": 1}"#)?;
    assert_eq!(
        fruit,
        fruit::ActiveModel {
            id: ActiveValue::Assigned(1),
            name: ActiveValue::Assigned("Apple".to_owned()),
            cake_id: ActiveValue::Assigned(Some(1)),
        }
    );

    Ok(())
}

#[test]
fn a_text_that_is_no_object_is_a_json_error() {
    assert!(matches!(cake_from("[1, 2]"), Err(DbErr::Json(_))));
    assert!(matches!(cake_from("1"), Err(DbErr::Json(_))));
    assert!(matches!(cake_from("{"), Err(DbErr::Json(_))));
    assert_eq!(
        cake_from("null"),
        Err(DbErr::Json(
            "invalid type: expected JSON object for cake".to_owned()
        ))
    );
    // a member of the wrong type is the deserialiser's error
    assert!(matches!(
        cake_from(r#"{"id": "one"}"#),
        Err(DbErr::Json(_))
    ));
}

#[test]
fn a_failed_set_from_json_leaves_the_record_as_it_was() {
    let mut fruit = fruit::ActiveModel {
        id: Unchanged(1),
        name: Assigned("a".to_owned()),
        cake_id: NotSet,
    };
    assert!(set_fruit(&mut fruit, "[]").is_err());
    assert_eq!(
        fruit,
        fruit::ActiveModel {
            id: Unchanged(1),
            name: Assigned("a".to_owned()),
            cake_id: NotSet,
        }
    );
    let mut fruit = fruit::ActiveModel {
        id: Assigned(1),
        name: NotSet,
        cake_id: NotSet,
    };
    assert_eq!(
        set_fruit(&mut fruit, "[1]"),
        Err(DbErr::Json(
            "invalid type: expected JSON object for fruit".to_owned()
        ))
    );
    assert_eq!(
        fruit,
        fruit::ActiveModel {
            id: Assigned(1),
            name: NotSet,
            cake_id: NotSet,
        }
    );
    // an object that yields no record fails too, and changes nothing
    assert!(matches!(
        set_fruit(&mut fruit, r#"{"name": 3}"#),
        Err(DbErr::Json(_))
    ));
    assert_eq!(
        fruit,
        fruit::ActiveModel {
            id: Assigned(1),
            name: NotSet,
            cake_id: NotSet,
        }
    );
}

#[test]
fn an_unchanged_key_comes_back_assigned() {
    let mut fruit = fruit::ActiveModel {
        id: Unchanged(1),
        name: NotSet,
        cake_id: NotSet,
    };
    set_fruit(&mut fruit, r#"{"name": "b"}"#).unwrap();
    assert_eq!(
        fruit,
        fruit::ActiveModel {
            id: Assigned(1),
            name: Assigned("b".to_owned()),
            cake_id: NotSet,
        }
    );
}

#[test]
fn the_primary_key_is_moved_out_in_declaration_order() {
    let mut fruit = fruit::Model {
        id: 1,
        name: "a".to_owned(),
        cake_id: None,
    }
    .into_active_model();
    assert_eq!(
        take_primary_key(&mut fruit),
        vec![(fruit::Column::Id, Unchanged(Value::Int(Some(1))))]
    );
    assert_eq!(fruit.id, NotSet);
    assert_eq!(fruit.name, Unchanged("a".to_owned()));
}

#[test]
fn a_record_is_masked_by_the_keys_of_an_object() {
    assert!(JsonObject::parse("[]").is_none());
    assert!(JsonObject::parse("{} x").is_none());
    let obj = JsonObject::parse(r#"{"name": 1, "other": null}"#).unwrap();
    assert!(obj.contains_key("name"));
    assert!(obj.contains_key("other"));
    assert!(!obj.contains_key("id"));
    let presence = key_presence::<fruit::Column>(&obj);
    assert_eq!(
        presence,
        vec![
            (fruit::Column::Id, false),
            (fruit::Column::Name, true),
            (fruit::Column::CakeId, false)
        ]
    );
    let am = fruit::ActiveModel {
        id: Unchanged(1),
        name: Unchanged("a".to_owned()),
        cake_id: Assigned(None),
    };
    assert_eq!(
        mask_by_presence(am, &presence),
        fruit::ActiveModel {
            id: NotSet,
            name: Assigned("a".to_owned()),
            cake_id: NotSet,
        }
    );
    let empty: fruit::ActiveModel = Default::default();
    assert_eq!(mask_by_presence(empty.clone(), &presence), empty);
}
