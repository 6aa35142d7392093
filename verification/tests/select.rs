use sea_orm::query::{delete_by_id, delete_many, find, find_by_id};
use sea_orm::tests_cfg::{cake, cake_filling, filling, fruit};
use sea_orm::{
    ColumnTrait, ColumnType, DbBackend, DbErr, EntityName, FromQueryResult, IdenStatic, Iterable,
    ModelTrait, PrimaryKeyToColumn, PrimaryKeyTrait, QueryResult, RuntimeErr, Select,
    SelectGetableTuple, SelectGetableValue, SelectModel, SelectThreeModel, SelectTwoModel,
    SelectStatement, SelectTwoMany, Selector, SelectorRaw, SelectorTrait, Statement, StringLen,
    TableRef, TryGetError, TryGetable, TryGetableMany, Value, ValueTuple,
};

fn row(cols: Vec<(&str, Value)>) -> QueryResult {
    QueryResult::new(cols.into_iter().map(|(n, v)| (n.to_owned(), v)).collect())
}

#[test]
fn entity_model_1() {
    assert_eq!(filling::Entity.table_name(), "filling");
    assert_eq!(filling::Entity.schema_name(), None);
    assert_eq!(filling::Entity.comment(), None);
    assert_eq!(filling::Entity.as_str(), "filling");
    assert_eq!(
        filling::Entity.table_ref(),
        TableRef::Table("filling".to_owned())
    );
}

#[test]
fn the_columns_of_an_entity_come_in_declaration_order() {
    assert_eq!(
        filling::Column::iter(),
        vec![
            filling::Column::Id,
            filling::Column::Name,
            filling::Column::VendorId
        ]
    );
    assert_eq!(filling::Column::VendorId.as_str(), "vendor_id");
    assert_eq!(
        filling::Column::Name.def().get_column_type(),
        ColumnType::String(StringLen::Unbounded)
    );
    assert!(!filling::Column::Id.def().is_null());
    assert!(filling::Column::VendorId.def().is_null());
    assert_eq!(
        filling::Column::Id.def().unique().indexed().null(),
        ColumnType::Integer.def().nullable().indexed().unique()
    );
    assert_eq!(filling::PrimaryKey::iter(), vec![filling::PrimaryKey::Id]);
    assert!(filling::PrimaryKey::auto_increment());
    assert!(!cake_filling::PrimaryKey::auto_increment());
    assert_eq!(filling::PrimaryKey::Id.into_column(), filling::Column::Id);
    assert_eq!(
        filling::PrimaryKey::from_column(filling::Column::Id),
        Some(filling::PrimaryKey::Id)
    );
    assert_eq!(
        filling::PrimaryKey::from_column(filling::Column::Name),
        None
    );
    assert_eq!(
        cake_filling::PrimaryKey::iter(),
        vec![
            cake_filling::PrimaryKey::CakeId,
            cake_filling::PrimaryKey::FillingId
        ]
    );
}

#[test]
fn a_record_gives_the_value_of_each_column() {
    let m = filling::Model {
        id: 3,
        name: "jam".to_owned(),
        vendor_id: None,
        ignored_attr: 9,
    };
    assert_eq!(m.get(filling::Column::Id), Value::Int(Some(3)));
    assert_eq!(m.get(filling::Column::Name), Value::from("jam"));
    assert_eq!(m.get(filling::Column::VendorId), Value::Int(None));
}

#[test]
fn typed_values_are_read_from_a_row() {
    let r = row(vec![
        ("id", Value::Int(Some(1))),
        ("name", Value::from("a")),
        ("cake_id", Value::Int(None)),
        ("big", Value::BigInt(Some(5))),
        ("ok", Value::Bool(Some(true))),
    ]);
    assert_eq!(i32::try_get_by(&r, "id"), Ok(1));
    assert_eq!(i32::try_get(&r, "", "id"), Ok(1));
    assert_eq!(i32::try_get_by_index(&r, 0), Ok(1));
    assert_eq!(String::try_get_by(&r, "name"), Ok("a".to_owned()));
    assert_eq!(Option::<i32>::try_get_by(&r, "cake_id"), Ok(None));
    assert_eq!(Option::<i32>::try_get_by(&r, "id"), Ok(Some(1)));
    assert_eq!(i64::try_get_by(&r, "big"), Ok(5));
    assert_eq!(bool::try_get_by_index(&r, 4), Ok(true));
    assert_eq!(
        i32::try_get_by(&r, "cake_id"),
        Err(TryGetError::Null("cake_id".into()))
    );
    assert_eq!(
        i32::try_get_by(&r, "name"),
        Err(TryGetError::DbErr(DbErr::Type("name".into())))
    );
    assert_eq!(
        i32::try_get_by(&r, "nope"),
        Err(TryGetError::DbErr(DbErr::Query(RuntimeErr::Internal(
            "nope".into()
        ))))
    );
    assert!(matches!(
        i32::try_get_by_index(&r, 9),
        Err(TryGetError::DbErr(DbErr::Query(_)))
    ));
    assert_eq!(
        TryGetError::Null("x".into()).into_db_err(),
        DbErr::Type("x".into())
    );
}

#[test]
fn records_are_read_from_rows_by_prefix() {
    let r = row(vec![
        ("A_id", Value::Int(Some(1))),
        ("A_name", Value::from("apple cake")),
        ("B_id", Value::Int(Some(2))),
        ("B_name", Value::from("orange")),
        ("B_cake_id", Value::Int(Some(1))),
        ("C_id", Value::Int(None)),
        ("C_name", Value::String(None)),
        ("C_vendor_id", Value::Int(None)),
    ]);
    assert_eq!(
        cake::Model::from_query_result(&r, "A_"),
        Ok(cake::Model {
            id: 1,
            name: "apple cake".to_owned()
        })
    );
    assert_eq!(
        SelectTwoModel::<cake::Model, fruit::Model>::from_raw_query_result(r.clone()),
        Ok((
            cake::Model {
                id: 1,
                name: "apple cake".to_owned()
            },
            Some(fruit::Model {
                id: 2,
                name: "orange".to_owned(),
                cake_id: Some(1)
            })
        ))
    );
    // a joined record whose columns are all NULL is no record
    assert_eq!(
        SelectThreeModel::<cake::Model, fruit::Model, filling::Model>::from_raw_query_result(
            r.clone()
        )
        .map(|(_, _, c)| c),
        Ok(None)
    );
    assert!(matches!(
        SelectModel::<cake::Model>::from_raw_query_result(r.clone()),
        Err(DbErr::Query(_))
    ));
    assert_eq!(
        filling::Model::from_query_result(&r, "C_"),
        Err(DbErr::Type("C_id".into()))
    );
    assert_eq!(
        SelectGetableTuple::<(i32, String)>::from_raw_query_result(r.clone()),
        Ok((1, "apple cake".to_owned()))
    );
    assert_eq!(
        SelectGetableTuple::<i32>::from_raw_query_result(r),
        Ok(1)
    );
    let plain = row(vec![("id", Value::Int(Some(4))), ("name", Value::from("x"))]);
    assert_eq!(
        SelectGetableValue::<(i32, String), cake::Column>::from_raw_query_result(plain.clone()),
        Ok((4, "x".to_owned()))
    );
    assert!(matches!(
        SelectGetableValue::<i32, cake::Column>::from_raw_query_result(plain),
        Err(DbErr::Type(_))
    ));
}

#[test]
fn a_raw_selector_reads_the_rows_of_its_statement() {
    let stmt = Statement::from_sql_and_values(
        DbBackend::Postgres,
        r#"SELECT "cake"."id", "cake"."name" FROM "cake" WHERE "id" = $1"#,
        vec![1.into()],
    );
    let raw: SelectorRaw<SelectModel<cake::Model>> =
        Select::<cake::Entity>::new().from_raw_sql(stmt.clone());
    assert_eq!(raw.stmt, stmt);
    let raw = raw.into_model::<fruit::Model>();
    let raw = raw.into_json();
    assert_eq!(raw.into_statement(), stmt.clone());
    let again = SelectorRaw::<SelectModel<cake::Model>>::from_statement::<cake::Model>(stmt.clone());
    assert_eq!(again.into_statement(), stmt);

    let good = row(vec![("id", Value::Int(Some(1))), ("name", Value::from("Cake"))]);
    let bad = row(vec![("id", Value::Int(Some(2)))]);
    let cake1 = cake::Model {
        id: 1,
        name: "Cake".to_owned(),
    };
    type Cakes = SelectorRaw<SelectModel<cake::Model>>;
    assert_eq!(Cakes::one(None), Ok(None));
    assert_eq!(Cakes::one(Some(good.clone())), Ok(Some(cake1.clone())));
    assert!(Cakes::one(Some(bad.clone())).is_err());
    assert_eq!(
        Cakes::all(vec![good.clone(), good.clone()]),
        Ok(vec![cake1.clone(), cake1.clone()])
    );
    assert_eq!(Cakes::all(vec![]), Ok(vec![]));
    assert_eq!(
        Cakes::all(vec![good.clone(), bad, good.clone()]),
        Err(DbErr::Query(RuntimeErr::Internal("name".into())))
    );
    assert_eq!(Cakes::stream_item(Ok(good)), Ok(cake1));
    assert_eq!(
        Cakes::stream_item(Err(DbErr::Custom("x".into()))),
        Err(DbErr::Custom("x".into()))
    );
    let joined = row(vec![("A_id", Value::Int(Some(1))), ("B_id", Value::Int(Some(2)))]);
    assert_eq!(
        QueryResult::from_query_result(&joined, "A_"),
        Ok(row(vec![("id", Value::Int(Some(1)))]))
    );
}

#[test]
fn test_find_by_id() {
    let all = find::<cake::Entity>();
    assert_eq!(
        all.query,
        SelectStatement {
            table: "cake".to_owned(),
            joins: vec![],
            conditions: vec![],
            limit: None
        }
    );
    assert_eq!(
        find_by_id::<cake::Entity>(ValueTuple::One(1.into())).query.conditions,
        vec![("id".to_owned(), Value::Int(Some(1)))]
    );
    assert_eq!(
        find_by_id::<cake_filling::Entity>(ValueTuple::Two(2.into(), 3.into()))
            .query
            .conditions,
        vec![
            ("cake_id".to_owned(), Value::Int(Some(2))),
            ("filling_id".to_owned(), Value::Int(Some(3)))
        ]
    );
    assert_eq!(
        find::<cake::Entity>()
            .filter(cake::Column::Name, "x".into())
            .query
            .conditions,
        vec![("name".to_owned(), Value::from("x"))]
    );
}

#[test]
fn test_delete_by_id_1() {
    assert_eq!(delete_many::<cake::Entity>().conditions, vec![]);
    let by_id = delete_by_id::<cake::Entity>(ValueTuple::One(1.into()));
    assert_eq!(by_id.table, "cake");
    assert_eq!(by_id.conditions, vec![("id".to_owned(), Value::Int(Some(1)))]);
}

#[test]
fn test_delete_by_id_2() {
    assert_eq!(
        delete_by_id::<cake_filling::Entity>(ValueTuple::Two(1.into(), 2.into())).conditions,
        vec![
            ("cake_id".to_owned(), Value::Int(Some(1))),
            ("filling_id".to_owned(), Value::Int(Some(2)))
        ]
    );
    // a key with fewer values than the entity has key columns selects by a prefix
    assert_eq!(
        delete_by_id::<cake_filling::Entity>(ValueTuple::Many(vec![1.into()])).conditions,
        vec![("cake_id".to_owned(), Value::Int(Some(1)))]
    );
}

#[test]
fn a_request_keeps_its_statement_whatever_reads_its_rows() {
    let by_id = find_by_id::<cake::Entity>(ValueTuple::One(1.into()));
    let query = by_id.query.clone();
    let one = by_id.into_model::<cake::Model>().one_request();
    assert_eq!(one.limit, Some(1));
    assert_eq!(one.conditions, query.conditions);
    assert_eq!(one.table, "cake");
    assert_eq!(find::<cake::Entity>().into_json().all_request().limit, None);
    assert_eq!(
        find::<cake::Entity>()
            .into_tuple::<(i32, String)>()
            .all_request()
            .table,
        "cake"
    );
    assert_eq!(
        find::<cake::Entity>()
            .into_values::<(i32, String), cake::Column>()
            .all_request()
            .joins,
        Vec::<String>::new()
    );
    let two = find::<cake::Entity>().select_also::<fruit::Entity>();
    assert_eq!(two.query.joins, vec!["fruit".to_owned()]);
    let three = two.select_also::<filling::Entity>();
    assert_eq!(
        three.query.joins,
        vec!["fruit".to_owned(), "filling".to_owned()]
    );
    assert_eq!(
        three
            .into_model::<cake::Model, fruit::Model, filling::Model>()
            .all_request()
            .joins
            .len(),
        2
    );
    let _ = find::<cake::Entity>()
        .select_also::<fruit::Entity>()
        .into_model::<cake::Model, fruit::Model>();
    let _ = find::<cake::Entity>().select_also::<fruit::Entity>().into_json();
}

#[test]
fn with_related_reads_and_consolidates_the_rows() {
    let joined = |cake: i32, fruit: Option<i32>| {
        row(vec![
            ("A_id", Value::Int(Some(cake))),
            ("A_name", Value::from("cake")),
            ("B_id", Value::Int(fruit)),
            (
                "B_name",
                Value::String(fruit.map(|_| "fruit".to_owned())),
            ),
            ("B_cake_id", Value::Int(fruit.map(|_| cake))),
        ])
    };
    let cake_of = |id: i32| cake::Model {
        id,
        name: "cake".to_owned(),
    };
    let fruit_of = |id: i32, cake: i32| fruit::Model {
        id,
        name: "fruit".to_owned(),
        cake_id: Some(cake),
    };
    let with = find::<cake::Entity>().select_with::<fruit::Entity>();
    assert_eq!(with.query.joins, vec!["fruit".to_owned()]);
    let _ = with.into_model::<cake::Model, fruit::Model>();
    let rows = vec![
        joined(1, Some(1)),
        joined(2, None),
        joined(1, Some(2)),
    ];
    assert_eq!(
        SelectTwoMany::<cake::Entity, fruit::Entity>::all::<cake::Model, fruit::Model>(rows),
        Ok(vec![
            (cake_of(1), vec![fruit_of(1, 1), fruit_of(2, 1)]),
            (cake_of(2), vec![])
        ])
    );
    let broken = vec![joined(1, Some(1)), row(vec![("A_id", Value::Int(Some(2)))])];
    assert!(
        SelectTwoMany::<cake::Entity, fruit::Entity>::all::<cake::Model, fruit::Model>(broken)
            .is_err()
    );
    type Cakes = Selector<SelectModel<cake::Model>>;
    let plain = row(vec![("id", Value::Int(Some(1))), ("name", Value::from("cake"))]);
    assert_eq!(Cakes::one(Some(plain.clone())), Ok(Some(cake_of(1))));
    assert_eq!(Cakes::one(None), Ok(None));
    assert_eq!(Cakes::all(vec![plain.clone()]), Ok(vec![cake_of(1)]));
    assert_eq!(Cakes::stream_item(Ok(plain)), Ok(cake_of(1)));
}

#[test]
fn a_pair_is_read_from_the_first_two_columns_or_fails_with_the_first_error() {
    let both = row(vec![("a", Value::Int(Some(1))), ("b", Value::from("x"))]);
    assert_eq!(
        <(i32, String)>::try_get_many_by_index(&both),
        Ok((1, "x".to_owned()))
    );
    assert_eq!(
        <(i32, Option<String>)>::try_get_many_by_index(&row(vec![
            ("a", Value::Int(Some(1))),
            ("b", Value::String(None))
        ])),
        Ok((1, None))
    );
    // the first column decides the error where it cannot be read
    assert_eq!(
        <(i32, i32)>::try_get_many_by_index(&row(vec![
            ("a", Value::Int(None)),
            ("b", Value::from("x"))
        ])),
        Err(TryGetError::Null("a".into()))
    );
    assert_eq!(
        <(i32, i32)>::try_get_many_by_index(&both),
        Err(TryGetError::DbErr(DbErr::Type("b".into())))
    );
    assert_eq!(
        <(i32, i32)>::try_get_many_by_index(&row(vec![("a", Value::Int(Some(1)))])),
        Err(TryGetError::DbErr(DbErr::Query(RuntimeErr::Internal(
            "".into()
        ))))
    );
}

#[test]
fn a_list_of_names_of_the_wrong_length_says_how_many_were_expected() {
    let plain = row(vec![("id", Value::Int(Some(4))), ("name", Value::from("x"))]);
    assert_eq!(
        SelectGetableValue::<i32, cake::Column>::from_raw_query_result(plain.clone()),
        Err(DbErr::Type(
            "Expect 1 column names supplied but got slice of length 2".to_owned()
        ))
    );
    assert_eq!(
        <(i32, String)>::try_get_many(&plain, "", &vec!["id".to_owned()]),
        Err(TryGetError::DbErr(DbErr::Type(
            "Expect 2 column names supplied but got slice of length 1".to_owned()
        )))
    );
    assert_eq!(
        i32::try_get_many(&plain, "", &vec![]),
        Err(TryGetError::DbErr(DbErr::Type(
            "Expect 1 column names supplied but got slice of length 0".to_owned()
        )))
    );
}

#[test]
fn a_pair_is_read_by_name_or_fails_with_the_first_error() {
    let r = row(vec![
        ("A_id", Value::Int(Some(4))),
        ("A_name", Value::from("x")),
        ("A_none", Value::Int(None)),
    ]);
    let names = |a: &str, b: &str| vec![a.to_owned(), b.to_owned()];
    assert_eq!(
        <(i32, String)>::try_get_many(&r, "A_", &names("id", "name")),
        Ok((4, "x".to_owned()))
    );
    assert_eq!(
        <(String, i32)>::try_get_many(&r, "A_", &names("name", "id")),
        Ok(("x".to_owned(), 4))
    );
    // both columns fail: the error is that of the first
    assert_eq!(
        <(i32, i32)>::try_get_many(&r, "A_", &names("none", "name")),
        Err(TryGetError::Null("A_none".into()))
    );
    assert_eq!(
        <(i32, i32)>::try_get_many(&r, "A_", &names("id", "name")),
        Err(TryGetError::DbErr(DbErr::Type("A_name".into())))
    );
    assert_eq!(
        <(i32, i32)>::try_get_many(&r, "A_", &names("id", "gone")),
        Err(TryGetError::DbErr(DbErr::Query(RuntimeErr::Internal(
            "A_gone".into()
        ))))
    );
}

#[test]
fn a_record_that_cannot_be_read_fails_with_the_error_of_its_first_such_column() {
    // the name is of another family and the cake is missing: the name decides
    let r = row(vec![("id", Value::Int(Some(1))), ("name", Value::Int(Some(2)))]);
    assert_eq!(
        fruit::Model::from_query_result(&r, ""),
        Err(DbErr::Type("name".into()))
    );
    let r = row(vec![("id", Value::Int(Some(1))), ("name", Value::from("x"))]);
    assert_eq!(
        fruit::Model::from_query_result(&r, ""),
        Err(DbErr::Query(RuntimeErr::Internal("cake_id".into())))
    );
    let r = row(vec![("name", Value::String(None))]);
    assert_eq!(
        fruit::Model::from_query_result(&r, ""),
        Err(DbErr::Query(RuntimeErr::Internal("id".into())))
    );
    assert_eq!(
        cake::Model::from_query_result(&row(vec![("id", Value::Int(None))]), ""),
        Err(DbErr::Type("id".into()))
    );
    // pairs and triples: the error of the first reader that fails
    let r = row(vec![
        ("A_id", Value::Int(Some(1))),
        ("A_name", Value::Int(Some(2))),
        ("B_id", Value::from("x")),
    ]);
    assert_eq!(
        SelectTwoModel::<cake::Model, fruit::Model>::from_raw_query_result(r.clone()),
        Err(DbErr::Type("A_name".into()))
    );
    assert_eq!(
        SelectThreeModel::<cake::Model, fruit::Model, filling::Model>::from_raw_query_result(r),
        Err(DbErr::Type("A_name".into()))
    );
}
