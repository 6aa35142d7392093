use proc_macro2::TokenStream;
use sea_orm::codegen::relation::{
    decimal_text, escape_rust_keyword, join, path_keyword, punctuate, raw_keyword,
    ForeignKeyAction, Relation, RelationType,
};

fn setup() -> Vec<Relation> {
    vec![
        Relation {
            ref_table: "fruit".to_owned(),
            columns: vec!["id".to_owned()],
            ref_columns: vec!["cake_id".to_owned()],
            rel_type: RelationType::HasOne,
            on_delete: None,
            on_update: None,
            self_referencing: false,
            num_suffix: 0,
            impl_related: true,
        },
        Relation {
            ref_table: "filling".to_owned(),
            columns: vec!["filling_id".to_owned()],
            ref_columns: vec!["id".to_owned()],
            rel_type: RelationType::BelongsTo,
            on_delete: Some(ForeignKeyAction::Cascade),
            on_update: Some(ForeignKeyAction::Cascade),
            self_referencing: false,
            num_suffix: 0,
            impl_related: true,
        },
        Relation {
            ref_table: "filling".to_owned(),
            columns: vec!["filling_id".to_owned()],
            ref_columns: vec!["id".to_owned()],
            rel_type: RelationType::HasMany,
            on_delete: Some(ForeignKeyAction::Cascade),
            on_update: None,
            self_referencing: false,
            num_suffix: 0,
            impl_related: true,
        },
    ]
}

#[test]
fn test_get_module_name() {
    let relations = setup();
    let snake_cases = vec!["fruit", "filling", "filling"];
    for (rel, snake_case) in relations.into_iter().zip(snake_cases) {
        assert_eq!(rel.get_module_name().unwrap().to_string(), snake_case);
    }
}

#[test]
fn test_get_enum_name() {
    let relations = setup();
    let camel_cases = vec!["Fruit", "Filling", "Filling"];
    for (rel, camel_case) in relations.into_iter().zip(camel_cases) {
        assert_eq!(rel.get_enum_name().to_string(), camel_case);
    }
}

#[test]
fn test_get_def() {
    let relations = setup();
    let rel_defs = vec![
        "Entity::has_one(super::fruit::Entity).into()",
        "Entity::belongs_to(super::filling::Entity) \
                .from(Column::FillingId) \
                .to(super::filling::Column::Id) \
                .into()",
        "Entity::has_many(super::filling::Entity).into()",
    ];
    for (rel, rel_def) in relations.into_iter().zip(rel_defs) {
        let rel_def: TokenStream = rel_def.parse().unwrap();
        let got: TokenStream = rel.get_def().parse().unwrap();

        assert_eq!(got.to_string(), rel_def.to_string());
    }
}

#[test]
fn test_get_rel_type() {
    let relations = setup();
    let rel_types = vec!["has_one", "belongs_to", "has_many"];
    for (rel, rel_type) in relations.into_iter().zip(rel_types) {
        assert_eq!(rel.get_rel_type(), rel_type);
    }
}

#[test]
fn test_get_column_camel_case() {
    let relations = setup();
    let cols = vec!["Id", "FillingId", "FillingId"];
    for (rel, col) in relations.into_iter().zip(cols) {
        assert_eq!(rel.get_column_camel_case(), [col]);
    }
}

#[test]
fn test_get_ref_column_camel_case() {
    let relations = setup();
    let ref_cols = vec!["CakeId", "Id", "Id"];
    for (rel, ref_col) in relations.into_iter().zip(ref_cols) {
        assert_eq!(rel.get_ref_column_camel_case(), [ref_col]);
    }
}

#[test]
fn the_attribute_of_each_kind_of_relation() {
    let relations = setup();
    assert_eq!(
        relations[0].get_attrs(),
        r#"#[sea_orm(has_one = "super::fruit::Entity")]"#
    );
    assert_eq!(
        relations[1].get_attrs(),
        r#"#[sea_orm(belongs_to = "super::filling::Entity", from = "Column::FillingId", to = "super::filling::Column::Id", on_update = "Cascade", on_delete = "Cascade", )]"#
    );
    assert_eq!(
        relations[2].get_attrs(),
        r#"#[sea_orm(has_many = "super::filling::Entity")]"#
    );
    let got: TokenStream = relations[1].get_attrs().parse().unwrap();
    let want: TokenStream = r#"#[sea_orm(
        belongs_to = "super::filling::Entity",
        from = "Column::FillingId",
        to = "super::filling::Column::Id",
        on_update = "Cascade",
        on_delete = "Cascade",
    )]"#
    .parse()
    .unwrap();
    assert_eq!(got.to_string(), want.to_string());
}

#[test]
fn a_relation_of_a_table_to_itself_over_two_columns() {
    let rel = Relation {
        ref_table: "cake_filling".to_owned(),
        columns: vec!["cake_id".to_owned(), "filling_id".to_owned()],
        ref_columns: vec!["parent_cake".to_owned(), "parent_filling".to_owned()],
        rel_type: RelationType::BelongsTo,
        on_delete: Some(ForeignKeyAction::SetNull),
        on_update: None,
        self_referencing: true,
        num_suffix: 12,
        impl_related: false,
    };
    assert_eq!(rel.get_enum_name(), "SelfRef12");
    assert_eq!(rel.get_module_name(), None);
    assert_eq!(
        rel.get_def(),
        "Entity::belongs_to(Entity).from((Column::CakeId, Column::FillingId)).to((Column::ParentCake, Column::ParentFilling)).into()"
    );
    assert_eq!(
        rel.get_attrs(),
        r#"#[sea_orm(belongs_to = "Entity", from = "(Column::CakeId, Column::FillingId)", to = "(Column::ParentCake, Column::ParentFilling)", on_delete = "SetNull", )]"#
    );
    assert_eq!(
        rel.get_src_ref_columns(),
        (
            "(Column::CakeId, Column::FillingId)".to_owned(),
            "(Column::ParentCake, Column::ParentFilling)".to_owned()
        )
    );
    let other = Relation {
        self_referencing: false,
        num_suffix: 3,
        ..rel
    };
    assert_eq!(other.get_enum_name(), "CakeFilling3");
    assert_eq!(other.get_module_name(), Some("cake_filling".to_owned()));
}

#[test]
fn a_relation_from_a_foreign_key_belongs_to_the_referred_table() {
    let rel = Relation::from_foreign_key(
        "vendor".to_owned(),
        vec!["vendor_id".to_owned()],
        vec!["id".to_owned()],
        Some(ForeignKeyAction::Restrict),
        None,
    );
    assert_eq!(rel.rel_type, RelationType::BelongsTo);
    assert_eq!(rel.on_delete, Some(ForeignKeyAction::Restrict));
    assert_eq!(rel.on_update, None);
    assert!(!rel.self_referencing);
    assert_eq!(rel.num_suffix, 0);
    assert!(rel.impl_related);
    assert_eq!(
        Relation::get_foreign_key_action(&ForeignKeyAction::NoAction),
        "NoAction"
    );
    assert_eq!(ForeignKeyAction::SetDefault.variant_name(), "SetDefault");
}

#[test]
fn texts_of_numbers_and_lists() {
    assert_eq!(decimal_text(0), "0");
    assert_eq!(decimal_text(7), "7");
    assert_eq!(decimal_text(10), "10");
    assert_eq!(decimal_text(4096), "4096");
    assert_eq!(join(&vec![], ", "), "");
    assert_eq!(join(&vec!["a".to_owned()], ", "), "a");
    assert_eq!(join(&vec!["a".to_owned(), "b".to_owned()], "-"), "a-b");
    assert_eq!(punctuate(&vec![]), "");
    assert_eq!(punctuate(&vec!["a".to_owned()]), "a");
    assert_eq!(punctuate(&vec!["a".to_owned(), "b".to_owned()]), "(a, b)");
}

#[test]
fn names_are_cased_for_modules_and_variants() {
    let rel = Relation::from_foreign_key(
        "CakeFilling".to_owned(),
        vec!["cakeId".to_owned()],
        vec!["ID".to_owned()],
        None,
        None,
    );
    assert_eq!(rel.get_module_name(), Some("cake_filling".to_owned()));
    assert_eq!(rel.get_enum_name(), "CakeFilling");
    assert_eq!(rel.get_column_camel_case(), ["CakeId"]);
    assert_eq!(rel.get_ref_column_camel_case(), ["Id"]);
    assert_eq!(
        rel.get_def(),
        "Entity::belongs_to(super::cake_filling::Entity).from(Column::CakeId).to(super::cake_filling::Column::Id).into()"
    );
}

#[test]
fn a_keyword_is_escaped_and_any_other_name_is_kept() {
    assert_eq!(escape_rust_keyword("type"), "r#type");
    assert_eq!(escape_rust_keyword("as"), "r#as");
    assert_eq!(escape_rust_keyword("yield"), "r#yield");
    assert_eq!(escape_rust_keyword("self"), "self_");
    assert_eq!(escape_rust_keyword("Self"), "Self_");
    assert_eq!(escape_rust_keyword("crate"), "crate_");
    assert_eq!(escape_rust_keyword("cake"), "cake");
    assert_eq!(escape_rust_keyword("Type"), "Type");
    assert_eq!(escape_rust_keyword(""), "");
    assert!(raw_keyword("match"));
    assert!(!raw_keyword("self"));
    assert!(path_keyword("self"));
    assert!(!path_keyword("match"));
}

#[test]
fn a_table_named_like_a_keyword_gets_an_escaped_module() {
    let rel = Relation::from_foreign_key(
        "Type".to_owned(),
        vec!["type_id".to_owned()],
        vec!["id".to_owned()],
        None,
        None,
    );
    assert_eq!(rel.get_module_name(), Some("r#type".to_owned()));
    assert_eq!(rel.get_enum_name(), "Type");
    assert_eq!(
        rel.get_def(),
        "Entity::belongs_to(super::r#type::Entity).from(Column::TypeId).to(super::r#type::Column::Id).into()"
    );
    let own = Relation::from_foreign_key(
        "self".to_owned(),
        vec!["self_id".to_owned()],
        vec!["id".to_owned()],
        None,
        None,
    );
    assert_eq!(own.get_module_name(), Some("self_".to_owned()));
}
