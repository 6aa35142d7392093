use sea_orm::executor::consolidate::{
    consolidate_query_result_of_ordered_rows, has_same_pk, PairPk, TuplePk, UnitPk,
};
use sea_orm::tests_cfg::{cake, cake_filling, filling, fruit, vendor};
use sea_orm::{consolidate_query_result, consolidate_query_result_of};

fn cake_model(id: i32) -> cake::Model {
    let name = match id {
        1 => "apple cake",
        2 => "orange cake",
        3 => "fruit cake",
        4 => "chocolate cake",
        _ => "",
    }
    .to_string();
    cake::Model { id, name }
}

fn fruit_model(id: i32, cake_id: Option<i32>) -> fruit::Model {
    let name = match id {
        1 => "apple",
        2 => "orange",
        3 => "grape",
        4 => "strawberry",
        _ => "",
    }
    .to_string();
    fruit::Model { id, name, cake_id }
}

fn filling_model(id: i32) -> filling::Model {
    let name = match id {
        1 => "apple juice",
        2 => "orange jam",
        3 => "fruit",
        4 => "chocolate crust",
        _ => "",
    }
    .to_string();
    filling::Model {
        id,
        name,
        vendor_id: Some(1),
        ignored_attr: 0,
    }
}

fn vendor_model(id: i32) -> vendor::Model {
    let name = match id {
        1 => "Apollo",
        2 => "Benny",
        3 => "Christine",
        4 => "David",
        _ => "",
    }
    .to_string();
    vendor::Model { id, name }
}

fn cake_fruit_model(cake_id: i32, fruit_id: i32) -> (cake::Model, Option<fruit::Model>) {
    (cake_model(cake_id), Some(fruit_model(fruit_id, Some(cake_id))))
}

fn cake_filling_models(cake_id: i32, filling_id: i32) -> (cake::Model, Option<filling::Model>) {
    (cake_model(cake_id), Some(filling_model(filling_id)))
}

fn cake_vendor_link(cake_id: i32, vendor_id: i32) -> (cake::Model, Option<vendor::Model>) {
    (cake_model(cake_id), Some(vendor_model(vendor_id)))
}

#[test]
fn with_related() {
    let rows = vec![
        cake_fruit_model(1, 1),
        cake_fruit_model(2, 2),
        cake_fruit_model(2, 3),
    ];
    assert_eq!(
        consolidate_query_result(rows),
        [
            (cake_model(1), vec![fruit_model(1, Some(1))]),
            (
                cake_model(2),
                vec![fruit_model(2, Some(2)), fruit_model(3, Some(2))]
            )
        ]
    );
}

#[test]
fn with_related_2() {
    let rows = vec![
        cake_fruit_model(1, 1),
        cake_fruit_model(2, 2),
        cake_fruit_model(2, 3),
        cake_fruit_model(2, 4),
    ];
    assert_eq!(
        consolidate_query_result(rows),
        [
            (cake_model(1), vec![fruit_model(1, Some(1)),]),
            (
                cake_model(2),
                vec![
                    fruit_model(2, Some(2)),
                    fruit_model(3, Some(2)),
                    fruit_model(4, Some(2)),
                ]
            ),
        ]
    );
}

#[test]
fn with_related_empty() {
    let rows = vec![
        cake_fruit_model(1, 1),
        cake_fruit_model(2, 2),
        cake_fruit_model(2, 3),
        cake_fruit_model(2, 4),
        (cake_model(3), None::<fruit::Model>),
    ];
    assert_eq!(
        consolidate_query_result(rows),
        [
            (cake_model(1), vec![fruit_model(1, Some(1)),]),
            (
                cake_model(2),
                vec![
                    fruit_model(2, Some(2)),
                    fruit_model(3, Some(2)),
                    fruit_model(4, Some(2)),
                ]
            ),
            (cake_model(3), vec![])
        ]
    );
}

#[test]
fn with_related_many_to_many() {
    let rows = vec![
        cake_filling_models(1, 1),
        cake_filling_models(1, 2),
        cake_filling_models(2, 2),
    ];
    assert_eq!(
        consolidate_query_result(rows),
        [
            (cake_model(1), vec![filling_model(1), filling_model(2)]),
            (cake_model(2), vec![filling_model(2)]),
        ]
    );
}

#[test]
fn with_related_many_to_many_2() {
    let rows = vec![
        cake_filling_models(1, 1),
        cake_filling_models(1, 2),
        cake_filling_models(2, 2),
        (cake_model(3), None::<filling::Model>),
    ];
    assert_eq!(
        consolidate_query_result(rows),
        [
            (cake_model(1), vec![filling_model(1), filling_model(2)]),
            (cake_model(2), vec![filling_model(2)]),
            (cake_model(3), vec![])
        ]
    );
}

#[test]
fn with_linked_base() {
    let rows = vec![
        cake_vendor_link(1, 1),
        cake_vendor_link(2, 2),
        cake_vendor_link(2, 3),
    ];
    assert_eq!(
        consolidate_query_result(rows),
        [
            (cake_model(1), vec![vendor_model(1)]),
            (cake_model(2), vec![vendor_model(2), vendor_model(3)])
        ]
    );
}

#[test]
fn with_linked_same_vendor() {
    let rows = vec![
        cake_vendor_link(1, 1),
        cake_vendor_link(2, 2),
        cake_vendor_link(3, 2),
    ];
    assert_eq!(
        consolidate_query_result(rows),
        [
            (cake_model(1), vec![vendor_model(1)]),
            (cake_model(2), vec![vendor_model(2)]),
            (cake_model(3), vec![vendor_model(2)])
        ]
    );
}

#[test]
fn with_linked_empty() {
    let rows = vec![
        cake_vendor_link(1, 1),
        cake_vendor_link(2, 1),
        cake_vendor_link(2, 2),
        (cake_model(3), None::<vendor::Model>),
    ];
    assert_eq!(
        consolidate_query_result(rows),
        [
            (cake_model(1), vec![vendor_model(1)]),
            (cake_model(2), vec![vendor_model(1), vendor_model(2)]),
            (cake_model(3), vec![])
        ]
    );
}

#[test]
fn with_linked_repeated() {
    let rows = vec![
        cake_vendor_link(1, 1),
        cake_vendor_link(1, 1),
        cake_vendor_link(2, 1),
        cake_vendor_link(2, 2),
    ];
    assert_eq!(
        consolidate_query_result(rows),
        [
            (cake_model(1), vec![vendor_model(1), vendor_model(1)]),
            (cake_model(2), vec![vendor_model(1), vendor_model(2)]),
        ]
    );
}

#[test]
fn scattered_rows_of_a_parent_merge_in_first_seen_order() {
    let rows = vec![
        cake_fruit_model(1, 1),
        (cake_model(2), None),
        cake_fruit_model(1, 2),
    ];
    assert_eq!(
        consolidate_query_result(rows),
        [
            (
                cake_model(1),
                vec![fruit_model(1, Some(1)), fruit_model(2, Some(1))]
            ),
            (cake_model(2), vec![]),
        ]
    );
    let adjacent = vec![
        cake_fruit_model(1, 1),
        cake_fruit_model(1, 2),
        cake_fruit_model(2, 3),
    ];
    assert_eq!(
        consolidate_query_result(adjacent),
        [
            (
                cake_model(1),
                vec![fruit_model(1, Some(1)), fruit_model(2, Some(1))]
            ),
            (cake_model(2), vec![fruit_model(3, Some(2))]),
        ]
    );
    let none: Vec<(cake::Model, Option<fruit::Model>)> = vec![];
    assert_eq!(consolidate_query_result(none), []);
}

#[test]
fn a_parent_with_a_child_after_a_childless_row_keeps_one_entry() {
    let rows = vec![
        (cake_model(1), None),
        cake_fruit_model(1, 1),
        (cake_model(1), None),
    ];
    assert_eq!(
        consolidate_query_result(rows),
        [(cake_model(1), vec![fruit_model(1, Some(1))])]
    );
}

#[test]
fn parents_with_a_key_of_two_columns() {
    let a = cake_filling::Model {
        cake_id: 1,
        filling_id: 1,
    };
    let b = cake_filling::Model {
        cake_id: 1,
        filling_id: 2,
    };
    let rows = vec![
        (a.clone(), Some(10)),
        (b.clone(), Some(20)),
        (a.clone(), Some(30)),
    ];
    assert_eq!(
        consolidate_query_result(rows.clone()),
        [(a.clone(), vec![10, 30]), (b.clone(), vec![20])]
    );
    // by the first column alone the two parents are one
    assert_eq!(
        consolidate_query_result_of(
            rows.clone(),
            UnitPk::<cake_filling::Model>(cake_filling::Column::CakeId)
        ),
        [(a.clone(), vec![10, 20, 30])]
    );
    assert_eq!(
        consolidate_query_result_of(
            rows.clone(),
            PairPk::<cake_filling::Model>(
                cake_filling::Column::CakeId,
                cake_filling::Column::FillingId
            )
        ),
        [(a.clone(), vec![10, 30]), (b.clone(), vec![20])]
    );
    assert_eq!(
        consolidate_query_result_of(
            rows,
            TuplePk::<cake_filling::Model>(vec![cake_filling::Column::FillingId])
        ),
        [(a, vec![10, 30]), (b, vec![20])]
    );
}

#[test]
fn rows_in_order_merge_only_with_their_neighbours() {
    let rows = vec![
        cake_fruit_model(1, 1),
        cake_fruit_model(1, 2),
        cake_fruit_model(2, 3),
        (cake_model(2), None),
        cake_fruit_model(1, 4),
    ];
    assert_eq!(
        consolidate_query_result_of_ordered_rows(rows),
        [
            (
                cake_model(1),
                vec![fruit_model(1, Some(1)), fruit_model(2, Some(1))]
            ),
            (cake_model(2), vec![fruit_model(3, Some(2))]),
            (cake_model(2), vec![]),
            (cake_model(1), vec![fruit_model(4, Some(1))]),
        ]
    );
    assert!(has_same_pk(&cake_model(1), &cake_model(1)));
    assert!(!has_same_pk(&cake_model(1), &cake_model(2)));
}
