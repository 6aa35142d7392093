use sea_orm::entity::active_value::{ActiveValue, Unset};
use sea_orm::{IntoActiveValue, Value};

#[test]
fn take_is_destructive() {
    let mut slot = ActiveValue::unchanged(7i32);
    assert_eq!(slot.take(), Some(7));
    assert!(slot.is_not_set());
    assert_eq!(slot.take(), None);

    let mut slot = ActiveValue::set("x".to_owned());
    assert_eq!(slot.take(), Some("x".to_owned()));
    assert_eq!(slot, ActiveValue::NotSet);
}

#[test]
fn set_if_not_equals_keeps_an_equal_unchanged_value() {
    let mut value = ActiveValue::Unchanged("old");
    value.set_if_not_equals("old");
    assert!(value.is_unchanged());
    value.set_if_not_equals("new");
    assert_eq!(value.is_unchanged(), false);
    assert_eq!(value, ActiveValue::Assigned("new"));
}

#[test]
fn set_if_not_equals_is_idempotent() {
    for start in [ActiveValue::Unchanged(1), ActiveValue::Assigned(1), ActiveValue::NotSet] {
        for new in [1, 2] {
            let mut once = start.clone();
            once.set_if_not_equals(new);
            let mut twice = once.clone();
            twice.set_if_not_equals(new);
            assert_eq!(once, twice);
        }
    }
    let mut set = ActiveValue::Assigned(1);
    set.set_if_not_equals(1);
    assert_eq!(set, ActiveValue::Assigned(1));
    let mut unset = ActiveValue::NotSet;
    unset.set_if_not_equals(3);
    assert_eq!(unset, ActiveValue::Assigned(3));
}

#[test]
fn try_as_ref_of_each_state() {
    assert_eq!(ActiveValue::Unchanged(42).try_as_ref(), Some(&42));
    assert_eq!(ActiveValue::Assigned(42).try_as_ref(), Some(&42));
    assert_eq!(ActiveValue::<i32>::NotSet.try_as_ref(), None::<&i32>);
    assert_eq!(Unset::<i32>(None), ActiveValue::NotSet);
    assert_eq!(Unset::<i32>(Some(true)), ActiveValue::not_set());
    assert_eq!(*ActiveValue::Assigned(5).as_ref(), 5);
    assert_eq!(ActiveValue::Unchanged(6).unwrap(), 6);
}

#[test]
fn default_state_is_not_set() {
    let slot: ActiveValue<i32> = Default::default();
    assert!(slot.is_not_set());
    assert!(!slot.is_set());
    assert!(!slot.is_unchanged());
    assert!(ActiveValue::set(1).is_set());
    assert!(ActiveValue::unchanged(1).is_unchanged());
}

#[test]
fn reset_turns_unchanged_into_assigned() {
    let mut a = ActiveValue::Unchanged(3);
    a.reset();
    assert_eq!(a, ActiveValue::Assigned(3));
    a.reset();
    assert_eq!(a, ActiveValue::Assigned(3));
    let mut n: ActiveValue<i32> = ActiveValue::NotSet;
    n.reset();
    assert_eq!(n, ActiveValue::NotSet);
}

#[test]
fn into_value_converts_the_payload() {
    assert_eq!(ActiveValue::Assigned(1i32).into_value(), Some(Value::Int(Some(1))));
    assert_eq!(
        ActiveValue::Unchanged("a".to_owned()).into_value(),
        Some(Value::String(Some("a".to_owned())))
    );
    assert_eq!(ActiveValue::<i32>::NotSet.into_value(), None);
    assert_eq!(
        ActiveValue::Assigned(None::<i32>).into_value(),
        Some(Value::Int(None))
    );
    assert_eq!(
        ActiveValue::Assigned(Some(7i64)).into_wrapped_value(),
        ActiveValue::Assigned(Value::BigInt(Some(7)))
    );
    assert_eq!(
        ActiveValue::Unchanged(true).into_wrapped_value(),
        ActiveValue::Unchanged(Value::Bool(Some(true)))
    );
    assert_eq!(
        ActiveValue::<u8>::NotSet.into_wrapped_value(),
        ActiveValue::NotSet
    );
}

#[test]
fn into_active_value_of_options() {
    assert_eq!(Some(1i32).into_active_value(), ActiveValue::Assigned(Some(1)));
    assert_eq!(None::<i32>.into_active_value(), ActiveValue::NotSet);
    assert_eq!(
        Some(Some(1i32)).into_active_value(),
        ActiveValue::Assigned(Some(1))
    );
    assert_eq!(
        Some(None::<i32>).into_active_value(),
        ActiveValue::Assigned(None)
    );
    assert_eq!(None::<Option<i32>>.into_active_value(), ActiveValue::NotSet);
    assert_eq!(5u64.into_active_value(), ActiveValue::Assigned(5u64));
    let nullable: ActiveValue<Option<i32>> = ActiveValue::Unchanged(4).into();
    assert_eq!(nullable, ActiveValue::Unchanged(Some(4)));
}

#[test]
fn values_are_equal_by_family_and_payload() {
    assert_eq!(Value::from(1i32), Value::Int(Some(1)));
    assert_ne!(Value::from(1i32), Value::BigInt(Some(1)));
    assert_ne!(Value::Int(None), Value::Int(Some(0)));
    assert_eq!(Value::from("a"), Value::String(Some("a".to_owned())));
    assert_eq!(Value::from(vec![1u8, 2]), Value::Bytes(Some(vec![1, 2])));
    assert_ne!(Value::from(vec![1u8, 2]), Value::Bytes(Some(vec![1, 3])));
    assert_ne!(Value::from(vec![1u8, 2]), Value::Bytes(Some(vec![1])));
    assert_eq!(Value::from(None::<bool>), Value::Bool(None));
    assert_eq!(Value::from(Some('c')), Value::Char(Some('c')));
    assert_eq!(Value::from(1i32).clone(), Value::Int(Some(1)));
}
