use std::collections::HashSet;

use boolean_field::{BooleanOps, PackedBooleanData};

const OPTIONS: [Option<bool>; 3] = [Some(true), Some(false), None];

/// Builds a state from its three components through the public operations.
fn packed(not_null: bool, default: Option<bool>, value: Option<bool>) -> PackedBooleanData {
    let mut data = BooleanOps::new_data();
    if let Some(d) = default {
        BooleanOps::set_default(&mut data, d);
    }
    BooleanOps::set_value(&mut data, value).unwrap();
    if not_null {
        assert!(default.is_some() && value.is_some());
        BooleanOps::set_not_null(&mut data);
    }
    assert_eq!(triple(&data), (not_null, default, value));
    data
}

fn triple(data: &PackedBooleanData) -> (bool, Option<bool>, Option<bool>) {
    (data.not_null(), data.default_value(), data.value())
}

/// All thirteen legal states.
fn every_state() -> Vec<PackedBooleanData> {
    let mut states = Vec::new();
    for default in OPTIONS {
        for value in OPTIONS {
            states.push(packed(false, default, value));
        }
    }
    for default in [true, false] {
        for value in [true, false] {
            states.push(packed(true, Some(default), Some(value)));
        }
    }
    assert_eq!(states.len(), 13);
    states
}

#[test]
fn new_data_is_nullable_and_empty() {
    let data = BooleanOps::new_data();
    assert_eq!(triple(&data), (false, None, None));
    assert_eq!(data, PackedBooleanData::default());
}

#[test]
fn set_not_null_repairs_null_default_and_value() {
    let mut data = BooleanOps::new_data();
    BooleanOps::set_not_null(&mut data);
    assert_eq!(triple(&data), (true, Some(false), Some(false)));
}

#[test]
fn set_not_null_gives_null_value_the_default() {
    let mut data = packed(false, Some(true), None);
    BooleanOps::set_not_null(&mut data);
    assert_eq!(triple(&data), (true, Some(true), Some(true)));
}

#[test]
fn set_not_null_keeps_a_value_and_repairs_the_default_alone() {
    let mut data = packed(false, None, Some(true));
    BooleanOps::set_not_null(&mut data);
    assert_eq!(triple(&data), (true, Some(false), Some(true)));
}

#[test]
fn set_not_null_on_every_state() {
    for before in every_state() {
        let (_, default, value) = triple(&before);
        let mut after = before;
        BooleanOps::set_not_null(&mut after);
        let want_default = default.unwrap_or(false);
        let want_value = value.unwrap_or(want_default);
        assert_eq!(triple(&after), (true, Some(want_default), Some(want_value)));
    }
}

#[test]
fn set_not_null_twice_is_set_not_null_once() {
    for before in every_state() {
        let mut once = before;
        BooleanOps::set_not_null(&mut once);
        let mut twice = once;
        BooleanOps::set_not_null(&mut twice);
        assert_eq!(twice, once);
        assert_eq!(triple(&twice), triple(&once));
    }
}

#[test]
fn repair_then_default_keeps_the_repaired_value() {
    let mut data = BooleanOps::new_data();
    BooleanOps::set_not_null(&mut data);
    BooleanOps::set_default(&mut data, true);
    assert_eq!(triple(&data), (true, Some(true), Some(false)));
}

#[test]
fn default_then_not_null_carries_the_default_into_the_value() {
    let mut data = BooleanOps::new_data();
    BooleanOps::set_default(&mut data, true);
    BooleanOps::set_not_null(&mut data);
    assert_eq!(triple(&data), (true, Some(true), Some(true)));
}

#[test]
fn set_default_fills_a_null_value() {
    let mut data = BooleanOps::new_data();
    BooleanOps::set_default(&mut data, true);
    assert_eq!(triple(&data), (false, Some(true), Some(true)));
}

#[test]
fn set_default_keeps_a_value() {
    let mut data = packed(false, None, Some(false));
    BooleanOps::set_default(&mut data, true);
    assert_eq!(triple(&data), (false, Some(true), Some(false)));
}

#[test]
fn set_default_on_every_state() {
    for before in every_state() {
        for new_default in [true, false] {
            let (not_null, _, value) = triple(&before);
            let mut after = before;
            BooleanOps::set_default(&mut after, new_default);
            assert_eq!(
                triple(&after),
                (not_null, Some(new_default), Some(value.unwrap_or(new_default)))
            );
        }
    }
}

#[test]
fn set_value_null_is_refused_by_not_null() {
    let mut data = packed(true, Some(true), Some(false));
    let before = data;
    assert_eq!(BooleanOps::set_value(&mut data, None), Err("Field cannot be NULL".to_string()));
    assert_eq!(data, before);
    assert_eq!(data.value(), Some(false));
}

#[test]
fn set_value_on_every_state() {
    for before in every_state() {
        for new_value in OPTIONS {
            let (not_null, default, _) = triple(&before);
            let mut after = before;
            let res = BooleanOps::set_value(&mut after, new_value);
            if not_null && new_value.is_none() {
                assert_eq!(res, Err("Field cannot be NULL".to_string()));
                assert_eq!(after, before);
            } else {
                assert_eq!(res, Ok(()));
                assert_eq!(triple(&after), (not_null, default, new_value));
            }
        }
    }
}

#[test]
fn set_value_null_is_accepted_by_a_nullable_field() {
    let mut data = packed(false, Some(true), Some(true));
    assert_eq!(BooleanOps::set_value(&mut data, None), Ok(()));
    assert_eq!(triple(&data), (false, Some(true), None));
}

#[test]
fn equal_states_are_equal_values() {
    let states = every_state();
    for (i, a) in states.iter().enumerate() {
        for (j, b) in states.iter().enumerate() {
            assert_eq!(a == b, i == j);
            assert_eq!(triple(a) == triple(b), i == j);
        }
    }
    let mut by_another_way = BooleanOps::new_data();
    BooleanOps::set_value(&mut by_another_way, Some(true)).unwrap();
    BooleanOps::set_default(&mut by_another_way, false);
    assert_eq!(by_another_way, packed(false, Some(false), Some(true)));
}

#[test]
fn sql_type_of_every_constraint_and_default() {
    assert_eq!(BooleanOps::to_sql(&packed(false, None, None)), "BOOLEAN");
    assert_eq!(BooleanOps::to_sql(&packed(false, None, Some(true))), "BOOLEAN");
    assert_eq!(BooleanOps::to_sql(&packed(false, Some(true), None)), "BOOLEAN DEFAULT TRUE");
    assert_eq!(BooleanOps::to_sql(&packed(false, Some(false), None)), "BOOLEAN DEFAULT FALSE");
    assert_eq!(
        BooleanOps::to_sql(&packed(true, Some(true), Some(false))),
        "BOOLEAN NOT NULL DEFAULT TRUE"
    );
    assert_eq!(
        BooleanOps::to_sql(&packed(true, Some(false), Some(true))),
        "BOOLEAN NOT NULL DEFAULT FALSE"
    );
}

#[test]
fn equal_states_hash_alike() {
    let mut seen = HashSet::new();
    for state in every_state() {
        assert!(seen.insert(state));
    }
    assert_eq!(seen.len(), 13);
    let mut again = BooleanOps::new_data();
    BooleanOps::set_default(&mut again, true);
    BooleanOps::set_value(&mut again, None).unwrap();
    assert!(seen.contains(&again));
    assert!(!seen.insert(again));
}

#[test]
fn copies_are_independent() {
    let mut data = BooleanOps::new_data();
    let before = data;
    BooleanOps::set_value(&mut data, Some(true)).unwrap();
    assert_eq!(before.value(), None);
    assert_eq!(data.value(), Some(true));
    assert_ne!(before, data);
}
