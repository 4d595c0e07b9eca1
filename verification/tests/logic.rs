use boolean_field::{BooleanOps, PackedBooleanData};

const T: Option<bool> = Some(true);
const F: Option<bool> = Some(false);
const N: Option<bool> = None;

fn nullable(value: Option<bool>) -> PackedBooleanData {
    let mut data = BooleanOps::new_data();
    BooleanOps::set_value(&mut data, value).unwrap();
    data
}

fn constrained(default: bool, value: bool) -> PackedBooleanData {
    let mut data = nullable(Some(value));
    BooleanOps::set_default(&mut data, default);
    BooleanOps::set_not_null(&mut data);
    data
}

#[test]
fn and_table() {
    let table = [
        (T, T, T),
        (T, F, F),
        (T, N, N),
        (F, T, F),
        (F, F, F),
        (F, N, F),
        (N, T, N),
        (N, F, F),
        (N, N, N),
    ];
    for (a, b, want) in table {
        assert_eq!(BooleanOps::and(&nullable(a), &nullable(b)).value(), want);
    }
}

#[test]
fn or_table() {
    let table = [
        (T, T, T),
        (T, F, T),
        (T, N, T),
        (F, T, T),
        (F, F, F),
        (F, N, N),
        (N, T, T),
        (N, F, N),
        (N, N, N),
    ];
    for (a, b, want) in table {
        assert_eq!(BooleanOps::or(&nullable(a), &nullable(b)).value(), want);
    }
}

#[test]
fn not_table() {
    assert_eq!(BooleanOps::not(&nullable(T)).value(), F);
    assert_eq!(BooleanOps::not(&nullable(F)).value(), T);
    assert_eq!(BooleanOps::not(&nullable(N)).value(), N);
}

#[test]
fn logic_takes_constraint_and_default_from_the_left() {
    let left = constrained(true, false);
    let right = nullable(T);
    let both = BooleanOps::and(&left, &right);
    assert_eq!((both.not_null(), both.default_value(), both.value()), (true, T, F));
    let either = BooleanOps::or(&left, &right);
    assert_eq!((either.not_null(), either.default_value(), either.value()), (true, T, T));
    let flipped = BooleanOps::not(&left);
    assert_eq!((flipped.not_null(), flipped.default_value(), flipped.value()), (true, T, T));

    let swapped = BooleanOps::and(&right, &left);
    assert_eq!((swapped.not_null(), swapped.default_value(), swapped.value()), (false, N, F));
}

#[test]
fn logic_on_two_constrained_fields() {
    for a in [true, false] {
        for b in [true, false] {
            let left = constrained(false, a);
            let right = constrained(true, b);
            assert_eq!(BooleanOps::and(&left, &right).value(), Some(a && b));
            assert_eq!(BooleanOps::or(&left, &right).value(), Some(a || b));
            assert_eq!(BooleanOps::and(&left, &right).default_value(), F);
        }
    }
}

#[test]
fn constrained_left_with_null_right_where_the_result_is_known() {
    let result = BooleanOps::and(&constrained(false, false), &nullable(N));
    assert_eq!((result.not_null(), result.value()), (true, F));
    let result = BooleanOps::or(&constrained(false, true), &nullable(N));
    assert_eq!((result.not_null(), result.value()), (true, T));
}
