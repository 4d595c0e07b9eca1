//! The state of a field as a triple, and its packing into one small integer.
//!
//! A state packs into three digits: the NOT NULL flag weighs 16, the default
//! weighs 4 and the value weighs 1, where a tri-state digit is 0 for false,
//! 1 for true and 2 for null. Only legal states have a code, so the codes in
//! use are sparse: 0, 1, 2, 4, 5, 6, 8, 9, 10, 16, 17, 20 and 21.

use vstd::prelude::*;
use crate::state::FieldState;
use crate::tristate::OptionBool;

verus! {

/// The digit that stands for a tri-state value inside a code.
pub open spec fn digit(v: Option<bool>) -> int {
    match v {
        Some(false) => 0,
        Some(true) => 1,
        None => 2,
    }
}

/// The tri-state value that a digit below 3 stands for.
pub open spec fn undigit(d: int) -> Option<bool> {
    if d == 0 {
        Some(false)
    } else if d == 1 {
        Some(true)
    } else {
        None
    }
}

/// The three digits of a state, weighed 16, 4 and 1.
pub open spec fn weight(s: FieldState) -> int {
    (if s.not_null { 16int } else { 0int }) + 4 * digit(s.default) + digit(s.value)
}

/// The code of a state: its weight if the state is legal, none otherwise.
pub open spec fn encode_spec(s: FieldState) -> Option<u8> {
    if s.legal() {
        Some(weight(s) as u8)
    } else {
        None
    }
}

/// The state that a code stands for: the code is read digit by digit, and
/// stands for a state only if each digit is in range and the state is legal.
pub open spec fn decode_spec(code: u8) -> Option<FieldState> {
    let c = code as int;
    let s = FieldState {
        not_null: c / 16 == 1,
        default: undigit((c / 4) % 4),
        value: undigit(c % 4),
    };
    if c < 32 && (c / 4) % 4 < 3 && c % 4 < 3 && s.legal() {
        Some(s)
    } else {
        None
    }
}

/// The thirteen codes in use.
pub open spec fn valid_code(code: u8) -> bool {
    code == 0 || code == 1 || code == 2 || code == 4 || code == 5 || code == 6 || code == 8
        || code == 9 || code == 10 || code == 16 || code == 17 || code == 20 || code == 21
}

/// Packs a state into its code.
///
/// Succeeds exactly on the legal states; on any other combination it fails
/// with `"Invalid state combination"`. A code it gives decodes to the state
/// it was given.
pub fn encode_state(not_null: bool, default: OptionBool, value: OptionBool) -> (res: Result<
    u8,
    &'static str,
>)
    ensures
        match encode_spec(FieldState { not_null, default: default@, value: value@ }) {
            Some(code) => res == Ok::<u8, &'static str>(code),
            None => res is Err && res->Err_0@ == "Invalid state combination"@,
        },
        res is Ok <==> (FieldState { not_null, default: default@, value: value@ }).legal(),
        res is Ok ==> valid_code(res->Ok_0),
        res is Ok ==> decode_spec(res->Ok_0) == Some(
            FieldState { not_null, default: default@, value: value@ },
        ),
{
    match (not_null, default, value) {
        (false, OptionBool::False, OptionBool::False) => Ok(0),
        (false, OptionBool::False, OptionBool::True) => Ok(1),
        (false, OptionBool::False, OptionBool::Null) => Ok(2),
        (false, OptionBool::True, OptionBool::False) => Ok(4),
        (false, OptionBool::True, OptionBool::True) => Ok(5),
        (false, OptionBool::True, OptionBool::Null) => Ok(6),
        (false, OptionBool::Null, OptionBool::False) => Ok(8),
        (false, OptionBool::Null, OptionBool::True) => Ok(9),
        (false, OptionBool::Null, OptionBool::Null) => Ok(10),
        (true, OptionBool::False, OptionBool::False) => Ok(16),
        (true, OptionBool::False, OptionBool::True) => Ok(17),
        (true, OptionBool::True, OptionBool::False) => Ok(20),
        (true, OptionBool::True, OptionBool::True) => Ok(21),
        _ => Err("Invalid state combination"),
    }
}

/// Unpacks a code into the state it stands for.
///
/// Succeeds exactly on the thirteen codes in use; on any other number it
/// fails with `"Invalid packed state"`. A state it gives encodes to the code
/// it was given.
pub fn decode_state(state: u8) -> (res: Result<(bool, OptionBool, OptionBool), &'static str>)
    ensures
        match decode_spec(state) {
            Some(s) => res == Ok::<(bool, OptionBool, OptionBool), &'static str>(
                (s.not_null, OptionBool::of(s.default), OptionBool::of(s.value)),
            ),
            None => res is Err && res->Err_0@ == "Invalid packed state"@,
        },
        res is Ok <==> valid_code(state),
        res is Ok ==> encode_spec(
            FieldState { not_null: res->Ok_0.0, default: res->Ok_0.1@, value: res->Ok_0.2@ },
        ) == Some(state),
{
    match state {
        0 => Ok((false, OptionBool::False, OptionBool::False)),
        1 => Ok((false, OptionBool::False, OptionBool::True)),
        2 => Ok((false, OptionBool::False, OptionBool::Null)),
        4 => Ok((false, OptionBool::True, OptionBool::False)),
        5 => Ok((false, OptionBool::True, OptionBool::True)),
        6 => Ok((false, OptionBool::True, OptionBool::Null)),
        8 => Ok((false, OptionBool::Null, OptionBool::False)),
        9 => Ok((false, OptionBool::Null, OptionBool::True)),
        10 => Ok((false, OptionBool::Null, OptionBool::Null)),
        16 => Ok((true, OptionBool::False, OptionBool::False)),
        17 => Ok((true, OptionBool::False, OptionBool::True)),
        20 => Ok((true, OptionBool::True, OptionBool::False)),
        21 => Ok((true, OptionBool::True, OptionBool::True)),
        _ => Err("Invalid packed state"),
    }
}

/// Round trip: the code of a legal state decodes to that state.
pub proof fn lemma_decode_encode(s: FieldState)
    requires
        s.legal(),
    ensures
        encode_spec(s) is Some,
        decode_spec(encode_spec(s)->0) == Some(s),
{
}

/// Round trip the other way: a code in use is the code of the state it
/// stands for.
pub proof fn lemma_encode_decode(code: u8)
    requires
        decode_spec(code) is Some,
    ensures
        decode_spec(code)->0.legal(),
        encode_spec(decode_spec(code)->0) == Some(code),
{
}

/// Two legal states with the same code are the same state.
pub proof fn lemma_encode_injective(s: FieldState, t: FieldState)
    requires
        s.legal(),
        t.legal(),
        encode_spec(s) == encode_spec(t),
    ensures
        s == t,
{
}

/// The codes that stand for a state are exactly the thirteen codes in use,
/// and every legal state has one of them.
pub proof fn lemma_codes_in_use(code: u8, s: FieldState)
    ensures
        decode_spec(code) is Some <==> valid_code(code),
        s.legal() ==> valid_code(encode_spec(s)->0),
{
}

/// The code table: each legal state with its code, row by row.
pub proof fn lemma_code_table()
    ensures
        encode_spec(FieldState { not_null: false, default: Some(false), value: Some(false) })
            == Some(0u8),
        encode_spec(FieldState { not_null: false, default: Some(false), value: Some(true) })
            == Some(1u8),
        encode_spec(FieldState { not_null: false, default: Some(false), value: None }) == Some(2u8),
        encode_spec(FieldState { not_null: false, default: Some(true), value: Some(false) })
            == Some(4u8),
        encode_spec(FieldState { not_null: false, default: Some(true), value: Some(true) })
            == Some(5u8),
        encode_spec(FieldState { not_null: false, default: Some(true), value: None }) == Some(6u8),
        encode_spec(FieldState { not_null: false, default: None, value: Some(false) }) == Some(8u8),
        encode_spec(FieldState { not_null: false, default: None, value: Some(true) }) == Some(9u8),
        encode_spec(FieldState { not_null: false, default: None, value: None }) == Some(10u8),
        encode_spec(FieldState { not_null: true, default: Some(false), value: Some(false) })
            == Some(16u8),
        encode_spec(FieldState { not_null: true, default: Some(false), value: Some(true) })
            == Some(17u8),
        encode_spec(FieldState { not_null: true, default: Some(true), value: Some(false) })
            == Some(20u8),
        encode_spec(FieldState { not_null: true, default: Some(true), value: Some(true) })
            == Some(21u8),
{
}

} // verus!
