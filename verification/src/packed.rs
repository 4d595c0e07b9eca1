//! The field state held as one byte, and the operations on it.

use vstd::prelude::*;
use crate::codec::{decode_spec, decode_state, encode_state, valid_code, weight};
use crate::state::FieldState;
use crate::tristate::{kleene_and, kleene_not, kleene_or, OptionBool};

verus! {

/// A field state packed into a single byte.
///
/// The byte is always one of the thirteen codes in use, so the value always
/// stands for a legal state, which is its view. Two values are equal exactly
/// when their bytes are.
#[derive(Clone, Copy, PartialEq, Eq, Hash, Debug, Structural)]
pub struct PackedBooleanData(u8);

impl View for PackedBooleanData {
    type V = FieldState;

    closed spec fn view(&self) -> FieldState {
        match decode_spec(self.0) {
            Some(s) => s,
            None => FieldState::initial(),
        }
    }
}

impl Default for PackedBooleanData {
    /// The state of a fresh field: nullable, with no default and no value.
    fn default() -> (d: Self)
        ensures
            d@ == FieldState::initial(),
    {
        Self(10)
    }
}

impl PackedBooleanData {
    /// The byte held is a code in use.
    #[verifier::type_invariant]
    pub closed spec fn wf(self) -> bool {
        valid_code(self.0)
    }

    /// The packed form of a state: the value whose byte is the state's code.
    pub closed spec fn of(s: FieldState) -> PackedBooleanData
        recommends
            s.legal(),
    {
        PackedBooleanData(weight(s) as u8)
    }

    /// Every value stands for a legal state.
    pub proof fn lemma_view_legal(self)
        ensures
            self@.legal(),
    {
    }

    /// Packing a legal state and reading it back gives that state.
    pub proof fn lemma_of_view(s: FieldState)
        requires
            s.legal(),
        ensures
            Self::of(s).wf(),
            Self::of(s)@ == s,
    {
    }

    /// A well-formed value is the packed form of its own state, so two
    /// well-formed values are equal exactly when their states are.
    pub proof fn lemma_eq_iff_same_state(self, other: PackedBooleanData)
        requires
            self.wf(),
            other.wf(),
        ensures
            Self::of(self@) == self,
            self == other <==> self@ == other@,
    {
    }

    fn get_full_state(&self) -> (res: (bool, OptionBool, OptionBool))
        ensures
            res.0 == self@.not_null,
            res.1@ == self@.default,
            res.2@ == self@.value,
            self@.legal(),
    {
        proof {
            use_type_invariant(self);
        }
        decode_state(self.0).expect("Internal state of PackedBooleanData is invalid")
    }

    /// The current value, `None` for null.
    pub fn value(&self) -> (v: Option<bool>)
        ensures
            v == self@.value,
            self@.not_null ==> v is Some,
    {
        self.get_full_state().2.into()
    }

    /// The default value, `None` for null.
    pub fn default_value(&self) -> (v: Option<bool>)
        ensures
            v == self@.default,
            self@.not_null ==> v is Some,
    {
        self.get_full_state().1.into()
    }

    /// Whether the NOT NULL constraint is set.
    pub fn not_null(&self) -> (b: bool)
        ensures
            b == self@.not_null,
    {
        self.get_full_state().0
    }
}

/// The operations on a packed field state.
pub struct BooleanOps;

impl BooleanOps {
    /// A fresh field state: nullable, with no default and no value.
    pub fn new_data() -> (d: PackedBooleanData)
        ensures
            d@ == FieldState::initial(),
    {
        PackedBooleanData::default()
    }

    /// Sets the NOT NULL constraint, repairing a null default to false and a
    /// null value to the default.
    ///
    /// On a field that is NOT NULL already this changes nothing, so a second
    /// call undoes or adds nothing to the first.
    pub fn set_not_null(data: &mut PackedBooleanData)
        ensures
            final(data)@ == old(data)@.with_not_null(),
            final(data)@.not_null,
            old(data)@.not_null ==> *final(data) == *old(data),
    {
        let (_, mut default, mut value) = data.get_full_state();

        if default == OptionBool::Null {
            default = OptionBool::False;
        }
        if value == OptionBool::Null {
            value = default;
        }
        data.0 = encode_state(true, default, value).unwrap();
    }

    /// Sets the default. A field whose value is null takes the new default as
    /// its value at once; any other value stays.
    pub fn set_default(data: &mut PackedBooleanData, new_default: bool)
        ensures
            final(data)@ == old(data)@.with_default(new_default),
            old(data)@.value is None ==> final(data)@.value == Some(new_default),
            old(data)@.value is Some ==> final(data)@.value == old(data)@.value,
            final(data)@.not_null == old(data)@.not_null,
    {
        let (not_null, _, mut value) = data.get_full_state();
        let new_default_ob: OptionBool = Some(new_default).into();

        if value == OptionBool::Null {
            value = new_default_ob;
        }
        data.0 = encode_state(not_null, new_default_ob, value).unwrap();
    }

    /// Sets the value, keeping constraint and default.
    ///
    /// A NOT NULL field refuses null with `"Field cannot be NULL"` and stays
    /// as it was; every other call succeeds.
    pub fn set_value(data: &mut PackedBooleanData, value: Option<bool>) -> (res: Result<(), String>)
        ensures
            res is Ok <==> old(data)@.accepts(value),
            res is Ok ==> final(data)@ == old(data)@.with_value(value),
            res is Err ==> *final(data) == *old(data) && res->Err_0@ == "Field cannot be NULL"@,
    {
        let (not_null, default, _) = data.get_full_state();
        let new_value_ob: OptionBool = value.into();

        if not_null && new_value_ob == OptionBool::Null {
            return Err("Field cannot be NULL".to_string());
        }
        match encode_state(not_null, default, new_value_ob) {
            Ok(new_state) => {
                data.0 = new_state;
                Ok(())
            },
            // Not taken: with null ruled out for a NOT NULL field, the
            // state to encode is legal.
            Err(e) => Err(e.to_string()),
        }
    }

    /// Three-valued AND. The result takes constraint and default from `a`;
    /// those of `b` are dropped.
    ///
    /// The result must be a value that `a`'s constraint accepts: where `a` is
    /// NOT NULL and true, `b` may not be null.
    pub fn and(a: &PackedBooleanData, b: &PackedBooleanData) -> (r: PackedBooleanData)
        requires
            a@.accepts(kleene_and(a@.value, b@.value)),
        ensures
            r@ == a@.with_value(kleene_and(a@.value, b@.value)),
    {
        let value = match (a.value(), b.value()) {
            (Some(true), Some(true)) => Some(true),
            (_, Some(false)) | (Some(false), _) => Some(false),
            _ => None,
        };
        let (not_null, default, _) = a.get_full_state();
        let new_state = encode_state(not_null, default, value.into()).unwrap();
        PackedBooleanData(new_state)
    }

    /// Three-valued OR. The result takes constraint and default from `a`;
    /// those of `b` are dropped.
    ///
    /// The result must be a value that `a`'s constraint accepts: where `a` is
    /// NOT NULL and false, `b` may not be null.
    pub fn or(a: &PackedBooleanData, b: &PackedBooleanData) -> (r: PackedBooleanData)
        requires
            a@.accepts(kleene_or(a@.value, b@.value)),
        ensures
            r@ == a@.with_value(kleene_or(a@.value, b@.value)),
    {
        let value = match (a.value(), b.value()) {
            (Some(true), _) | (_, Some(true)) => Some(true),
            (Some(false), Some(false)) => Some(false),
            _ => None,
        };
        let (not_null, default, _) = a.get_full_state();
        let new_state = encode_state(not_null, default, value.into()).unwrap();
        PackedBooleanData(new_state)
    }

    /// Three-valued NOT, with constraint and default kept.
    pub fn not(data: &PackedBooleanData) -> (r: PackedBooleanData)
        ensures
            r@ == data@.with_value(kleene_not(data@.value)),
    {
        let value = data.value().map(|val: bool| -> (flipped: bool)
            ensures
                flipped == !val,
            { !val });
        let (not_null, default, _) = data.get_full_state();
        let new_state = encode_state(not_null, default, value.into()).unwrap();
        PackedBooleanData(new_state)
    }

    /// Renders the SQL type of the column with its constraints, in the fixed
    /// order type, NOT NULL, DEFAULT.
    pub fn to_sql(data: &PackedBooleanData) -> (sql: String)
        ensures
            sql@ == data@.sql_type(),
    {
        let mut sql = "BOOLEAN".to_string();

        if data.not_null() {
            sql.append(" NOT NULL");
        }
        if let Some(default_val) = data.default_value() {
            sql.append(" DEFAULT ");
            if default_val {
                sql.append("TRUE");
            } else {
                sql.append("FALSE");
            }
        }
        proof {
            // The clause is appended in two pieces; together they spell it.
            reveal_strlit(" DEFAULT ");
            reveal_strlit("TRUE");
            reveal_strlit("FALSE");
            reveal_strlit(" DEFAULT TRUE");
            reveal_strlit(" DEFAULT FALSE");
        }
        sql
    }
}

} // verus!
