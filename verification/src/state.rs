//! The logical state of a field and the transitions between states.

use vstd::prelude::*;
use crate::tristate::{kleene_and, kleene_not, kleene_or, known_false, known_true};

verus! {

/// The logical state of a field: its constraint, its default and its value.
/// A null default or value is `None`.
pub struct FieldState {
    pub not_null: bool,
    pub default: Option<bool>,
    pub value: Option<bool>,
}

impl FieldState {
    /// The state of a freshly made field: nullable, no default, no value.
    pub open spec fn initial() -> FieldState {
        FieldState { not_null: false, default: None, value: None }
    }

    /// A NOT NULL field has neither a null default nor a null value.
    pub open spec fn legal(self) -> bool {
        self.not_null ==> self.default is Some && self.value is Some
    }

    /// The state after the NOT NULL constraint is set: a null default becomes
    /// false, and a null value becomes the default so repaired.
    pub open spec fn with_not_null(self) -> FieldState {
        let default = self.default.unwrap_or(false);
        FieldState {
            not_null: true,
            default: Some(default),
            value: Some(self.value.unwrap_or(default)),
        }
    }

    /// The state after the default is set: a null value takes the new default
    /// at once, any other value stays.
    pub open spec fn with_default(self, new_default: bool) -> FieldState {
        FieldState {
            not_null: self.not_null,
            default: Some(new_default),
            value: Some(self.value.unwrap_or(new_default)),
        }
    }

    /// Whether the field accepts `new_value`: only a NOT NULL field refuses,
    /// and only null.
    pub open spec fn accepts(self, new_value: Option<bool>) -> bool {
        !(self.not_null && new_value is None)
    }

    /// The state with another value, constraint and default kept.
    pub open spec fn with_value(self, new_value: Option<bool>) -> FieldState {
        FieldState { not_null: self.not_null, default: self.default, value: new_value }
    }

    /// The SQL type of the column: `BOOLEAN`, then ` NOT NULL` if the
    /// constraint is set, then ` DEFAULT TRUE` or ` DEFAULT FALSE` if there
    /// is a default.
    pub open spec fn sql_type(self) -> Seq<char> {
        "BOOLEAN"@ + (if self.not_null {
            " NOT NULL"@
        } else {
            Seq::empty()
        }) + (match self.default {
            Some(true) => " DEFAULT TRUE"@,
            Some(false) => " DEFAULT FALSE"@,
            None => Seq::empty(),
        })
    }

    /// The six SQL types, spelled out. The value plays no part.
    pub proof fn lemma_sql_types(self)
        ensures
            !self.not_null && self.default is None ==> self.sql_type() == "BOOLEAN"@,
            !self.not_null && self.default == Some(true) ==> self.sql_type()
                == "BOOLEAN DEFAULT TRUE"@,
            !self.not_null && self.default == Some(false) ==> self.sql_type()
                == "BOOLEAN DEFAULT FALSE"@,
            self.not_null && self.default is None ==> self.sql_type() == "BOOLEAN NOT NULL"@,
            self.not_null && self.default == Some(true) ==> self.sql_type()
                == "BOOLEAN NOT NULL DEFAULT TRUE"@,
            self.not_null && self.default == Some(false) ==> self.sql_type()
                == "BOOLEAN NOT NULL DEFAULT FALSE"@,
            self.sql_type() == self.with_value(None).sql_type(),
    {
        reveal_strlit("BOOLEAN");
        reveal_strlit(" NOT NULL");
        reveal_strlit(" DEFAULT TRUE");
        reveal_strlit(" DEFAULT FALSE");
        reveal_strlit("BOOLEAN DEFAULT TRUE");
        reveal_strlit("BOOLEAN DEFAULT FALSE");
        reveal_strlit("BOOLEAN NOT NULL");
        reveal_strlit("BOOLEAN NOT NULL DEFAULT TRUE");
        reveal_strlit("BOOLEAN NOT NULL DEFAULT FALSE");
    }

    /// Of the eighteen states, thirteen are legal: the nine nullable ones and
    /// the four NOT NULL ones without a null. The other five are not.
    pub proof fn lemma_thirteen_legal_states()
        ensures
            Set::new(|s: FieldState| true).finite(),
            Set::new(|s: FieldState| true).len() == 18,
            Set::new(|s: FieldState| s.legal()).finite(),
            Set::new(|s: FieldState| s.legal()).len() == 13,
            Set::new(|s: FieldState| !s.legal()).finite(),
            Set::new(|s: FieldState| !s.legal()).len() == 5,
    {
        let st = |not_null: bool, default: Option<bool>, value: Option<bool>|
            FieldState { not_null, default, value };
        let t = Some(true);
        let f = Some(false);
        let n = None::<bool>;
        let nullable = set![
            st(false, f, f),
            st(false, f, t),
            st(false, f, n),
            st(false, t, f),
            st(false, t, t),
            st(false, t, n),
            st(false, n, f),
            st(false, n, t),
            st(false, n, n)
        ];
        let constrained = set![st(true, f, f), st(true, f, t), st(true, t, f), st(true, t, t)];
        let illegal = set![
            st(true, f, n),
            st(true, t, n),
            st(true, n, f),
            st(true, n, t),
            st(true, n, n)
        ];
        assert forall|s: FieldState| #[trigger]
            s.legal() <==> nullable.contains(s) || constrained.contains(s) by {
            Self::lemma_three_values(s);
        }
        assert forall|s: FieldState| !s.legal() <==> #[trigger] illegal.contains(s) by {
            Self::lemma_three_values(s);
        }
        assert(Set::new(|s: FieldState| s.legal()) =~= nullable + constrained);
        assert(Set::new(|s: FieldState| !s.legal()) =~= illegal);
        assert(Set::new(|s: FieldState| true) =~= nullable + constrained + illegal);
        vstd::set_lib::lemma_set_disjoint_lens(nullable, constrained);
        vstd::set_lib::lemma_set_disjoint_lens(nullable + constrained, illegal);
    }

    /// Default and value are each one of three values.
    proof fn lemma_three_values(s: FieldState)
        ensures
            s.default == Some(true) || s.default == Some(false) || s.default == None::<bool>,
            s.value == Some(true) || s.value == Some(false) || s.value == None::<bool>,
    {
        match s.default {
            Some(d) => {
                assert(d || !d);
            },
            None => {},
        }
        match s.value {
            Some(v) => {
                assert(v || !v);
            },
            None => {},
        }
    }

    /// Every transition leads from a legal state to a legal state.
    pub proof fn lemma_transitions_legal(self, new_default: bool, new_value: Option<bool>)
        requires
            self.legal(),
        ensures
            self.with_not_null().legal(),
            self.with_default(new_default).legal(),
            self.accepts(new_value) ==> self.with_value(new_value).legal(),
    {
    }

    /// When the result of a logical operator is a value that the left
    /// operand's constraint accepts: NOT always is; AND is unless the left
    /// operand is NOT NULL and true and the right one null; OR is unless the
    /// left operand is NOT NULL and false and the right one null.
    pub proof fn lemma_logic_acceptance(self, other: FieldState)
        requires
            self.legal(),
        ensures
            self.accepts(kleene_not(self.value)),
            self.accepts(kleene_and(self.value, other.value)) <==> !(self.not_null && known_true(
                self.value,
            ) && other.value is None),
            self.accepts(kleene_or(self.value, other.value)) <==> !(self.not_null && known_false(
                self.value,
            ) && other.value is None),
    {
    }

    /// Setting NOT NULL twice gives the same state as setting it once.
    pub proof fn lemma_not_null_idempotent(self)
        ensures
            self.with_not_null().with_not_null() == self.with_not_null(),
    {
    }

    /// Setting NOT NULL leaves a state that is already NOT NULL as it is.
    pub proof fn lemma_not_null_fixes_constrained(self)
        requires
            self.legal(),
            self.not_null,
        ensures
            self.with_not_null() == self,
    {
    }

    /// Repair: when NOT NULL is set on a state with no default and no value,
    /// both become false, and a default set afterwards replaces the default
    /// only, since the value is no longer null.
    pub proof fn lemma_repair_then_default(self, new_default: bool)
        requires
            self.default is None,
            self.value is None,
        ensures
            self.with_not_null().default == Some(false),
            self.with_not_null().value == Some(false),
            self.with_not_null().with_default(new_default).default == Some(new_default),
            self.with_not_null().with_default(new_default).value == Some(false),
    {
    }

    /// In the other order the new default does reach the value: a default set
    /// on a state with no value becomes the value, and NOT NULL set afterwards
    /// finds nothing to repair.
    pub proof fn lemma_default_then_not_null(self, new_default: bool)
        requires
            self.value is None,
        ensures
            self.with_default(new_default).with_not_null().default == Some(new_default),
            self.with_default(new_default).with_not_null().value == Some(new_default),
    {
    }
}

} // verus!
