//! A boolean field: a packed state together with its display texts.

use std::fmt::Display;
use std::marker::PhantomData;
use vstd::prelude::*;
use crate::display::BooleanDisplayConfig;
use crate::packed::{BooleanOps, PackedBooleanData};
use crate::state::FieldState;
use crate::tristate::{kleene_and, kleene_not, kleene_or};

verus! {

/// Read-only access to the state of a field. Its view is that state.
#[derive(Debug, Clone, Copy)]
pub struct BooleanDataView<'a>(&'a PackedBooleanData);

impl<'a> View for BooleanDataView<'a> {
    type V = FieldState;

    closed spec fn view(&self) -> FieldState {
        self.0@
    }
}

impl<'a> BooleanDataView<'a> {
    /// The state seen is always legal.
    pub proof fn lemma_state_legal(self)
        ensures
            self@.legal(),
    {
        self.0.lemma_view_legal();
    }

    /// The current value, `None` for null.
    pub fn get_value(&self) -> (v: Option<bool>)
        ensures
            v == self@.value,
            self@.not_null ==> v is Some,
    {
        self.0.value()
    }

    /// Whether the NOT NULL constraint is set.
    pub fn is_not_null(&self) -> (b: bool)
        ensures
            b == self@.not_null,
    {
        self.0.not_null()
    }

    /// The default value, `None` for null.
    pub fn default_value(&self) -> (v: Option<bool>)
        ensures
            v == self@.default,
            self@.not_null ==> v is Some,
    {
        self.0.default_value()
    }
}

/// The text of a value where no display texts are set.
pub open spec fn plain_text(value: Option<bool>) -> Seq<char> {
    match value {
        Some(true) => "true"@,
        Some(false) => "false"@,
        None => "NULL"@,
    }
}

/// What a field is: its state, and the display texts if any are set.
pub struct FieldModel<T: Display + Clone + 'static> {
    pub state: FieldState,
    pub display: Option<BooleanDisplayConfig<T>>,
}

/// A boolean column: value, default and NOT NULL constraint in one byte, and
/// an optional configuration of the texts to show. Its view is a `FieldModel`.
pub struct BooleanField<T: Display + Clone + 'static> {
    data: PackedBooleanData,
    display_config: Option<BooleanDisplayConfig<T>>,
    _marker: PhantomData<T>,
}

impl<T: Display + Clone + 'static> View for BooleanField<T> {
    type V = FieldModel<T>;

    closed spec fn view(&self) -> FieldModel<T> {
        FieldModel { state: self.data@, display: self.display_config }
    }
}

impl<T: Display + Clone + 'static> Clone for BooleanField<T> {
    /// A copy with the same state and a clone of the display texts.
    fn clone(&self) -> (copy: Self)
        ensures
            copy@.state == self@.state,
            self@.display is None ==> copy@.display is None,
            self@.display is Some ==> copy@.display is Some && cloned::<BooleanDisplayConfig<T>>(
                self@.display->0,
                copy@.display->0,
            ),
    {
        Self { data: self.data, display_config: self.display_config.clone(), _marker: PhantomData }
    }
}

impl<T: Display + Clone + 'static> BooleanField<T> {
    /// The field that is nullable, has no default and no display texts, and
    /// holds `value`.
    pub closed spec fn holding(value: Option<bool>) -> Self {
        BooleanField {
            data: PackedBooleanData::of(FieldState::initial().with_value(value)),
            display_config: None,
            _marker: PhantomData,
        }
    }

    /// The state of a field is always legal.
    pub proof fn lemma_state_legal(self)
        ensures
            self@.state.legal(),
    {
        self.data.lemma_view_legal();
    }

    /// What `holding` stands for.
    pub proof fn lemma_holding_view(value: Option<bool>)
        ensures
            Self::holding(value)@ == (FieldModel::<T> {
                state: FieldState::initial().with_value(value),
                display: None,
            }),
    {
        PackedBooleanData::lemma_of_view(FieldState::initial().with_value(value));
    }

    /// A fresh field: nullable, with no default, no value and no display
    /// texts.
    pub fn new() -> (field: Self)
        ensures
            field == Self::holding(None),
            field@ == (FieldModel::<T> { state: FieldState::initial(), display: None }),
    {
        let data = BooleanOps::new_data();
        proof {
            use_type_invariant(&data);
            data.lemma_eq_iff_same_state(data);
        }
        Self { data, display_config: None, _marker: PhantomData }
    }

    /// Read-only access to the state.
    pub fn data(&self) -> (view: BooleanDataView<'_>)
        ensures
            view@ == self@.state,
    {
        BooleanDataView(&self.data)
    }

    /// The display texts, for reading.
    pub fn display_config(&self) -> (config: Option<&BooleanDisplayConfig<T>>)
        ensures
            config is Some <==> self@.display is Some,
            config is Some ==> *config->0 == self@.display->0,
    {
        self.display_config.as_ref()
    }

    /// Sets the display texts for false, true and, optionally, null.
    pub fn with_display(
        self,
        false_display: T,
        true_display: T,
        null_display: Option<T>,
    ) -> (field: Self)
        ensures
            field@ == (FieldModel {
                state: self@.state,
                display: Some(BooleanDisplayConfig { false_display, true_display, null_display }),
            }),
    {
        let mut field = self;
        field.display_config = Some(
            BooleanDisplayConfig { false_display, true_display, null_display },
        );
        field
    }

    /// The display texts, for changing them in place.
    pub fn display_config_mut(&mut self) -> (config: &mut Option<BooleanDisplayConfig<T>>)
        ensures
            *config == old(self)@.display,
            final(self)@ == (FieldModel { state: old(self)@.state, display: *final(config) }),
    {
        &mut self.display_config
    }

    /// Sets the NOT NULL constraint, repairing a null default to false and a
    /// null value to the default.
    ///
    /// On a field that is NOT NULL already this changes nothing.
    pub fn not_null(self) -> (field: Self)
        ensures
            field@ == (FieldModel { state: self@.state.with_not_null(), display: self@.display }),
            field@.state.not_null,
            self@.state.not_null ==> field@ == self@,
    {
        let mut field = self;
        BooleanOps::set_not_null(&mut field.data);
        field
    }

    /// The current value, `None` for null.
    pub fn get_value(&self) -> (v: Option<bool>)
        ensures
            v == self@.state.value,
            self@.state.not_null ==> v is Some,
    {
        self.data().get_value()
    }

    /// Whether the NOT NULL constraint is set.
    pub fn is_not_null(&self) -> (b: bool)
        ensures
            b == self@.state.not_null,
    {
        self.data().is_not_null()
    }

    /// Sets the default. A field whose value is null takes the new default as
    /// its value at once; any other value stays.
    pub fn default(self, default: bool) -> (field: Self)
        ensures
            field@ == (FieldModel { state: self@.state.with_default(default), display: self@.display }),
    {
        let mut field = self;
        BooleanOps::set_default(&mut field.data, default);
        field
    }

    /// Sets the value, keeping constraint, default and display texts.
    ///
    /// A NOT NULL field refuses null with `"Field cannot be NULL"` and stays
    /// as it was; every other call succeeds.
    pub fn set_value(&mut self, value: Option<bool>) -> (res: Result<(), String>)
        ensures
            res is Ok <==> old(self)@.state.accepts(value),
            res is Ok ==> final(self)@ == (FieldModel {
                state: old(self)@.state.with_value(value),
                display: old(self)@.display,
            }),
            res is Err ==> *final(self) == *old(self) && res->Err_0@ == "Field cannot be NULL"@,
    {
        BooleanOps::set_value(&mut self.data, value)
    }

    /// Three-valued AND with another field. The result takes constraint,
    /// default and display texts from `self`; those of `other` are dropped.
    ///
    /// The result must be a value that the constraint of `self` accepts:
    /// where `self` is NOT NULL and true, `other` may not be null.
    pub fn and(self, other: Self) -> (field: Self)
        requires
            self@.state.accepts(kleene_and(self@.state.value, other@.state.value)),
        ensures
            field@ == (FieldModel {
                state: self@.state.with_value(kleene_and(self@.state.value, other@.state.value)),
                display: self@.display,
            }),
    {
        Self {
            data: BooleanOps::and(&self.data, &other.data),
            display_config: self.display_config,
            _marker: PhantomData,
        }
    }

    /// Three-valued OR with another field. The result takes constraint,
    /// default and display texts from `self`; those of `other` are dropped.
    ///
    /// The result must be a value that the constraint of `self` accepts:
    /// where `self` is NOT NULL and false, `other` may not be null.
    pub fn or(self, other: Self) -> (field: Self)
        requires
            self@.state.accepts(kleene_or(self@.state.value, other@.state.value)),
        ensures
            field@ == (FieldModel {
                state: self@.state.with_value(kleene_or(self@.state.value, other@.state.value)),
                display: self@.display,
            }),
    {
        Self {
            data: BooleanOps::or(&self.data, &other.data),
            display_config: self.display_config,
            _marker: PhantomData,
        }
    }

    /// Three-valued NOT, with constraint, default and display texts kept.
    pub fn not(self) -> (field: Self)
        ensures
            field@ == (FieldModel {
                state: self@.state.with_value(kleene_not(self@.state.value)),
                display: self@.display,
            }),
    {
        Self {
            data: BooleanOps::not(&self.data),
            display_config: self.display_config,
            _marker: PhantomData,
        }
    }

    /// The text for the current value: by the display texts if they are set,
    /// else `true`, `false` or `NULL`.
    pub fn display(&self) -> (text: String)
        ensures
            match self@.display {
                Some(config) => config.renders(self@.state.value, text),
                None => text@ == plain_text(self@.state.value),
            },
    {
        match self.display_config.as_ref() {
            Some(config) => {
                let value = self.data.value();
                match value {
                    Some(true) => config.true_display.to_string(),
                    Some(false) => config.false_display.to_string(),
                    None => match config.null_display.as_ref() {
                        Some(s) => s.to_string(),
                        None => "NULL".to_string(),
                    },
                }
            },
            None => match self.data.value() {
                Some(true) => "true".to_string(),
                Some(false) => "false".to_string(),
                None => "NULL".to_string(),
            },
        }
    }

    /// Renders the SQL type of the column with its constraints, in the fixed
    /// order type, NOT NULL, DEFAULT.
    pub fn to_sql(&self) -> (sql: String)
        ensures
            sql@ == self@.state.sql_type(),
    {
        BooleanOps::to_sql(&self.data)
    }
}

impl<T: Display + Clone + 'static> Default for BooleanField<T> {
    /// A fresh field, as `new` makes it.
    fn default() -> Self
        returns
            Self::holding(None),
    {
        Self::new()
    }
}

impl<T: Display + Clone + 'static> From<bool> for BooleanField<T> {
    /// A fresh field holding `value`.
    fn from(value: bool) -> (field: Self)
        ensures
            field@ == (FieldModel::<T> {
                state: FieldState::initial().with_value(Some(value)),
                display: None,
            }),
    {
        let mut field = Self::new();
        field.set_value(Some(value)).unwrap();
        proof {
            use_type_invariant(&field.data);
            field.data.lemma_eq_iff_same_state(field.data);
        }
        field
    }
}

impl<T: Display + Clone + 'static> vstd::std_specs::convert::FromSpecImpl<bool> for BooleanField<T> {
    open spec fn obeys_from_spec() -> bool {
        true
    }

    open spec fn from_spec(value: bool) -> Self {
        Self::holding(Some(value))
    }
}

impl<T: Display + Clone + 'static> From<Option<bool>> for BooleanField<T> {
    /// A fresh field holding `value`, which may be null.
    fn from(value: Option<bool>) -> (field: Self)
        ensures
            field@ == (FieldModel::<T> {
                state: FieldState::initial().with_value(value),
                display: None,
            }),
    {
        let mut field = Self::new();
        field.set_value(value).unwrap();
        proof {
            use_type_invariant(&field.data);
            field.data.lemma_eq_iff_same_state(field.data);
        }
        field
    }
}

impl<T: Display + Clone + 'static> vstd::std_specs::convert::FromSpecImpl<Option<bool>> for BooleanField<T> {
    open spec fn obeys_from_spec() -> bool {
        true
    }

    open spec fn from_spec(value: Option<bool>) -> Self {
        Self::holding(value)
    }
}

} // verus!
