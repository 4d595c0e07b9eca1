//! Display texts for the three values of a field.

use std::fmt::Display;
use vstd::prelude::*;
use vstd::string::to_string_from_display_ensures;

verus! {

/// The texts to show for false, for true and, if one is set, for null.
#[derive(Clone, Debug, PartialEq, Eq)]
pub struct BooleanDisplayConfig<T: Display + Clone + 'static> {
    /// Shown for false.
    pub false_display: T,
    /// Shown for true.
    pub true_display: T,
    /// Shown for null; without it null shows as `NULL`.
    pub null_display: Option<T>,
}

impl<T: Display + Clone + 'static> BooleanDisplayConfig<T> {
    /// The configured item that stands for `value`, if there is one: only
    /// null can be without.
    pub open spec fn chosen(self, value: Option<bool>) -> Option<T> {
        match value {
            Some(true) => Some(self.true_display),
            Some(false) => Some(self.false_display),
            None => self.null_display,
        }
    }

    /// Whether `text` is a rendering of `value` under this configuration:
    /// what the chosen item's `Display` gave, or `NULL` where nothing is
    /// configured for null.
    pub open spec fn renders(self, value: Option<bool>, text: String) -> bool {
        match self.chosen(value) {
            Some(item) => to_string_from_display_ensures::<T>(&item, text),
            None => text@ == "NULL"@,
        }
    }
}

/// A value together with the configuration to show it by.
pub struct BooleanDisplay<'a, T: Display + Clone + 'static> {
    value: Option<bool>,
    config: &'a BooleanDisplayConfig<T>,
}

impl<'a, T: Display + Clone + 'static> BooleanDisplay<'a, T> {
    /// The value to be shown.
    pub closed spec fn value(&self) -> Option<bool> {
        self.value
    }

    /// The configuration in use.
    pub closed spec fn config(&self) -> BooleanDisplayConfig<T> {
        *self.config
    }

    /// Pairs a value with the configuration to show it by.
    pub fn new(value: Option<bool>, config: &'a BooleanDisplayConfig<T>) -> (d: Self)
        ensures
            d.value() == value,
            d.config() == *config,
    {
        Self { value, config }
    }

    /// The text for the value: the configured item for true, false or null,
    /// rendered by its `Display`, and `NULL` for a null with nothing
    /// configured.
    pub fn display_value(&self) -> (text: String)
        ensures
            self.config().renders(self.value(), text),
    {
        match self.value {
            Some(true) => self.config.true_display.to_string(),
            Some(false) => self.config.false_display.to_string(),
            None => match self.config.null_display.as_ref() {
                Some(v) => v.to_string(),
                None => "NULL".to_string(),
            },
        }
    }
}

} // verus!
