//! The three-valued domain {True, False, Null} and its logic.

use vstd::prelude::*;

verus! {

/// One of the three values a nullable boolean can take.
///
/// Its view is the corresponding `Option<bool>`, with `Null` as `None`.
#[derive(Debug, Clone, Copy, PartialEq, Eq, Structural)]
pub enum OptionBool {
    True,
    False,
    Null,
}

impl View for OptionBool {
    type V = Option<bool>;

    open spec fn view(&self) -> Option<bool> {
        match self {
            OptionBool::True => Some(true),
            OptionBool::False => Some(false),
            OptionBool::Null => None,
        }
    }
}

impl OptionBool {
    /// The tri-state value that stands for `opt`: the inverse of the view.
    pub open spec fn of(opt: Option<bool>) -> OptionBool {
        match opt {
            Some(true) => OptionBool::True,
            Some(false) => OptionBool::False,
            None => OptionBool::Null,
        }
    }

    /// `of` and the view are inverse to each other.
    pub proof fn lemma_of_view(ob: OptionBool, opt: Option<bool>)
        ensures
            OptionBool::of(ob@) == ob,
            OptionBool::of(opt)@ == opt,
    {
    }
}

impl From<Option<bool>> for OptionBool {
    fn from(opt: Option<bool>) -> (ob: Self)
        ensures
            ob@ == opt,
    {
        match opt {
            Some(true) => OptionBool::True,
            Some(false) => OptionBool::False,
            None => OptionBool::Null,
        }
    }
}

impl vstd::std_specs::convert::FromSpecImpl<Option<bool>> for OptionBool {
    open spec fn obeys_from_spec() -> bool {
        true
    }

    open spec fn from_spec(opt: Option<bool>) -> Self {
        OptionBool::of(opt)
    }
}

impl From<OptionBool> for Option<bool> {
    fn from(ob: OptionBool) -> (opt: Self)
        ensures
            opt == ob@,
    {
        match ob {
            OptionBool::True => Some(true),
            OptionBool::False => Some(false),
            OptionBool::Null => None,
        }
    }
}

impl vstd::std_specs::convert::FromSpecImpl<OptionBool> for Option<bool> {
    open spec fn obeys_from_spec() -> bool {
        true
    }

    open spec fn from_spec(ob: OptionBool) -> Self {
        ob@
    }
}

/// Whether `a` is known and true.
pub open spec fn known_true(a: Option<bool>) -> bool {
    a matches Some(v) && v
}

/// Whether `a` is known and false.
pub open spec fn known_false(a: Option<bool>) -> bool {
    a matches Some(v) && !v
}

/// Three-valued conjunction: false if either side is false, true if both are
/// true, unknown otherwise.
pub open spec fn kleene_and(a: Option<bool>, b: Option<bool>) -> Option<bool> {
    if known_false(a) || known_false(b) {
        Some(false)
    } else if known_true(a) && known_true(b) {
        Some(true)
    } else {
        None
    }
}

/// Three-valued disjunction: true if either side is true, false if both are
/// false, unknown otherwise.
pub open spec fn kleene_or(a: Option<bool>, b: Option<bool>) -> Option<bool> {
    if known_true(a) || known_true(b) {
        Some(true)
    } else if known_false(a) && known_false(b) {
        Some(false)
    } else {
        None
    }
}

/// Three-valued negation: flips a known value, leaves unknown as it is.
pub open spec fn kleene_not(a: Option<bool>) -> Option<bool> {
    match a {
        Some(v) => Some(!v),
        None => None,
    }
}

/// The truth tables of the three operators, entry by entry.
pub proof fn lemma_kleene_tables()
    ensures
        kleene_and(Some(true), Some(true)) == Some(true),
        kleene_and(Some(true), Some(false)) == Some(false),
        kleene_and(Some(true), None) == None::<bool>,
        kleene_and(Some(false), Some(true)) == Some(false),
        kleene_and(Some(false), Some(false)) == Some(false),
        kleene_and(Some(false), None) == Some(false),
        kleene_and(None, Some(true)) == None::<bool>,
        kleene_and(None, Some(false)) == Some(false),
        kleene_and(None, None) == None::<bool>,
        kleene_or(Some(true), Some(true)) == Some(true),
        kleene_or(Some(true), Some(false)) == Some(true),
        kleene_or(Some(true), None) == Some(true),
        kleene_or(Some(false), Some(true)) == Some(true),
        kleene_or(Some(false), Some(false)) == Some(false),
        kleene_or(Some(false), None) == None::<bool>,
        kleene_or(None, Some(true)) == Some(true),
        kleene_or(None, Some(false)) == None::<bool>,
        kleene_or(None, None) == None::<bool>,
        kleene_not(Some(true)) == Some(false),
        kleene_not(Some(false)) == Some(true),
        kleene_not(None) == None::<bool>,
{
}

/// On known values the operators are the two-valued ones, and the result is
/// unknown only if an operand is.
pub proof fn lemma_kleene_known(a: Option<bool>, b: Option<bool>)
    ensures
        a is Some && b is Some ==> kleene_and(a, b) == Some(a->0 && b->0),
        a is Some && b is Some ==> kleene_or(a, b) == Some(a->0 || b->0),
        kleene_not(a) is Some <==> a is Some,
{
}

} // verus!
