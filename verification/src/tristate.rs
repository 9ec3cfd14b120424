//! Tri-state property values: inherit from the outer scope or override it.

use vstd::prelude::*;

verus! {

/// One scope's contribution to a property: inherit from the outer scope
/// (`Auto`) or supply an explicit value (`Custom`).
///
/// An explicitly empty value, such as `Custom(None)` for "no fill", is
/// distinct from `Auto`: the former is a definite choice, the latter defers
/// outward.
#[derive(Clone, Copy, PartialEq, Eq, Debug)]
pub enum TriState<T> {
    /// Inherit the value from the outer scope.
    Auto,
    /// Override the outer scope with this value.
    Custom(T),
}

impl<T> TriState<T> {
    /// The replace merge strategy: the innermost `Custom` wins outright and
    /// `Auto` defers to the outer value.
    pub open spec fn spec_unwrap_or(self, outer: T) -> T {
        match self {
            TriState::Auto => outer,
            TriState::Custom(v) => v,
        }
    }

    /// Resolve a replace-type property against the outer scope's value.
    pub fn unwrap_or(self, outer: T) -> (r: T)
        ensures
            r == self.spec_unwrap_or(outer),
    {
        match self {
            TriState::Auto => outer,
            TriState::Custom(v) => v,
        }
    }
}

/// A replace-type property overridden with `Custom(value)` resolves to
/// `value`, whatever the outer scope supplies.
pub proof fn lemma_custom_wins<T>(value: T, outer: T)
    ensures
        TriState::Custom(value).spec_unwrap_or(outer) == value,
{
}

} // verus!
