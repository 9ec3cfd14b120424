//! Properties given either as one fixed value or per grid coordinate.

use vstd::prelude::*;
use crate::diag::{Diagnostic, Span};

verus! {

/// A pure function from zero-based (column, row) grid coordinates to a
/// property value, written by the author of the document.
///
/// An implementation fixes its outcome in `spec_call` and must make `call`
/// return exactly that: identical coordinates therefore always yield
/// identical results, within a pass and across passes. `None` stands for an
/// evaluation failure; resolution tags it with the failing coordinate.
pub trait CellFunction<T>: Sized {
    /// The value this function yields at a coordinate, or `None` where it
    /// fails.
    spec fn spec_call(&self, col: usize, row: usize) -> Option<T>;

    /// Evaluate the function at a coordinate.
    fn call(&self, col: usize, row: usize) -> (r: Option<T>)
        ensures
            r == self.spec_call(col, row);
}

/// A per-coordinate function that alternates between two values by column
/// parity, as in a striped table.
#[derive(Clone, Copy, PartialEq, Eq, Debug)]
pub struct Striped<T> {
    /// The value for odd columns.
    pub odd: T,
    /// The value for even columns.
    pub even: T,
}

impl<T: Copy> CellFunction<T> for Striped<T> {
    open spec fn spec_call(&self, col: usize, row: usize) -> Option<T> {
        if col % 2 == 1 {
            Some(self.odd)
        } else {
            Some(self.even)
        }
    }

    fn call(&self, col: usize, row: usize) -> (r: Option<T>)
        ensures
            r == self.spec_call(col, row),
    {
        if col % 2 == 1 {
            Some(self.odd)
        } else {
            Some(self.even)
        }
    }
}

/// A per-coordinate function that picks a value by column and fails on
/// columns beyond the listed ones.
#[derive(Clone, PartialEq, Eq, Debug)]
pub struct PerColumn<T> {
    pub values: Vec<T>,
}

impl<T: Copy> CellFunction<T> for PerColumn<T> {
    open spec fn spec_call(&self, col: usize, row: usize) -> Option<T> {
        if col < self.values@.len() {
            Some(self.values@[col as int])
        } else {
            None
        }
    }

    fn call(&self, col: usize, row: usize) -> (r: Option<T>)
        ensures
            r == self.spec_call(col, row),
    {
        if col < self.values.len() {
            Some(self.values[col])
        } else {
            None
        }
    }
}

/// A property that is either one fixed value for the whole grid or a pure
/// function of the grid coordinate. A function carries the source location
/// of the call that defined it, so that a failure can be attributed.
#[derive(Clone, Copy, PartialEq, Eq, Debug)]
pub enum Celled<T, F> {
    /// The same value at every coordinate.
    Value(T),
    /// A value computed per coordinate.
    Func(F, Span),
}

impl<T: Copy, F: CellFunction<T>> Celled<T, F> {
    /// What evaluation at a coordinate yields: the fixed value, the
    /// function's value, or an error tagged with the failing coordinate and
    /// the function's defining source location.
    pub open spec fn spec_resolve(&self, col: usize, row: usize) -> Result<T, Diagnostic> {
        match self {
            Celled::Value(v) => Ok(*v),
            Celled::Func(f, span) => match f.spec_call(col, row) {
                Some(v) => Ok(v),
                None => Err(Diagnostic::FunctionEvaluation { col, row, span: *span }),
            },
        }
    }

    /// Evaluate this property at a grid coordinate.
    pub fn at(&self, col: usize, row: usize) -> (r: Result<T, Diagnostic>)
        ensures
            r == self.spec_resolve(col, row),
    {
        match self {
            Celled::Value(v) => Ok(*v),
            Celled::Func(f, span) => match f.call(col, row) {
                Some(v) => Ok(v),
                None => Err(Diagnostic::FunctionEvaluation { col, row, span: *span }),
            },
        }
    }
}

/// Evaluating a celled property twice at identical coordinates yields
/// identical results: any two values that `at` may return for the same
/// coordinate are equal.
pub proof fn lemma_celled_deterministic<T: Copy, F: CellFunction<T>>(
    celled: &Celled<T, F>,
    col: usize,
    row: usize,
    first: Result<T, Diagnostic>,
    second: Result<T, Diagnostic>,
)
    requires
        first == celled.spec_resolve(col, row),
        second == celled.spec_resolve(col, row),
    ensures
        first == second,
{
}

} // verus!
