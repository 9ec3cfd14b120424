//! Diagnostics raised during resolution, pinned to source locations.

use vstd::prelude::*;
use crate::introspection::Label;

verus! {

/// A location in the document's source, used to attribute diagnostics.
#[derive(Clone, Copy, PartialEq, Eq, Structural, Debug)]
pub struct Span {
    pub raw: u64,
}

/// An error surfaced by resolution.
#[derive(PartialEq, Eq, Debug)]
pub enum Diagnostic {
    /// A per-coordinate cell function failed to produce a value. The error is
    /// tagged with the failing coordinate and the source location of the call
    /// that defined the function.
    FunctionEvaluation { col: usize, row: usize, span: Span },
    /// A link's label was never found by the time the pass budget ran out.
    /// The error is pinned to the link's own source location.
    DanglingReference { span: Span, label: Label },
}

} // verus!
