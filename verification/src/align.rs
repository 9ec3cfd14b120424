//! Two-dimensional alignment and its axis-wise merge.

use vstd::prelude::*;

verus! {

/// Horizontal alignment of a cell's content.
#[derive(Clone, Copy, PartialEq, Eq, Structural, Debug)]
pub enum HAlign {
    Left,
    Center,
    Right,
}

/// Vertical alignment of a cell's content.
#[derive(Clone, Copy, PartialEq, Eq, Structural, Debug)]
pub enum VAlign {
    Top,
    Horizon,
    Bottom,
}

/// An alignment that may fix either axis, both, or neither. An axis left as
/// `None` inherits the outer scope's choice for that axis.
#[derive(Clone, Copy, PartialEq, Eq, Debug)]
pub struct Align {
    pub x: Option<HAlign>,
    pub y: Option<VAlign>,
}

impl Align {
    /// Axis-wise merge: each axis keeps the inner choice where one is given
    /// and inherits the outer one otherwise.
    pub open spec fn spec_fold(self, outer: Align) -> Align {
        Align {
            x: if self.x is Some { self.x } else { outer.x },
            y: if self.y is Some { self.y } else { outer.y },
        }
    }

    /// Merge this alignment over an outer one, axis by axis.
    pub fn fold(self, outer: Align) -> (r: Align)
        ensures
            r == self.spec_fold(outer),
    {
        Align {
            x: if self.x.is_some() { self.x } else { outer.x },
            y: if self.y.is_some() { self.y } else { outer.y },
        }
    }
}

/// Axis-wise merge of an alignment with itself changes nothing.
pub proof fn lemma_align_fold_idempotent(align: Align)
    ensures
        align.spec_fold(align) == align,
{
}

} // verus!
