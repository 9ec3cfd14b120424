//! Fills and strokes for cells.

use vstd::prelude::*;

verus! {

/// A solid fill color.
#[derive(Clone, Copy, PartialEq, Eq, Structural, Debug)]
pub struct Paint {
    pub red: u8,
    pub green: u8,
    pub blue: u8,
}

/// A partial stroke specification: fields left as `None` inherit the outer
/// scope's choice.
#[derive(Clone, Copy, PartialEq, Eq, Debug)]
pub struct Stroke {
    pub paint: Option<Paint>,
    pub thickness: Option<i64>,
}

/// A fully determined stroke, as handed to the layout engine.
#[derive(Clone, Copy, PartialEq, Eq, Debug)]
pub struct FixedStroke {
    pub paint: Paint,
    pub thickness: i64,
}

/// Stroke thickness used when no scope supplies one.
pub const DEFAULT_STROKE_THICKNESS: i64 = 1;

impl Stroke {
    /// Field-wise merge: each field keeps the inner value where one is given
    /// and inherits the outer one otherwise.
    pub open spec fn spec_fold(self, outer: Stroke) -> Stroke {
        Stroke {
            paint: if self.paint is Some { self.paint } else { outer.paint },
            thickness: if self.thickness is Some { self.thickness } else { outer.thickness },
        }
    }

    /// Merge this partial stroke over an outer one, field by field.
    pub fn fold(self, outer: Stroke) -> (r: Stroke)
        ensures
            r == self.spec_fold(outer),
    {
        Stroke {
            paint: if self.paint.is_some() { self.paint } else { outer.paint },
            thickness: if self.thickness.is_some() { self.thickness } else { outer.thickness },
        }
    }

    /// The concrete stroke this partial one stands for, with the compiled-in
    /// defaults (black paint, unit thickness) filling the open fields.
    pub open spec fn spec_unwrap_or_default(self) -> FixedStroke {
        FixedStroke {
            paint: match self.paint {
                Some(p) => p,
                None => Paint { red: 0, green: 0, blue: 0 },
            },
            thickness: match self.thickness {
                Some(t) => t,
                None => DEFAULT_STROKE_THICKNESS,
            },
        }
    }

    /// Fill the open fields of this partial stroke with the compiled-in
    /// defaults.
    pub fn unwrap_or_default(self) -> (r: FixedStroke)
        ensures
            r == self.spec_unwrap_or_default(),
    {
        FixedStroke {
            paint: match self.paint {
                Some(p) => p,
                None => Paint { red: 0, green: 0, blue: 0 },
            },
            thickness: match self.thickness {
                Some(t) => t,
                None => DEFAULT_STROKE_THICKNESS,
            },
        }
    }
}

/// Field-wise merge of a stroke with itself changes nothing.
pub proof fn lemma_stroke_fold_idempotent(stroke: Stroke)
    ensures
        stroke.spec_fold(stroke) == stroke,
{
}

} // verus!
