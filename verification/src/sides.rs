//! Four-sided values (insets) and their field-wise merge.

use vstd::prelude::*;

verus! {

/// A value for each side of a rectangle, such as a cell's inset.
#[derive(Clone, Copy, PartialEq, Eq, Debug)]
pub struct Sides<T> {
    pub left: T,
    pub top: T,
    pub right: T,
    pub bottom: T,
}

impl<T: Copy> Sides<T> {
    /// The same value on every side.
    pub open spec fn spec_splat(value: T) -> Sides<T> {
        Sides { left: value, top: value, right: value, bottom: value }
    }

    /// Build a four-sided value with the same value on every side.
    pub fn splat(value: T) -> (r: Sides<T>)
        ensures
            r == Self::spec_splat(value),
    {
        Sides { left: value, top: value, right: value, bottom: value }
    }
}

impl<T: Copy> Sides<Option<T>> {
    /// Field-wise merge of two partial four-sided values: each side keeps the
    /// inner value where one is given and inherits the outer one otherwise.
    pub open spec fn spec_fold(self, outer: Sides<Option<T>>) -> Sides<Option<T>> {
        Sides {
            left: if self.left is Some { self.left } else { outer.left },
            top: if self.top is Some { self.top } else { outer.top },
            right: if self.right is Some { self.right } else { outer.right },
            bottom: if self.bottom is Some { self.bottom } else { outer.bottom },
        }
    }

    /// Merge this partial four-sided value over an outer partial one,
    /// side by side.
    pub fn fold(self, outer: Sides<Option<T>>) -> (r: Sides<Option<T>>)
        ensures
            r == self.spec_fold(outer),
    {
        Sides {
            left: if self.left.is_some() { self.left } else { outer.left },
            top: if self.top.is_some() { self.top } else { outer.top },
            right: if self.right.is_some() { self.right } else { outer.right },
            bottom: if self.bottom.is_some() { self.bottom } else { outer.bottom },
        }
    }

    /// Field-wise merge against a fully concrete outer value: each side keeps
    /// the inner value where one is given and takes the outer one otherwise.
    /// The result is always concrete.
    pub open spec fn spec_fold_or(self, outer: Sides<T>) -> Sides<T> {
        Sides {
            left: match self.left {
                Some(v) => v,
                None => outer.left,
            },
            top: match self.top {
                Some(v) => v,
                None => outer.top,
            },
            right: match self.right {
                Some(v) => v,
                None => outer.right,
            },
            bottom: match self.bottom {
                Some(v) => v,
                None => outer.bottom,
            },
        }
    }

    /// Resolve this partial four-sided value against a concrete outer value.
    pub fn fold_or(self, outer: Sides<T>) -> (r: Sides<T>)
        ensures
            r == self.spec_fold_or(outer),
    {
        Sides {
            left: match self.left {
                Some(v) => v,
                None => outer.left,
            },
            top: match self.top {
                Some(v) => v,
                None => outer.top,
            },
            right: match self.right {
                Some(v) => v,
                None => outer.right,
            },
            bottom: match self.bottom {
                Some(v) => v,
                None => outer.bottom,
            },
        }
    }
}

/// Field-wise merge of a four-sided value with itself changes nothing.
pub proof fn lemma_sides_fold_idempotent<T: Copy>(sides: Sides<Option<T>>)
    ensures
        sides.spec_fold(sides) == sides,
{
}

} // verus!
