//! Tables: authored cells, container defaults, and their resolution into
//! layout-facing cells.

use vstd::prelude::*;
use crate::align::Align;
use crate::celled::{CellFunction, Celled};
use crate::content::Content;
use crate::diag::Diagnostic;
use crate::paint::{FixedStroke, Paint, Stroke};
use crate::sides::Sides;
use crate::tristate::TriState;

verus! {

/// Inset applied on every side of a cell when no scope supplies one.
pub const DEFAULT_INSET: i64 = 5;

/// A resolved, layout-facing cell. Its fill is concrete: no `Auto` survives
/// resolution. The alignment may remain partially tri-state; it is folded
/// once more at display time. The inset is fully concrete, because the
/// container's inset always has a compiled-in default.
#[derive(PartialEq, Eq, Debug)]
pub struct Cell {
    /// The cell's body content.
    pub body: Content,
    /// The concrete fill behind the cell, `None` for no fill.
    pub fill: Option<Paint>,
    /// The alignment attached for the later per-cell display step.
    pub align: TriState<Align>,
    /// The concrete inset attached for the later per-cell display step.
    pub inset: Sides<i64>,
}

impl Cell {
    /// The alignment the cell's content is displayed with: the fold deferred
    /// at resolution is completed here against the alignment in effect at
    /// display time.
    pub open spec fn spec_display_align(&self, outer: Align) -> Align {
        match self.align {
            TriState::Custom(own) => own.spec_fold(outer),
            TriState::Auto => outer,
        }
    }

    /// Complete the deferred alignment fold at display time.
    pub fn display_align(&self, outer: Align) -> (r: Align)
        ensures
            r == self.spec_display_align(outer),
    {
        match self.align {
            TriState::Custom(own) => own.fold(outer),
            TriState::Auto => outer,
        }
    }
}

/// An authored table cell: its body plus optional tri-state overrides for
/// the container's fill, alignment and inset. It is consumed exactly once by
/// resolution, which repacks it as a [`Cell`].
#[derive(PartialEq, Eq, Debug)]
pub struct TableCell {
    /// The cell's body.
    pub body: Content,
    /// The cell's fill override.
    pub fill: TriState<Option<Paint>>,
    /// The cell's alignment override.
    pub align: TriState<Align>,
    /// The cell's inset override.
    pub inset: TriState<Sides<Option<i64>>>,
}

impl TableCell {
    /// An authored cell with a body and no overrides.
    pub fn new(body: Content) -> (c: TableCell)
        ensures
            c == (TableCell {
                body,
                fill: TriState::Auto,
                align: TriState::Auto,
                inset: TriState::Auto,
            }),
    {
        TableCell { body, fill: TriState::Auto, align: TriState::Auto, inset: TriState::Auto }
    }

    /// The resolved cell that an authored cell, the container's property
    /// values at its coordinate, and the container's concrete inset combine
    /// into.
    ///
    /// - fill: the cell's `Custom` wins, `Auto` takes the container's value;
    ///   the result is concrete.
    /// - alignment: under a `Custom` container alignment, the cell's own
    ///   `Custom` folds over it, but the output stays tri-state for the later
    ///   display step; under an `Auto` container alignment, the cell's value
    ///   passes through unchanged.
    /// - inset: field-wise merge of the cell's override into the container's
    ///   concrete inset; the result is always concrete.
    pub open spec fn spec_resolved(
        cell: TableCell,
        fill: Option<Paint>,
        align: TriState<Align>,
        inset: Sides<i64>,
    ) -> Cell {
        Cell {
            body: cell.body,
            fill: cell.fill.spec_unwrap_or(fill),
            align: match align {
                TriState::Custom(outer) => TriState::Custom(
                    match cell.align {
                        TriState::Custom(own) => own.spec_fold(outer),
                        TriState::Auto => outer,
                    },
                ),
                TriState::Auto => cell.align,
            },
            inset: match cell.inset {
                TriState::Custom(own) => own.spec_fold_or(inset),
                TriState::Auto => inset,
            },
        }
    }

    /// Resolve this authored cell against the container's property values at
    /// its zero-based (column, row) position. Taking the cell by value makes
    /// "resolved exactly once" structural: the authored cell is gone
    /// afterwards. The coordinate itself plays no further part once the
    /// container's per-coordinate values are evaluated.
    pub fn resolve_cell(
        self,
        _col: usize,
        _row: usize,
        fill: &Option<Paint>,
        align: TriState<Align>,
        inset: Sides<i64>,
    ) -> (c: Cell)
        ensures
            c == TableCell::spec_resolved(self, *fill, align, inset),
    {
        let own_fill = self.fill.unwrap_or(*fill);
        let resolved_align = match align {
            TriState::Custom(outer) => TriState::Custom(
                match self.align {
                    TriState::Custom(own) => own.fold(outer),
                    TriState::Auto => outer,
                },
            ),
            TriState::Auto => self.align,
        };
        let resolved_inset = match self.inset {
            TriState::Custom(own) => own.fold_or(inset),
            TriState::Auto => inset,
        };
        Cell { body: self.body, fill: own_fill, align: resolved_align, inset: resolved_inset }
    }
}

impl Default for TableCell {
    /// An authored cell with empty content and no overrides.
    fn default() -> (c: TableCell)
        ensures
            c.body.text@ == Seq::<char>::empty(),
            c.body.dest is None,
            c.fill == TriState::<Option<Paint>>::Auto,
            c.align == TriState::<Align>::Auto,
            c.inset == TriState::<Sides<Option<i64>>>::Auto,
    {
        TableCell::new(Content::default())
    }
}

impl From<Content> for TableCell {
    /// Wrap plain content as a cell with no overrides.
    fn from(value: Content) -> (c: Self) {
        TableCell::new(value)
    }
}

impl vstd::std_specs::convert::FromSpecImpl<Content> for TableCell {
    open spec fn obeys_from_spec() -> bool {
        true
    }

    open spec fn from_spec(value: Content) -> Self {
        TableCell {
            body: value,
            fill: TriState::Auto,
            align: TriState::Auto,
            inset: TriState::Auto,
        }
    }
}

/// A table of cells in row-major order, with its container-level defaults.
/// `F` and `A` are the per-coordinate function types behind the fill and
/// alignment properties.
#[derive(PartialEq, Eq, Debug)]
pub struct TableElem<F, A> {
    /// How many columns the table has.
    pub columns: usize,
    /// The gap between columns, if one was given.
    pub column_gutter: Option<i64>,
    /// The gap between rows, if one was given.
    pub row_gutter: Option<i64>,
    /// How to fill the cells, `None` for no fill.
    pub fill: Celled<Option<Paint>, F>,
    /// How to align the cells' content.
    pub align: Celled<TriState<Align>, A>,
    /// How to stroke the cells, `None` for no stroke.
    pub stroke: Option<Stroke>,
    /// How much to pad the cells' content; open sides take the compiled-in
    /// default.
    pub inset: Sides<Option<i64>>,
    /// The authored cells, in row-major order.
    pub children: Vec<TableCell>,
}

impl<F: CellFunction<Option<Paint>>, A: CellFunction<TriState<Align>>> TableElem<F, A> {
    /// Build a table. A shared `gutter` stands in for either axis's gutter
    /// where no axis-specific one is given.
    pub fn new(
        columns: usize,
        gutter: Option<i64>,
        column_gutter: Option<i64>,
        row_gutter: Option<i64>,
        fill: Celled<Option<Paint>, F>,
        align: Celled<TriState<Align>, A>,
        stroke: Option<Stroke>,
        inset: Sides<Option<i64>>,
        children: Vec<TableCell>,
    ) -> (t: Self)
        ensures
            t.columns == columns,
            t.column_gutter == (match column_gutter {
                Some(g) => Some(g),
                None => gutter,
            }),
            t.row_gutter == (match row_gutter {
                Some(g) => Some(g),
                None => gutter,
            }),
            t.fill == fill,
            t.align == align,
            t.stroke == stroke,
            t.inset == inset,
            t.children == children,
    {
        let resolved_column_gutter = match column_gutter {
            Some(g) => Some(g),
            None => gutter,
        };
        let resolved_row_gutter = match row_gutter {
            Some(g) => Some(g),
            None => gutter,
        };
        TableElem {
            columns,
            column_gutter: resolved_column_gutter,
            row_gutter: resolved_row_gutter,
            fill,
            align,
            stroke,
            inset,
            children,
        }
    }

    /// The column a child at row-major index `i` falls in, once gutters are
    /// out of the picture.
    pub open spec fn spec_col_of(&self, i: int) -> usize {
        (i % (self.columns as int)) as usize
    }

    /// The row a child at row-major index `i` falls in.
    pub open spec fn spec_row_of(&self, i: int) -> usize {
        (i / (self.columns as int)) as usize
    }

    /// The container's concrete inset: the authored partial inset over the
    /// compiled-in default on every side.
    pub open spec fn spec_resolved_inset(&self) -> Sides<i64> {
        self.inset.spec_fold_or(Sides::spec_splat(DEFAULT_INSET))
    }

    /// The container's fill at child index `i`.
    pub open spec fn spec_fill_at(&self, i: int) -> Result<Option<Paint>, Diagnostic> {
        self.fill.spec_resolve(self.spec_col_of(i), self.spec_row_of(i))
    }

    /// The container's alignment at child index `i`.
    pub open spec fn spec_align_at(&self, i: int) -> Result<TriState<Align>, Diagnostic> {
        self.align.spec_resolve(self.spec_col_of(i), self.spec_row_of(i))
    }

    /// Whether both celled properties evaluate at child index `i`.
    pub open spec fn spec_eval_ok(&self, i: int) -> bool {
        self.spec_fill_at(i) is Ok && self.spec_align_at(i) is Ok
    }

    /// The diagnostic evaluation at child index `i` raises, the fill's
    /// before the alignment's.
    pub open spec fn spec_diag_at(&self, i: int) -> Diagnostic {
        if self.spec_fill_at(i) is Err {
            self.spec_fill_at(i)->Err_0
        } else {
            self.spec_align_at(i)->Err_0
        }
    }

    /// The resolved cell at child index `i`, where both properties evaluate.
    pub open spec fn spec_cell_at(&self, i: int) -> Cell {
        TableCell::spec_resolved(
            self.children@[i],
            self.spec_fill_at(i)->Ok_0,
            self.spec_align_at(i)->Ok_0,
            self.spec_resolved_inset(),
        )
    }

    /// The concrete stroke handed to the layout engine, if any.
    pub fn resolved_stroke(&self) -> (r: Option<FixedStroke>)
        ensures
            r == (match self.stroke {
                Some(s) => Some(s.spec_unwrap_or_default()),
                None => None::<FixedStroke>,
            }),
    {
        match self.stroke {
            Some(s) => Some(s.unwrap_or_default()),
            None => None,
        }
    }

    /// Resolve the table's children into layout-facing cells, in row-major
    /// order: the celled properties are evaluated at each child's coordinate
    /// and each authored cell is consumed exactly once. The first coordinate
    /// where a property fails to evaluate aborts resolution with its
    /// diagnostic.
    pub fn resolve_cells(self) -> (r: Result<Vec<Cell>, Diagnostic>)
        requires
            self.columns >= 1,
        ensures
            (r is Ok <==> (forall|i: int|
                0 <= i < self.children@.len() ==> self.spec_eval_ok(i))),
            r is Ok ==> r->Ok_0@.len() == self.children@.len(),
            r is Ok ==> (forall|i: int|
                0 <= i < self.children@.len() ==> r->Ok_0@[i] == self.spec_cell_at(i)),
            r is Err ==> (exists|i: int|
                0 <= i < self.children@.len() && !self.spec_eval_ok(i) && (forall|j: int|
                    0 <= j < i ==> self.spec_eval_ok(j)) && r->Err_0 == self.spec_diag_at(i)),
    {
        let TableElem { columns, fill, align, inset, children, .. } = self;
        let mut children = children;
        let inset_resolved = inset.fold_or(Sides::splat(DEFAULT_INSET));
        let mut out: Vec<Cell> = Vec::new();
        let n = children.len();
        let mut i: usize = 0;
        proof {
            assert(children@ =~= self.children@.skip(0));
        }
        while i < n
            invariant
                i <= n,
                n == self.children@.len(),
                columns == self.columns,
                columns >= 1,
                fill == self.fill,
                align == self.align,
                inset_resolved == self.spec_resolved_inset(),
                children@ == self.children@.skip(i as int),
                out@.len() == i as int,
                forall|j: int| 0 <= j < i ==> self.spec_eval_ok(j),
                forall|j: int| 0 <= j < i ==> out@[j] == self.spec_cell_at(j),
            decreases n - i,
        {
            let col = i % columns;
            let row = i / columns;
            proof {
                assert(col == self.spec_col_of(i as int));
                assert(row == self.spec_row_of(i as int));
            }
            let fill_val = match fill.at(col, row) {
                Ok(v) => v,
                Err(d) => {
                    proof {
                        assert(self.spec_fill_at(i as int) is Err);
                        assert(!self.spec_eval_ok(i as int));
                        assert(d == self.spec_diag_at(i as int));
                    }
                    return Err(d);
                },
            };
            let align_val = match align.at(col, row) {
                Ok(v) => v,
                Err(d) => {
                    proof {
                        assert(self.spec_fill_at(i as int) is Ok);
                        assert(self.spec_align_at(i as int) is Err);
                        assert(!self.spec_eval_ok(i as int));
                        assert(d == self.spec_diag_at(i as int));
                    }
                    return Err(d);
                },
            };
            let child = children.remove(0);
            proof {
                assert(child == self.children@[i as int]);
                assert(children@ =~= self.children@.skip(i as int + 1));
            }
            let cell = child.resolve_cell(col, row, &fill_val, align_val, inset_resolved);
            out.push(cell);
            i += 1;
        }
        Ok(out)
    }
}

/// A cell override `Custom(value)` for the replace-type fill resolves to
/// `value`, whatever the container's default is.
pub proof fn lemma_custom_fill_wins(
    cell: TableCell,
    value: Option<Paint>,
    container: Option<Paint>,
    align: TriState<Align>,
    inset: Sides<i64>,
)
    requires
        cell.fill == TriState::Custom(value),
    ensures
        TableCell::spec_resolved(cell, container, align, inset).fill == value,
{
}

/// A cell whose fill is `Auto` resolves to exactly the container's fill.
pub proof fn lemma_auto_fill_defers(
    cell: TableCell,
    container: Option<Paint>,
    align: TriState<Align>,
    inset: Sides<i64>,
)
    requires
        cell.fill == TriState::<Option<Paint>>::Auto,
    ensures
        TableCell::spec_resolved(cell, container, align, inset).fill == container,
{
}

/// In a resolved grid, a cell authored with `fill = Auto` carries exactly
/// the container's fill evaluated at the cell's own coordinate.
pub proof fn lemma_auto_fill_uses_container<
    F: CellFunction<Option<Paint>>,
    A: CellFunction<TriState<Align>>,
>(table: TableElem<F, A>, i: int)
    requires
        0 <= i < table.children@.len(),
        table.children@[i].fill is Auto,
        table.spec_fill_at(i) is Ok,
    ensures
        table.spec_cell_at(i).fill == table.spec_fill_at(i)->Ok_0,
{
}

} // verus!
