use cellref::align::{Align, HAlign, VAlign};
use cellref::celled::{Celled, PerColumn, Striped};
use cellref::content::Content;
use cellref::diag::{Diagnostic, Span};
use cellref::paint::{FixedStroke, Paint, Stroke};
use cellref::sides::Sides;
use cellref::table::{TableCell, TableElem, DEFAULT_INSET};
use cellref::tristate::TriState;

type FillFn = Striped<Option<Paint>>;
type AlignFn = Striped<TriState<Align>>;
type Table = TableElem<FillFn, AlignFn>;

fn green() -> Paint {
    Paint { red: 0, green: 128, blue: 0 }
}

fn blue() -> Paint {
    Paint { red: 0, green: 0, blue: 255 }
}

fn gray() -> Paint {
    Paint { red: 240, green: 240, blue: 240 }
}

fn white() -> Paint {
    Paint { red: 255, green: 255, blue: 255 }
}

fn auto_align() -> Celled<TriState<Align>, AlignFn> {
    Celled::Value(TriState::Auto)
}

fn open_inset() -> Sides<Option<i64>> {
    Sides { left: None, top: None, right: None, bottom: None }
}

fn plain_cell() -> TableCell {
    TableCell::new(Content::plain(String::new()))
}

fn table_with(fill: Celled<Option<Paint>, FillFn>, children: Vec<TableCell>) -> Table {
    TableElem::new(
        2,
        None,
        None,
        None,
        fill,
        auto_align(),
        None,
        open_inset(),
        children,
    )
}

#[test]
fn replace_custom_wins() {
    let tri: TriState<i64> = TriState::Custom(7);
    assert_eq!(tri.unwrap_or(9), 7);
    let auto: TriState<i64> = TriState::Auto;
    assert_eq!(auto.unwrap_or(9), 9);
}

#[test]
fn custom_fill_overrides_container() {
    let mut cell = plain_cell();
    cell.fill = TriState::Custom(Some(blue()));
    let resolved = cell.resolve_cell(
        0,
        0,
        &Some(green()),
        TriState::Auto,
        Sides::splat(DEFAULT_INSET),
    );
    assert_eq!(resolved.fill, Some(blue()));
}

#[test]
fn auto_fill_takes_container() {
    let cell = plain_cell();
    let resolved = cell.resolve_cell(
        1,
        0,
        &Some(green()),
        TriState::Auto,
        Sides::splat(DEFAULT_INSET),
    );
    assert_eq!(resolved.fill, Some(green()));
}

#[test]
fn table_default_fill_with_one_override() {
    let mut children = Vec::new();
    for _ in 0..4 {
        children.push(plain_cell());
    }
    children[1].fill = TriState::Custom(Some(blue()));
    let table = table_with(Celled::Value(Some(green())), children);
    let cells = table.resolve_cells().unwrap();
    assert_eq!(cells.len(), 4);
    assert_eq!(cells[0].fill, Some(green()));
    assert_eq!(cells[1].fill, Some(blue()));
    assert_eq!(cells[2].fill, Some(green()));
    assert_eq!(cells[3].fill, Some(green()));
}

#[test]
fn striped_fill_by_column() {
    let mut children = Vec::new();
    for _ in 0..4 {
        children.push(plain_cell());
    }
    let stripes = Striped { odd: Some(gray()), even: Some(white()) };
    let table = table_with(Celled::Func(stripes, Span { raw: 3 }), children);
    let cells = table.resolve_cells().unwrap();
    assert_eq!(cells[0].fill, Some(white()));
    assert_eq!(cells[1].fill, Some(gray()));
    assert_eq!(cells[2].fill, Some(white()));
    assert_eq!(cells[3].fill, Some(gray()));
}

#[test]
fn inset_merge_keeps_other_sides() {
    let mut cell = plain_cell();
    cell.inset = TriState::Custom(Sides {
        left: None,
        top: Some(10),
        right: None,
        bottom: None,
    });
    let table = table_with(Celled::Value(None), vec![cell]);
    let cells = table.resolve_cells().unwrap();
    assert_eq!(
        cells[0].inset,
        Sides { left: 5, top: 10, right: 5, bottom: 5 }
    );
}

#[test]
fn sides_fold_idempotent() {
    let sides: Sides<Option<i64>> =
        Sides { left: Some(5), top: None, right: Some(3), bottom: None };
    assert_eq!(sides.fold(sides), sides);
}

#[test]
fn align_fold_idempotent() {
    let align = Align { x: Some(HAlign::Center), y: None };
    assert_eq!(align.fold(align), align);
}

#[test]
fn stroke_fold_idempotent() {
    let stroke = Stroke { paint: Some(blue()), thickness: None };
    assert_eq!(stroke.fold(stroke), stroke);
}

#[test]
fn align_folds_under_custom_container() {
    let mut cell = plain_cell();
    cell.align = TriState::Custom(Align { x: None, y: Some(VAlign::Bottom) });
    let resolved = cell.resolve_cell(
        0,
        0,
        &None,
        TriState::Custom(Align { x: Some(HAlign::Center), y: None }),
        Sides::splat(DEFAULT_INSET),
    );
    assert_eq!(
        resolved.align,
        TriState::Custom(Align { x: Some(HAlign::Center), y: Some(VAlign::Bottom) })
    );
}

#[test]
fn align_passes_through_under_auto_container() {
    let mut cell = plain_cell();
    let own = Align { x: Some(HAlign::Right), y: None };
    cell.align = TriState::Custom(own);
    let resolved = cell.resolve_cell(0, 0, &None, TriState::Auto, Sides::splat(DEFAULT_INSET));
    assert_eq!(resolved.align, TriState::Custom(own));
    let displayed = resolved.display_align(Align { x: Some(HAlign::Left), y: Some(VAlign::Top) });
    assert_eq!(displayed, Align { x: Some(HAlign::Right), y: Some(VAlign::Top) });
}

#[test]
fn function_failure_aborts_with_first_coordinate() {
    let columns = PerColumn { values: vec![Some(green())] };
    let table: TableElem<PerColumn<Option<Paint>>, AlignFn> = TableElem::new(
        2,
        None,
        None,
        None,
        Celled::Func(columns, Span { raw: 7 }),
        auto_align(),
        None,
        open_inset(),
        vec![plain_cell(), plain_cell(), plain_cell()],
    );
    let err = table.resolve_cells().unwrap_err();
    assert_eq!(
        err,
        Diagnostic::FunctionEvaluation { col: 1, row: 0, span: Span { raw: 7 } }
    );
}

#[test]
fn celled_evaluation_is_deterministic() {
    let stripes = Striped { odd: Some(gray()), even: Some(white()) };
    let celled: Celled<Option<Paint>, FillFn> = Celled::Func(stripes, Span { raw: 1 });
    let first = celled.at(1, 4);
    let second = celled.at(1, 4);
    assert_eq!(first, second);
    assert_eq!(first.unwrap(), Some(gray()));
}

#[test]
fn empty_table_resolves_to_no_cells() {
    let table = table_with(Celled::Value(None), Vec::new());
    let cells = table.resolve_cells().unwrap();
    assert!(cells.is_empty());
}

#[test]
fn gutter_stands_in_for_both_axes() {
    let table = TableElem::<FillFn, AlignFn>::new(
        3,
        Some(4),
        None,
        Some(2),
        Celled::Value(None),
        auto_align(),
        None,
        open_inset(),
        Vec::new(),
    );
    assert_eq!(table.column_gutter, Some(4));
    assert_eq!(table.row_gutter, Some(2));
}

#[test]
fn stroke_resolves_with_defaults() {
    let table = TableElem::<FillFn, AlignFn>::new(
        1,
        None,
        None,
        None,
        Celled::Value(None),
        auto_align(),
        Some(Stroke { paint: None, thickness: Some(3) }),
        open_inset(),
        Vec::new(),
    );
    assert_eq!(
        table.resolved_stroke(),
        Some(FixedStroke { paint: Paint { red: 0, green: 0, blue: 0 }, thickness: 3 })
    );
}

#[test]
fn table_cell_from_content_has_no_overrides() {
    let cell = TableCell::from(Content::plain(String::from("hello")));
    assert_eq!(cell.body.text, "hello");
    assert_eq!(cell.fill, TriState::Auto);
    assert_eq!(cell.align, TriState::Auto);
    assert_eq!(cell.inset, TriState::Auto);
}

#[test]
fn table_cell_default_is_empty() {
    let cell = TableCell::default();
    assert_eq!(cell.body.text, "");
    assert_eq!(cell.fill, TriState::Auto);
}
