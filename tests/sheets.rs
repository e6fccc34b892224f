use ducksheets::registry::SheetRegistry;
use ducksheets::sheet::{ColumnSpec, Sheet, DATA_CELL_MARGIN, GUTTER_CELL_MARGIN};

#[test]
fn default_sheet_configuration() {
    let s = Sheet::default();
    assert_eq!(s.num_rows, 1000);
    assert_eq!(s.num_columns, 27);
    assert_eq!(s.default_column, ColumnSpec { width: 100, resizable: true });
}

#[test]
fn get_or_create_twice_gives_same_sheet() {
    let mut reg = SheetRegistry::default();
    let a = reg.get_or_create(0);
    let b = reg.get_or_create(0);
    assert_eq!(a, b);
    assert_eq!(a, Sheet::default());
}

#[test]
fn get_or_create_other_indices() {
    let mut reg = SheetRegistry::default();
    let a = reg.get_or_create(0);
    let b = reg.get_or_create(7);
    let c = reg.get_or_create(usize::MAX);
    assert_eq!(a, Sheet::default());
    assert_eq!(b, Sheet::default());
    assert_eq!(c, Sheet::default());
    assert_eq!(reg.get_or_create(0), a);
}

#[test]
fn columns_repeat_default() {
    let s = Sheet::default();
    let cols = s.columns();
    assert_eq!(cols.len(), 27);
    assert!(cols.iter().all(|c| *c == s.default_column));
}

#[test]
fn header_cells() {
    let s = Sheet::default();
    let gutter = s.header_cell_ui(0, 0);
    assert_eq!(gutter.label, None);
    assert_eq!(gutter.margin_x, 32);
    let first = s.header_cell_ui(1, 1);
    assert_eq!(first.label.as_deref(), Some("A"));
    assert_eq!(first.margin_x, DATA_CELL_MARGIN);
    let last = s.header_cell_ui(26, 26);
    assert_eq!(last.label.as_deref(), Some("Z"));
    let wide = s.header_cell_ui(27, 27);
    assert_eq!(wide.label.as_deref(), Some("AA"));
}

#[test]
fn body_cells() {
    let s = Sheet::default();
    let g = s.cell_ui(0, 0);
    assert_eq!(g.row_label, Some(1));
    assert_eq!(g.margin_x, 8);
    assert_eq!(s.cell_ui(999, 0).row_label, Some(1000));
    let d = s.cell_ui(4, 3);
    assert_eq!(d.row_label, None);
    assert_eq!(d.margin_x, 32);
    assert_eq!(GUTTER_CELL_MARGIN, 8);
}

#[test]
fn row_height() {
    assert_eq!(Sheet::default().default_row_height(), 32);
}
