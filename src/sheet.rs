use vstd::prelude::*;

use crate::column_name::{column_name, letter, ALPHABET_SIZE};

verus! {

/// Display defaults of a column: its initial width in whole pixels and
/// whether the user may drag it wider or narrower.
#[derive(Clone, Copy, Debug, PartialEq, Eq, Structural)]
pub struct ColumnSpec {
    pub width: u32,
    pub resizable: bool,
}

/// The view state of one virtual grid. Column 0 is the row-label gutter;
/// the lettered columns follow it. Holds no cell data.
#[derive(Clone, Copy, Debug, PartialEq, Eq, Structural)]
pub struct Sheet {
    pub num_rows: u64,
    pub num_columns: usize,
    pub default_column: ColumnSpec,
}

pub const DEFAULT_NUM_ROWS: u64 = 1000;

/// The gutter plus the 26 columns `A` to `Z`.
pub const DEFAULT_NUM_COLUMNS: usize = 27;

pub const DEFAULT_COLUMN_WIDTH: u32 = 100;

/// The sheet that a fresh index refers to.
pub open spec fn default_sheet() -> Sheet {
    Sheet {
        num_rows: DEFAULT_NUM_ROWS,
        num_columns: DEFAULT_NUM_COLUMNS,
        default_column: ColumnSpec { width: DEFAULT_COLUMN_WIDTH, resizable: true },
    }
}

/// A fresh sheet has 1000 rows and 27 columns (the gutter and `A` to `Z`),
/// both positive.
pub proof fn lemma_default_sheet_dimensions()
    ensures
        default_sheet().num_rows == 1000,
        default_sheet().num_columns == 27,
        default_sheet().num_rows > 0,
        default_sheet().num_columns > 0,
{
}

/// Horizontal padding, in pixels, of header cells and of lettered body cells.
pub const DATA_CELL_MARGIN: u32 = 32;

/// Horizontal padding, in pixels, of the row-label gutter.
pub const GUTTER_CELL_MARGIN: u32 = 8;

/// Height of a row, in pixels.
pub const ROW_HEIGHT: u32 = 32;

/// Leading columns that stay in view while the grid scrolls sideways: the
/// row-label gutter.
pub const STICKY_COLUMNS: usize = 1;

/// What to draw in a header cell: its horizontal padding and, over a
/// lettered column, the column's name.
pub struct HeaderView {
    pub margin_x: u32,
    pub label: Option<String>,
}

/// What to draw in a body cell: its horizontal padding and, in the gutter,
/// the one-based row number, aligned right.
#[derive(Clone, Copy, Debug, PartialEq, Eq, Structural)]
pub struct BodyView {
    pub margin_x: u32,
    pub row_label: Option<u64>,
}

impl Default for Sheet {
    fn default() -> (r: Sheet)
        ensures
            r == default_sheet(),
    {
        Sheet {
            num_rows: DEFAULT_NUM_ROWS,
            num_columns: DEFAULT_NUM_COLUMNS,
            default_column: ColumnSpec { width: DEFAULT_COLUMN_WIDTH, resizable: true },
        }
    }
}

/// Relies on String::insert: at byte index 0, always a char boundary, it
/// puts `c` in front of the existing characters.
#[verifier::external_body]
fn prepend_char(s: &mut String, c: char)
    ensures
        final(s)@ == seq![c] + old(s)@,
{
    s.insert(0, c);
}

impl Sheet {
    /// The spreadsheet name of the zero-based column `n` (`0` is `A`,
    /// `26` is `AA`).
    pub fn idx_to_column_letter(n: usize) -> (r: String)
        ensures
            r@ == column_name(n as nat),
    {
        // Bijective base 26: each position holds a digit 1..=26, so the
        // quotient is decremented before the next digit is taken. Doing it
        // after the division, not before, keeps `usize::MAX` in range.
        let mut result = String::new();
        let mut w: usize = n;
        loop
            invariant_except_break
                column_name(n as nat) == column_name(w as nat) + result@,
            ensures
                column_name(n as nat) == result@,
            decreases w,
        {
            let d: usize = w % ALPHABET_SIZE;
            let c = (65u8 + d as u8) as char;  // 65 is `A`
            assert(c == letter(d as nat));
            let ghost before = result@;
            prepend_char(&mut result, c);
            proof {
                if w >= 26 {
                    assert(column_name((w / 26 - 1) as nat) + result@ =~= column_name(w as nat)
                        + before);
                } else {
                    assert(result@ =~= column_name(w as nat) + before);
                }
            }
            w = w / ALPHABET_SIZE;
            if w == 0 {
                break;
            }
            w = w - 1;
        }
        result
    }

    /// The header cell of column group `group_index`, whose first column is
    /// `first_col`. Column 0 is the gutter and gets no name; the lettered
    /// columns start at group 1, named from index `group_index - 1`.
    pub fn header_cell_ui(&self, group_index: usize, first_col: usize) -> (r: HeaderView)
        requires
            first_col > 0 ==> group_index > 0,
        ensures
            r.margin_x == DATA_CELL_MARGIN,
            first_col == 0 ==> r.label is None,
            first_col > 0 ==> (r.label matches Some(l) && l@ == column_name((group_index - 1) as nat)),
    {
        let label = if first_col > 0 {
            Some(Self::idx_to_column_letter(group_index - 1))
        } else {
            None
        };
        HeaderView { margin_x: DATA_CELL_MARGIN, label }
    }

    /// The body cell at row `row_nr` and column `col_nr`, both zero-based.
    /// Only the gutter, column 0, shows something: the row's number counted
    /// from one.
    pub fn cell_ui(&self, row_nr: u64, col_nr: usize) -> (r: BodyView)
        requires
            row_nr < u64::MAX,
        ensures
            r.margin_x == (if col_nr == 0 { GUTTER_CELL_MARGIN } else { DATA_CELL_MARGIN }),
            r.row_label == (if col_nr == 0 { Some((row_nr + 1) as u64) } else { None::<u64> }),
    {
        if col_nr == 0 {
            BodyView { margin_x: GUTTER_CELL_MARGIN, row_label: Some(row_nr + 1) }
        } else {
            BodyView { margin_x: DATA_CELL_MARGIN, row_label: None }
        }
    }

    /// The grid's columns, gutter included, each with the default
    /// configuration.
    pub fn columns(&self) -> (r: Vec<ColumnSpec>)
        ensures
            r@ == Seq::new(self.num_columns as nat, |_i: int| self.default_column),
    {
        let mut cols: Vec<ColumnSpec> = Vec::new();
        let mut i: usize = 0;
        while i < self.num_columns
            invariant
                i <= self.num_columns,
                cols@ == Seq::new(i as nat, |_i: int| self.default_column),
            decreases self.num_columns - i,
        {
            cols.push(self.default_column);
            i = i + 1;
            assert(cols@ =~= Seq::new(i as nat, |_i: int| self.default_column));
        }
        cols
    }

    /// The height of every row, in pixels.
    pub fn default_row_height(&self) -> (r: u32)
        ensures
            r == ROW_HEIGHT,
    {
        ROW_HEIGHT
    }
}

} // verus!
