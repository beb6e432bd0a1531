//! The mathematical model of the screen buffer.
//!
//! A `Screen` is the abstract value of a `ScreenBuffer`: the grid as a
//! row-major sequence of cells, the damage mask, the cursor, the scroll region
//! and the current write attribute. Every mutation of the buffer is defined
//! here as a function from screens to screens, and the executable buffer is
//! proved to compute exactly these functions.

use vstd::prelude::*;
use crate::cell::{Attribute, Cell, CursorPos, blank_cell, default_attribute};

verus! {

/// The largest number of rows or columns a screen can have.
pub const MAX_DIMENSION: u16 = 0xffff;

/// The part of the grid that an erase operation clears.
#[derive(Clone, Copy, Debug, PartialEq, Eq, Structural)]
pub enum EraseKind {
    /// From the cursor to the end of its row.
    ToEndOfLine,
    /// The whole row of the cursor.
    WholeLine,
    /// From the cursor to the end of the grid.
    ToEndOfScreen,
    /// The whole grid.
    WholeScreen,
}

pub ghost struct Screen {
    pub rows: int,
    pub columns: int,
    /// Row-major content, `rows * columns` cells.
    pub cells: Seq<Cell>,
    /// One flag per cell: written since the last flush.
    pub dirty: Seq<bool>,
    pub cursor: CursorPos,
    /// First row of the scroll region.
    pub top: int,
    /// Last row of the scroll region.
    pub bottom: int,
    /// The attribute that the next written character is meant to carry.
    pub attribute: Attribute,
}

/// Bounds a dimension to what a screen can have: at least 1.
pub open spec fn clamp_dimension(n: int) -> int {
    if n < 1 {
        1
    } else if n > MAX_DIMENSION {
        MAX_DIMENSION as int
    } else {
        n
    }
}

/// The smaller of `n` and `limit - 1`, for a position in `0 .. limit`.
pub open spec fn clamp_index(n: int, limit: int) -> int {
    if n < 0 {
        0
    } else if n >= limit {
        limit - 1
    } else {
        n
    }
}

impl Screen {
    /// The invariant of every screen that a buffer can hold.
    pub open spec fn wf(self) -> bool {
        &&& 1 <= self.rows <= MAX_DIMENSION
        &&& 1 <= self.columns <= MAX_DIMENSION
        &&& self.cells.len() == self.rows * self.columns
        &&& self.dirty.len() == self.rows * self.columns
        &&& self.cursor.row < self.rows
        &&& self.cursor.column < self.columns
        &&& 0 <= self.top <= self.bottom < self.rows
    }

    /// A screen of blank cells with nothing to redraw, the cursor in the
    /// top-left corner and the scroll region spanning every row.
    pub open spec fn blank(rows: int, columns: int) -> Screen {
        Screen {
            rows,
            columns,
            cells: Seq::new((rows * columns) as nat, |i: int| blank_cell()),
            dirty: Seq::new((rows * columns) as nat, |i: int| false),
            cursor: CursorPos { row: 0, column: 0 },
            top: 0,
            bottom: rows - 1,
            attribute: default_attribute(),
        }
    }

    /// The place of `(row, column)` in the row-major sequences.
    pub open spec fn index(self, row: int, column: int) -> int {
        row * self.columns + column
    }

    pub open spec fn cursor_index(self) -> int {
        self.index(self.cursor.row as int, self.cursor.column as int)
    }

    /// The content at `(row, column)`.
    pub open spec fn cell_at(self, row: int, column: int) -> Cell {
        self.cells[self.index(row, column)]
    }

    /// Whether the cell at `(row, column)` awaits a redraw.
    pub open spec fn dirty_at(self, row: int, column: int) -> bool {
        self.dirty[self.index(row, column)]
    }

    /// The grid position of the `i`-th cell.
    pub open spec fn position(self, i: int) -> CursorPos {
        CursorPos { row: (i / self.columns) as u16, column: (i % self.columns) as u16 }
    }

    /// The screen with the cursor at `(row, column)` and nothing else changed.
    pub open spec fn with_cursor(self, row: int, column: int) -> Screen {
        Screen { cursor: CursorPos { row: row as u16, column: column as u16 }, ..self }
    }

    /// Stores `cell` as the `i`-th cell and marks it for redraw.
    pub open spec fn put(self, i: int, cell: Cell) -> Screen {
        Screen { cells: self.cells.update(i, cell), dirty: self.dirty.update(i, true), ..self }
    }

    /// Blanks the cells `lo .. hi` and marks exactly those for redraw.
    pub open spec fn fill(self, lo: int, hi: int) -> Screen {
        Screen {
            cells: Seq::new(
                self.cells.len(),
                |i: int|
                    if lo <= i < hi {
                        blank_cell()
                    } else {
                        self.cells[i]
                    },
            ),
            dirty: Seq::new(self.dirty.len(), |i: int| self.dirty[i] || lo <= i < hi),
            ..self
        }
    }

    /// Moves the content of the cells `lo .. hi` by `d` places towards the
    /// start (`d > 0`) or the end (`d < 0`) of that range. Cells that receive
    /// nothing from inside the range become blank; all of `lo .. hi` is
    /// marked for redraw, and nothing outside it changes.
    pub open spec fn shift(self, lo: int, hi: int, d: int) -> Screen {
        Screen {
            cells: Seq::new(
                self.cells.len(),
                |i: int|
                    if lo <= i < hi {
                        if lo <= i + d < hi {
                            self.cells[i + d]
                        } else {
                            blank_cell()
                        }
                    } else {
                        self.cells[i]
                    },
            ),
            dirty: Seq::new(self.dirty.len(), |i: int| self.dirty[i] || lo <= i < hi),
            ..self
        }
    }

    /// First cell of the scroll region.
    pub open spec fn region_start(self) -> int {
        self.top * self.columns
    }

    /// One past the last cell of the scroll region.
    pub open spec fn region_end(self) -> int {
        (self.bottom + 1) * self.columns
    }

    /// Scrolls the rows of the scroll region by `amount` rows: up for a
    /// positive amount, revealing blank rows at the bottom of the region, down
    /// for a negative one, revealing blank rows at its top. Rows outside the
    /// region keep their content. A scroll by zero rows changes nothing.
    pub open spec fn scroll(self, amount: int) -> Screen {
        if amount == 0 {
            self
        } else {
            self.shift(self.region_start(), self.region_end(), amount * self.columns)
        }
    }

    pub open spec fn carriage_return(self) -> Screen {
        self.with_cursor(self.cursor.row as int, 0)
    }

    /// Moves the cursor one row down. On the last row of the scroll region
    /// the region scrolls up by one row instead; on the last row of the grid
    /// outside the region the cursor stays.
    pub open spec fn line_feed(self) -> Screen {
        if self.cursor.row == self.bottom {
            self.scroll(1)
        } else if self.cursor.row + 1 < self.rows {
            self.with_cursor(self.cursor.row + 1, self.cursor.column as int)
        } else {
            self
        }
    }

    /// Moves the cursor one row up. On the first row of the scroll region the
    /// region scrolls down by one row instead; on the first row of the grid
    /// outside the region the cursor stays.
    pub open spec fn reverse_index(self) -> Screen {
        if self.cursor.row == self.top {
            self.scroll(-1)
        } else if self.cursor.row > 0 {
            self.with_cursor(self.cursor.row - 1, self.cursor.column as int)
        } else {
            self
        }
    }

    /// Moves the cursor past a character just written: one column to the
    /// right, or from the last column to the first column of the next row.
    pub open spec fn advance(self) -> Screen {
        if self.cursor.column + 1 < self.columns {
            self.with_cursor(self.cursor.row as int, self.cursor.column + 1)
        } else {
            self.carriage_return().line_feed()
        }
    }

    /// Writes a character with an attribute at the cursor and advances.
    pub open spec fn write_cell(self, code_point: u32, attribute: Attribute) -> Screen {
        self.put(self.cursor_index(), Cell { code_point, attribute }).advance()
    }

    /// Writes the characters one after another with one attribute.
    pub open spec fn write_run(self, code_points: Seq<u32>, attribute: Attribute) -> Screen
        decreases code_points.len(),
    {
        if code_points.len() == 0 {
            self
        } else {
            self.write_run(code_points.drop_last(), attribute).write_cell(
                code_points.last(),
                attribute,
            )
        }
    }

    /// Places the cursor at `(row, column)`, clamped to the grid.
    pub open spec fn move_cursor(self, row: int, column: int) -> Screen {
        self.with_cursor(clamp_index(row, self.rows), clamp_index(column, self.columns))
    }

    /// First cell that `erase(kind)` clears.
    pub open spec fn erase_start(self, kind: EraseKind) -> int {
        match kind {
            EraseKind::ToEndOfLine | EraseKind::ToEndOfScreen => self.cursor_index(),
            EraseKind::WholeLine => self.cursor.row * self.columns,
            EraseKind::WholeScreen => 0,
        }
    }

    /// One past the last cell that `erase(kind)` clears.
    pub open spec fn erase_end(self, kind: EraseKind) -> int {
        match kind {
            EraseKind::ToEndOfLine | EraseKind::WholeLine => (self.cursor.row + 1) * self.columns,
            EraseKind::ToEndOfScreen | EraseKind::WholeScreen => self.rows * self.columns,
        }
    }

    /// Clears a part of the grid to blank cells. The cursor does not move.
    pub open spec fn erase(self, kind: EraseKind) -> Screen {
        self.fill(self.erase_start(kind), self.erase_end(kind))
    }

    pub open spec fn set_attribute(self, attribute: Attribute) -> Screen {
        Screen { attribute, ..self }
    }

    /// Makes the rows `top ..= bottom` the scroll region. Bounds that do not
    /// name at least one row of the grid, in order, leave the region as it is.
    pub open spec fn set_scroll_region(self, top: int, bottom: int) -> Screen {
        if 0 <= top <= bottom < self.rows {
            Screen { top, bottom, ..self }
        } else {
            self
        }
    }

    /// Forgets all damage; the content stays.
    pub open spec fn flush(self) -> Screen {
        Screen { dirty: Seq::new(self.dirty.len(), |i: int| false), ..self }
    }

    /// The cell at `(row, column)` of a grid resized to `columns` columns:
    /// what was there before, or blank where the old grid did not reach.
    pub open spec fn resized_cell(self, row: int, column: int) -> Cell {
        if row < self.rows && column < self.columns {
            self.cell_at(row, column)
        } else {
            blank_cell()
        }
    }

    /// Gives the grid `rows` by `columns` cells, each dimension bounded to
    /// `1 ..= MAX_DIMENSION`. Content is kept where the old and the new grid
    /// overlap, seen from the top-left corner; the cursor and the scroll
    /// region are clamped into the new grid; every cell is marked for redraw.
    pub open spec fn resize(self, rows: int, columns: int) -> Screen {
        let r = clamp_dimension(rows);
        let c = clamp_dimension(columns);
        Screen {
            rows: r,
            columns: c,
            cells: Seq::new((r * c) as nat, |i: int| self.resized_cell(i / c, i % c)),
            dirty: Seq::new((r * c) as nat, |i: int| true),
            cursor: CursorPos {
                row: clamp_index(self.cursor.row as int, r) as u16,
                column: clamp_index(self.cursor.column as int, c) as u16,
            },
            top: clamp_index(self.top, r),
            bottom: clamp_index(self.bottom, r),
            attribute: self.attribute,
        }
    }

    /// What the dirty set holds for the `i`-th cell: its content and position.
    pub open spec fn entry(self, i: int) -> (Cell, CursorPos) {
        (self.cells[i], self.position(i))
    }

    /// Whether `entry` is the content and position of a damaged cell among
    /// the first `n`.
    pub open spec fn damaged(self, n: int, entry: (Cell, CursorPos)) -> bool {
        exists|i: int| 0 <= i < n && self.dirty[i] && entry == #[trigger] self.entry(i)
    }

    /// The damaged cells among the first `n`, in row-major order, each with
    /// its position.
    pub open spec fn dirty_prefix(self, n: int) -> Seq<(Cell, CursorPos)>
        decreases n,
    {
        if n <= 0 {
            Seq::empty()
        } else {
            let before = self.dirty_prefix(n - 1);
            if self.dirty[n - 1] {
                before.push(self.entry(n - 1))
            } else {
                before
            }
        }
    }

    /// Every damaged cell, in row-major order, with its position.
    pub open spec fn dirty_cells(self) -> Seq<(Cell, CursorPos)> {
        self.dirty_prefix(self.cells.len() as int)
    }
}

} // verus!

verus! {

/// A grid within the dimension limit has between 1 and `0xffff * 0xffff`
/// cells, which fits the index type on every platform.
pub proof fn lemma_grid_size(rows: int, columns: int)
    by (nonlinear_arith)
    requires
        1 <= rows <= MAX_DIMENSION,
        1 <= columns <= MAX_DIMENSION,
    ensures
        1 <= rows * columns <= 0xffff * 0xffff,
        columns <= rows * columns,
{
}

/// Row `row` of a grid occupies the cells `row * columns .. (row + 1) * columns`,
/// all of them inside the grid.
pub proof fn lemma_row_span(row: int, rows: int, columns: int)
    by (nonlinear_arith)
    requires
        0 <= row < rows,
        0 < columns,
    ensures
        0 <= row * columns,
        (row + 1) * columns == row * columns + columns,
        (row + 1) * columns <= rows * columns,
{
}

/// Rows further down start further along.
pub proof fn lemma_row_order(first: int, second: int, columns: int)
    by (nonlinear_arith)
    requires
        0 <= first <= second,
        0 < columns,
    ensures
        first * columns <= second * columns,
{
}

/// The position of a cell, taken from its index, is the row and column that
/// the index was made from.
pub proof fn lemma_position_of_index(s: Screen, row: int, column: int)
    requires
        s.wf(),
        0 <= row < s.rows,
        0 <= column < s.columns,
    ensures
        0 <= s.index(row, column) < s.cells.len(),
        s.position(s.index(row, column)) == (CursorPos { row: row as u16, column: column as u16 }),
{
    lemma_row_span(row, s.rows, s.columns);
    vstd::arithmetic::div_mod::lemma_fundamental_div_mod_converse(
        s.index(row, column),
        s.columns,
        row,
        column,
    );
}

} // verus!

verus! {

/// Where no cell among the first `n` is damaged, none is reported.
pub proof fn lemma_clean_prefix(s: Screen, n: int)
    requires
        0 <= n <= s.dirty.len(),
        forall|i: int| 0 <= i < n ==> !s.dirty[i],
    ensures
        s.dirty_prefix(n) == Seq::<(Cell, CursorPos)>::empty(),
    decreases n,
{
    if n > 0 {
        lemma_clean_prefix(s, n - 1);
    }
}

/// Where every cell among the first `n` is damaged, each is reported, in
/// order, with its content and position.
pub proof fn lemma_damaged_prefix(s: Screen, n: int)
    requires
        0 <= n <= s.dirty.len(),
        forall|i: int| 0 <= i < n ==> s.dirty[i],
    ensures
        s.dirty_prefix(n).len() == n,
        forall|i: int| 0 <= i < n ==> s.dirty_prefix(n)[i] == s.entry(i),
    decreases n,
{
    if n > 0 {
        lemma_damaged_prefix(s, n - 1);
    }
}

/// A cell is in the dirty set exactly if its flag is set: every damaged cell
/// among the first `n` is reported, and every reported entry is the content
/// and position of a damaged cell.
pub proof fn lemma_dirty_prefix_members(s: Screen, n: int)
    requires
        0 <= n <= s.dirty.len(),
    ensures
        s.dirty_prefix(n).len() <= n,
        forall|i: int| 0 <= i < n && s.dirty[i] ==> s.dirty_prefix(n).contains(#[trigger] s.entry(i)),
        forall|k: int|
            0 <= k < s.dirty_prefix(n).len() ==> s.damaged(n, #[trigger] s.dirty_prefix(n)[k]),
    decreases n,
{
    if n > 0 {
        lemma_dirty_prefix_members(s, n - 1);
        let before = s.dirty_prefix(n - 1);
        let all = s.dirty_prefix(n);
        assert forall|i: int| 0 <= i < n && s.dirty[i] implies all.contains(
            #[trigger] s.entry(i),
        ) by {
            if i < n - 1 {
                assert(before.contains(s.entry(i)));
                let k = choose|k: int| 0 <= k < before.len() && before[k] == s.entry(i);
                assert(all[k] == s.entry(i));
            } else {
                assert(all[before.len() as int] == s.entry(i));
            }
        }
        assert forall|k: int| 0 <= k < all.len() implies s.damaged(n, #[trigger] all[k]) by {
            if k < before.len() {
                assert(s.damaged(n - 1, before[k]));
                let i = choose|i: int|
                    0 <= i < n - 1 && s.dirty[i] && before[k] == #[trigger] s.entry(i);
                assert(0 <= i < n && s.dirty[i] && all[k] == s.entry(i));
            } else {
                assert(s.dirty[n - 1] && all[k] == s.entry(n - 1));
            }
        }
    }
}

/// Flushing leaves no damage behind, and flushing again changes nothing:
/// the dirty set is empty after the first flush and after the second.
pub proof fn lemma_flush_idempotent(s: Screen)
    requires
        s.wf(),
    ensures
        s.flush().wf(),
        s.flush().dirty_cells() == Seq::<(Cell, CursorPos)>::empty(),
        s.flush().flush() == s.flush(),
        s.flush().flush().dirty_cells() == Seq::<(Cell, CursorPos)>::empty(),
        s.flush().cells == s.cells,
{
    let once = s.flush();
    lemma_clean_prefix(once, once.cells.len() as int);
    assert(once.flush().dirty =~= once.dirty);
}

/// A resize forces a full redraw: whatever was damaged before, the dirty
/// set afterwards holds every cell of the new grid, in row-major order.
pub proof fn lemma_resize_damages_all(s: Screen, rows: int, columns: int)
    requires
        s.wf(),
    ensures
        s.resize(rows, columns).wf(),
        s.resize(rows, columns).dirty_cells().len() == clamp_dimension(rows) * clamp_dimension(
            columns,
        ),
        1 <= rows <= MAX_DIMENSION && 1 <= columns <= MAX_DIMENSION ==> s.resize(
            rows,
            columns,
        ).dirty_cells().len() == rows * columns,
        forall|i: int|
            0 <= i < s.resize(rows, columns).cells.len() ==> s.resize(rows, columns).dirty_cells()[i]
                == s.resize(rows, columns).entry(i),
{
    let t = s.resize(rows, columns);
    lemma_grid_size(clamp_dimension(rows), clamp_dimension(columns));
    lemma_damaged_prefix(t, t.cells.len() as int);
}

/// What a resize keeps: the cell at a position of the new grid is the cell
/// that was there before, and blank where the old grid did not reach.
pub proof fn lemma_resize_keeps_overlap(s: Screen, rows: int, columns: int, row: int, column: int)
    requires
        s.wf(),
        0 <= row < clamp_dimension(rows),
        0 <= column < clamp_dimension(columns),
    ensures
        s.resize(rows, columns).cell_at(row, column) == (if row < s.rows && column < s.columns {
            s.cell_at(row, column)
        } else {
            blank_cell()
        }),
{
    let t = s.resize(rows, columns);
    lemma_grid_size(t.rows, t.columns);
    lemma_row_span(row, t.rows, t.columns);
    vstd::arithmetic::div_mod::lemma_fundamental_div_mod_converse(
        t.index(row, column),
        t.columns,
        row,
        column,
    );
}

/// Every mutation keeps a well-formed screen well formed.
pub proof fn lemma_mutations_preserve_wf(s: Screen)
    requires
        s.wf(),
    ensures
        forall|code_point: u32, attribute: Attribute| #[trigger]
            s.write_cell(code_point, attribute).wf(),
        forall|row: int, column: int| #[trigger] s.move_cursor(row, column).wf(),
        forall|kind: EraseKind| #[trigger] s.erase(kind).wf(),
        forall|attribute: Attribute| #[trigger] s.set_attribute(attribute).wf(),
        forall|top: int, bottom: int| #[trigger] s.set_scroll_region(top, bottom).wf(),
        forall|amount: int| #[trigger] s.scroll(amount).wf(),
        forall|rows: int, columns: int| #[trigger] s.resize(rows, columns).wf(),
        s.line_feed().wf(),
        s.reverse_index().wf(),
        s.flush().wf(),
{
    lemma_row_span(s.cursor.row as int, s.rows, s.columns);
    assert forall|rows: int, columns: int| #[trigger] s.resize(rows, columns).wf() by {
        lemma_grid_size(clamp_dimension(rows), clamp_dimension(columns));
    }
}

/// Writing a cell and reading the same position back returns what was
/// written, unless the write made the scroll region scroll (the cursor stood
/// in the last column of the region's last row), which moves the written
/// cell one row up.
pub proof fn lemma_write_then_read(s: Screen, code_point: u32, attribute: Attribute)
    requires
        s.wf(),
        !(s.cursor.column == s.columns - 1 && s.cursor.row == s.bottom),
    ensures
        s.write_cell(code_point, attribute).cell_at(
            s.cursor.row as int,
            s.cursor.column as int,
        ) == (Cell { code_point, attribute }),
        s.write_cell(code_point, attribute).dirty_at(s.cursor.row as int, s.cursor.column as int),
{
    lemma_row_span(s.cursor.row as int, s.rows, s.columns);
}

/// Writing a cell changes no other cell, unless the write made the scroll
/// region scroll.
pub proof fn lemma_write_leaves_others(
    s: Screen,
    code_point: u32,
    attribute: Attribute,
    i: int,
)
    requires
        s.wf(),
        !(s.cursor.column == s.columns - 1 && s.cursor.row == s.bottom),
        0 <= i < s.cells.len(),
        i != s.cursor_index(),
    ensures
        s.write_cell(code_point, attribute).cells[i] == s.cells[i],
        s.write_cell(code_point, attribute).dirty[i] == s.dirty[i],
{
    lemma_row_span(s.cursor.row as int, s.rows, s.columns);
}

/// Writing in the last column moves the cursor to the first column of the
/// next row. Where the cursor stood on the last row of the scroll region, the
/// region scrolls up by one row instead: the cursor keeps its row, the row
/// scrolled in is blank in every column, and the character just written is
/// found one row up if the region has more than one row.
pub proof fn lemma_write_at_right_margin(s: Screen, code_point: u32, attribute: Attribute)
    requires
        s.wf(),
        s.cursor.column == s.columns - 1,
    ensures
        s.write_cell(code_point, attribute).wf(),
        s.write_cell(code_point, attribute).cursor.column == 0,
        s.cursor.row != s.bottom && s.cursor.row + 1 < s.rows ==> s.write_cell(
            code_point,
            attribute,
        ).cursor.row == s.cursor.row + 1,
        s.cursor.row != s.bottom && s.cursor.row + 1 == s.rows ==> s.write_cell(
            code_point,
            attribute,
        ).cursor.row == s.cursor.row,
        s.cursor.row == s.bottom ==> {
            &&& s.write_cell(code_point, attribute).cursor.row == s.cursor.row
            &&& forall|column: int|
                0 <= column < s.columns ==> #[trigger] s.write_cell(code_point, attribute).cell_at(
                    s.bottom,
                    column,
                ) == blank_cell()
            &&& s.top < s.bottom ==> s.write_cell(code_point, attribute).cell_at(
                s.bottom - 1,
                s.columns - 1,
            ) == (Cell { code_point, attribute })
        },
{
    let row = s.cursor.row as int;
    lemma_row_span(row, s.rows, s.columns);
    lemma_row_span(s.top, s.rows, s.columns);
    lemma_row_span(s.bottom, s.rows, s.columns);
    lemma_row_order(s.top, s.bottom, s.columns);
    let t = s.write_cell(code_point, attribute);
    if row == s.bottom {
        assert forall|column: int| 0 <= column < s.columns implies #[trigger] t.cell_at(
            s.bottom,
            column,
        ) == blank_cell() by {
            assert(1 * s.columns == s.columns) by (nonlinear_arith);
        }
        if s.top < s.bottom {
            lemma_row_span(s.bottom - 1, s.rows, s.columns);
            lemma_row_order(s.top, s.bottom - 1, s.columns);
            assert(1 * s.columns == s.columns) by (nonlinear_arith);
        }
    }
}

} // verus!

verus! {

/// Characters written where the row has room for them and one more land side
/// by side from the cursor on, and the cursor ends behind the last; nothing
/// else changes but the damage flags of the cells written.
pub proof fn lemma_write_within_row(s: Screen, code_points: Seq<u32>, attribute: Attribute)
    requires
        s.wf(),
        s.cursor.column + code_points.len() < s.columns,
    ensures
        s.write_run(code_points, attribute).wf(),
        s.write_run(code_points, attribute) == (Screen {
            cells: s.write_run(code_points, attribute).cells,
            dirty: s.write_run(code_points, attribute).dirty,
            cursor: CursorPos {
                row: s.cursor.row,
                column: (s.cursor.column + code_points.len()) as u16,
            },
            ..s
        }),
        s.write_run(code_points, attribute).cells.len() == s.cells.len(),
        forall|i: int|
            0 <= i < s.cells.len() ==> #[trigger] s.write_run(code_points, attribute).cells[i] == (
            if s.cursor_index() <= i < s.cursor_index() + code_points.len() {
                Cell { code_point: code_points[i - s.cursor_index()], attribute }
            } else {
                s.cells[i]
            }),
        forall|i: int|
            0 <= i < s.cells.len() ==> #[trigger] s.write_run(code_points, attribute).dirty[i] == (
            s.dirty[i] || s.cursor_index() <= i < s.cursor_index() + code_points.len()),
    decreases code_points.len(),
{
    lemma_row_span(s.cursor.row as int, s.rows, s.columns);
    if code_points.len() > 0 {
        lemma_write_within_row(s, code_points.drop_last(), attribute);
    }
}

/// Writing a row full: characters that fill the row from the cursor to the
/// last column move the cursor to the first column of the next row. Where
/// the row is the last of the scroll region, the region scrolls up by one row
/// instead: the cursor keeps its row, the row scrolled in is blank in every
/// column, and the characters are found one row up if the region has more
/// than one row. Without a scroll they stand where they were written.
pub proof fn lemma_write_full_row(s: Screen, code_points: Seq<u32>, attribute: Attribute)
    requires
        s.wf(),
        code_points.len() > 0,
        s.cursor.column + code_points.len() == s.columns,
    ensures
        s.write_run(code_points, attribute).wf(),
        s.write_run(code_points, attribute).cursor.column == 0,
        s.cursor.row != s.bottom ==> {
            &&& s.write_run(code_points, attribute).cursor.row == (if s.cursor.row + 1 < s.rows {
                s.cursor.row + 1
            } else {
                s.cursor.row as int
            })
            &&& forall|j: int|
                0 <= j < code_points.len() ==> #[trigger] s.write_run(code_points, attribute).cell_at(
                    s.cursor.row as int,
                    s.cursor.column + j,
                ) == (Cell { code_point: code_points[j], attribute })
        },
        s.cursor.row == s.bottom ==> {
            &&& s.write_run(code_points, attribute).cursor.row == s.cursor.row
            &&& forall|column: int|
                0 <= column < s.columns ==> #[trigger] s.write_run(code_points, attribute).cell_at(
                    s.bottom,
                    column,
                ) == blank_cell()
            &&& s.top < s.bottom ==> forall|j: int|
                0 <= j < code_points.len() ==> #[trigger] s.write_run(code_points, attribute).cell_at(
                    s.bottom - 1,
                    s.cursor.column + j,
                ) == (Cell { code_point: code_points[j], attribute })
        },
{
    let row = s.cursor.row as int;
    let before = s.write_run(code_points.drop_last(), attribute);
    let after = s.write_run(code_points, attribute);
    lemma_write_within_row(s, code_points.drop_last(), attribute);
    lemma_write_at_right_margin(before, code_points.last(), attribute);
    lemma_row_span(row, s.rows, s.columns);
    lemma_row_span(s.top, s.rows, s.columns);
    lemma_row_span(s.bottom, s.rows, s.columns);
    lemma_row_order(s.top, s.bottom, s.columns);
    assert(1 * s.columns == s.columns) by (nonlinear_arith);
    let written = before.put(before.cursor_index(), Cell { code_point: code_points.last(), attribute });
    assert(before.cursor_index() == s.cursor_index() + code_points.len() - 1);
    assert forall|j: int| 0 <= j < code_points.len() implies #[trigger] written.cells[s.cursor_index()
        + j] == (Cell { code_point: code_points[j], attribute }) by {
        if j < code_points.len() - 1 {
            assert(before.cells[s.cursor_index() + j] == (Cell {
                code_point: code_points.drop_last()[j],
                attribute,
            }));
        }
    }
    if row != s.bottom {
        assert(after.cells == written.cells);
        assert forall|j: int| 0 <= j < code_points.len() implies #[trigger] after.cell_at(
            row,
            s.cursor.column + j,
        ) == (Cell { code_point: code_points[j], attribute }) by {
            assert(after.cell_at(row, s.cursor.column + j) == written.cells[s.cursor_index() + j]);
        }
    } else if s.top < s.bottom {
        lemma_row_span(s.bottom - 1, s.rows, s.columns);
        lemma_row_order(s.top, s.bottom - 1, s.columns);
        assert forall|j: int| 0 <= j < code_points.len() implies #[trigger] after.cell_at(
            s.bottom - 1,
            s.cursor.column + j,
        ) == (Cell { code_point: code_points[j], attribute }) by {
            let i = after.index(s.bottom - 1, s.cursor.column + j);
            assert(i + s.columns == s.cursor_index() + j);
            assert(after.cells[i] == written.cells[i + s.columns]);
        }
    }
}

} // verus!

verus! {

/// A cell lies in the rows `first ..= last` exactly if its index lies
/// between the first cell of row `first` and the last cell of row `last`.
pub proof fn lemma_rows_as_range(row: int, column: int, columns: int, first: int, last: int)
    requires
        0 <= column < columns,
    ensures
        (first * columns <= row * columns + column < (last + 1) * columns) <==> (first <= row
            <= last),
{
    if first <= row {
        lemma_row_order_signed(first, row, columns);
    } else {
        lemma_row_order_signed(row + 1, first, columns);
        assert((row + 1) * columns == row * columns + columns) by (nonlinear_arith);
    }
    if row <= last {
        lemma_row_order_signed(row + 1, last + 1, columns);
        assert((row + 1) * columns == row * columns + columns) by (nonlinear_arith);
    } else {
        lemma_row_order_signed(last + 1, row, columns);
    }
}

/// Rows further down start further along, for rows counted from anywhere.
pub proof fn lemma_row_order_signed(first: int, second: int, columns: int)
    by (nonlinear_arith)
    requires
        first <= second,
        0 < columns,
    ensures
        first * columns <= second * columns,
{
}

/// What a scroll does, row by row: inside the scroll region a cell takes the
/// content of the cell `amount` rows below it (above it, for a negative
/// amount) if that row is in the region, and becomes blank if it is not;
/// outside the region every cell keeps its content. The cells of the region
/// are marked for redraw unless the amount is zero; no other flag changes.
pub proof fn lemma_scroll_by_rows(s: Screen, amount: int, row: int, column: int)
    requires
        s.wf(),
        0 <= row < s.rows,
        0 <= column < s.columns,
    ensures
        s.scroll(amount).wf(),
        s.scroll(amount).cell_at(row, column) == (if s.top <= row <= s.bottom {
            if s.top <= row + amount <= s.bottom {
                s.cell_at(row + amount, column)
            } else {
                blank_cell()
            }
        } else {
            s.cell_at(row, column)
        }),
        s.scroll(amount).dirty_at(row, column) == (s.dirty_at(row, column) || (amount != 0
            && s.top <= row <= s.bottom)),
        s.scroll(amount).cursor == s.cursor,
{
    lemma_row_span(row, s.rows, s.columns);
    lemma_row_span(s.top, s.rows, s.columns);
    lemma_row_span(s.bottom, s.rows, s.columns);
    lemma_rows_as_range(row, column, s.columns, s.top, s.bottom);
    lemma_rows_as_range(row + amount, column, s.columns, s.top, s.bottom);
    assert((row + amount) * s.columns == row * s.columns + amount * s.columns)
        by (nonlinear_arith);
}

/// What an erase does, cell by cell: the cells of the erased part become
/// blank and are marked for redraw, every other cell and flag stays. The
/// erased part is, by kind: the cursor's row from the cursor on; the
/// cursor's row; the cursor's row from the cursor on and every row below;
/// every row.
pub proof fn lemma_erase_by_cells(s: Screen, kind: EraseKind, row: int, column: int)
    requires
        s.wf(),
        0 <= row < s.rows,
        0 <= column < s.columns,
    ensures
        s.erase(kind).wf(),
        s.erase(kind).cursor == s.cursor,
        s.erase(kind).cell_at(row, column) == (if erased(s, kind, row, column) {
            blank_cell()
        } else {
            s.cell_at(row, column)
        }),
        s.erase(kind).dirty_at(row, column) == (s.dirty_at(row, column) || erased(
            s,
            kind,
            row,
            column,
        )),
{
    let at = s.cursor.row as int;
    lemma_row_span(row, s.rows, s.columns);
    lemma_row_span(at, s.rows, s.columns);
    lemma_rows_as_range(row, column, s.columns, at, at);
    lemma_rows_as_range(row, column, s.columns, at + 1, s.rows - 1);
    lemma_rows_as_range(row, column, s.columns, 0, s.rows - 1);
    assert(0 * s.columns == 0) by (nonlinear_arith);
}

/// Whether `erase(kind)` clears the cell at `(row, column)`.
pub open spec fn erased(s: Screen, kind: EraseKind, row: int, column: int) -> bool {
    match kind {
        EraseKind::ToEndOfLine => row == s.cursor.row && column >= s.cursor.column,
        EraseKind::WholeLine => row == s.cursor.row,
        EraseKind::ToEndOfScreen => row > s.cursor.row || (row == s.cursor.row && column
            >= s.cursor.column),
        EraseKind::WholeScreen => true,
    }
}

} // verus!

verus! {

/// Only a flush clears damage: a cell that awaits its redraw still awaits it
/// after any mutation that keeps the size of the grid, and after a resize
/// every cell does.
pub proof fn lemma_damage_stays(s: Screen, i: int)
    requires
        s.wf(),
        0 <= i < s.dirty.len(),
        s.dirty[i],
    ensures
        forall|code_point: u32, attribute: Attribute| #[trigger]
            s.write_cell(code_point, attribute).dirty[i],
        forall|row: int, column: int| #[trigger] s.move_cursor(row, column).dirty[i],
        forall|kind: EraseKind| #[trigger] s.erase(kind).dirty[i],
        forall|attribute: Attribute| #[trigger] s.set_attribute(attribute).dirty[i],
        forall|top: int, bottom: int| #[trigger] s.set_scroll_region(top, bottom).dirty[i],
        forall|amount: int| #[trigger] s.scroll(amount).dirty[i],
        s.line_feed().dirty[i],
        s.reverse_index().dirty[i],
        forall|rows: int, columns: int, j: int|
            0 <= j < s.resize(rows, columns).dirty.len() ==> #[trigger] s.resize(
                rows,
                columns,
            ).dirty[j],
{
    lemma_row_span(s.cursor.row as int, s.rows, s.columns);
}

} // verus!
