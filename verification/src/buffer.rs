//! The screen buffer: the character grid of the terminal with its cursor,
//! scroll region, write attribute and per-cell damage flags.

use vstd::prelude::*;
use crate::cell::{Attribute, Cell, CursorPos, blank_cell};
use crate::screen::{
    EraseKind, Screen, clamp_dimension, lemma_grid_size, lemma_position_of_index,
    lemma_row_order, lemma_row_span,
};

verus! {

/// The grid that the shell draws on. Its abstract value `self@` is a
/// [`Screen`], which is well formed at all times.
pub struct ScreenBuffer {
    rows: u16,
    columns: u16,
    cells: Vec<Cell>,
    dirty: Vec<bool>,
    cursor: CursorPos,
    top: u16,
    bottom: u16,
    attribute: Attribute,
}

impl View for ScreenBuffer {
    type V = Screen;

    closed spec fn view(&self) -> Screen {
        Screen {
            rows: self.rows as int,
            columns: self.columns as int,
            cells: self.cells@,
            dirty: self.dirty@,
            cursor: self.cursor,
            top: self.top as int,
            bottom: self.bottom as int,
            attribute: self.attribute,
        }
    }
}

/// `n` blank cells.
fn blank_cells(n: usize) -> (cells: Vec<Cell>)
    ensures
        cells@ == Seq::new(n as nat, |i: int| blank_cell()),
{
    let mut cells: Vec<Cell> = Vec::new();
    let mut i: usize = 0;
    while i < n
        invariant
            i <= n,
            cells@ == Seq::new(i as nat, |j: int| blank_cell()),
        decreases n - i,
    {
        cells.push(Cell::blank());
        i = i + 1;
    }
    cells
}

/// `n` damage flags of one value.
fn flags(n: usize, value: bool) -> (flags: Vec<bool>)
    ensures
        flags@ == Seq::new(n as nat, |i: int| value),
{
    let mut flags: Vec<bool> = Vec::new();
    let mut i: usize = 0;
    while i < n
        invariant
            i <= n,
            flags@ == Seq::new(i as nat, |j: int| value),
        decreases n - i,
    {
        flags.push(value);
        i = i + 1;
    }
    flags
}

/// The dimension that a buffer takes for a requested one.
fn bounded_dimension(n: u16) -> (d: u16)
    ensures
        d == clamp_dimension(n as int),
{
    if n < 1 {
        1
    } else {
        n
    }
}

impl ScreenBuffer {
    #[verifier::type_invariant]
    spec fn inv(self) -> bool {
        self@.wf()
    }

    /// A blank buffer of `rows` by `columns` cells, each dimension raised to
    /// at least 1, with nothing marked for redraw.
    pub fn new(rows: u16, columns: u16) -> (buffer: ScreenBuffer)
        ensures
            buffer@ == Screen::blank(clamp_dimension(rows as int), clamp_dimension(columns as int)),
            buffer@.wf(),
    {
        let rows = bounded_dimension(rows);
        let columns = bounded_dimension(columns);
        proof {
            lemma_grid_size(rows as int, columns as int);
        }
        let size: usize = rows as usize * columns as usize;
        ScreenBuffer {
            rows,
            columns,
            cells: blank_cells(size),
            dirty: flags(size, false),
            cursor: CursorPos::new(0, 0),
            top: 0,
            bottom: rows - 1,
            attribute: Attribute::default(),
        }
    }

    /// The number of rows of the grid.
    pub fn rows(&self) -> (rows: u16)
        ensures
            rows == self@.rows,
            self@.wf(),
    {
        proof {
            use_type_invariant(self);
        }
        self.rows
    }

    /// The number of columns of the grid.
    pub fn columns(&self) -> (columns: u16)
        ensures
            columns == self@.columns,
            self@.wf(),
    {
        proof {
            use_type_invariant(self);
        }
        self.columns
    }

    /// Where the next character will be written.
    pub fn cursor(&self) -> (cursor: CursorPos)
        ensures
            cursor == self@.cursor,
            self@.wf(),
    {
        proof {
            use_type_invariant(self);
        }
        self.cursor
    }

    /// The current write attribute.
    pub fn attribute(&self) -> (attribute: Attribute)
        ensures
            attribute == self@.attribute,
    {
        self.attribute
    }

    /// The first and the last row of the scroll region.
    pub fn scroll_region(&self) -> (region: (u16, u16))
        ensures
            region.0 == self@.top,
            region.1 == self@.bottom,
            self@.wf(),
    {
        proof {
            use_type_invariant(self);
        }
        (self.top, self.bottom)
    }

    /// The content at `(row, column)`, or `None` outside the grid.
    pub fn cell_at(&self, row: u16, column: u16) -> (cell: Option<Cell>)
        ensures
            cell == (if row < self@.rows && column < self@.columns {
                Some(self@.cell_at(row as int, column as int))
            } else {
                None
            }),
    {
        proof {
            use_type_invariant(self);
        }
        if row < self.rows && column < self.columns {
            proof {
                lemma_grid_size(self.rows as int, self.columns as int);
                lemma_row_span(row as int, self.rows as int, self.columns as int);
            }
            let index: usize = row as usize * self.columns as usize + column as usize;
            Some(self.cells[index])
        } else {
            None
        }
    }

    /// Whether the cell at `(row, column)` awaits a redraw; `false` outside
    /// the grid.
    pub fn is_dirty(&self, row: u16, column: u16) -> (dirty: bool)
        ensures
            dirty == (row < self@.rows && column < self@.columns && self@.dirty_at(
                row as int,
                column as int,
            )),
    {
        proof {
            use_type_invariant(self);
        }
        if row < self.rows && column < self.columns {
            proof {
                lemma_grid_size(self.rows as int, self.columns as int);
                lemma_row_span(row as int, self.rows as int, self.columns as int);
            }
            let index: usize = row as usize * self.columns as usize + column as usize;
            self.dirty[index]
        } else {
            false
        }
    }

    /// Blanks the cells `lo .. hi` and marks them for redraw.
    fn fill(&mut self, lo: usize, hi: usize)
        requires
            lo <= hi <= old(self)@.cells.len(),
        ensures
            final(self)@ == old(self)@.fill(lo as int, hi as int),
            final(self)@.wf(),
    {
        proof {
            use_type_invariant(&*self);
        }
        let ghost before = self@;
        let mut i: usize = lo;
        assert(before.fill(lo as int, lo as int).cells =~= before.cells);
        assert(before.fill(lo as int, lo as int).dirty =~= before.dirty);
        while i < hi
            invariant
                lo <= i <= hi <= before.cells.len(),
                before.wf(),
                self@ == before.fill(lo as int, i as int),
            decreases hi - i,
        {
            self.cells[i] = Cell::blank();
            self.dirty[i] = true;
            i = i + 1;
            assert(self@.cells =~= before.fill(lo as int, i as int).cells);
            assert(self@.dirty =~= before.fill(lo as int, i as int).dirty);
        }
    }

    /// Moves the content of the cells `lo .. hi` by `d` places towards `lo`.
    fn shift_up(&mut self, lo: usize, hi: usize, d: usize)
        requires
            lo <= hi <= old(self)@.cells.len(),
            0 < d <= hi - lo,
        ensures
            final(self)@ == old(self)@.shift(lo as int, hi as int, d as int),
            final(self)@.wf(),
    {
        proof {
            use_type_invariant(&*self);
        }
        let ghost before = self@;
        let ghost after = before.shift(lo as int, hi as int, d as int);
        let mut i: usize = lo;
        while i < hi
            invariant
                lo <= i <= hi <= before.cells.len(),
                0 < d <= hi - lo,
                before.wf(),
                after == before.shift(lo as int, hi as int, d as int),
                self@.wf(),
                self@.rows == before.rows,
                self@.columns == before.columns,
                self@.cursor == before.cursor,
                self@.top == before.top,
                self@.bottom == before.bottom,
                self@.attribute == before.attribute,
                self@.cells.len() == before.cells.len(),
                forall|j: int| 0 <= j < i ==> self@.cells[j] == after.cells[j],
                forall|j: int| i <= j < before.cells.len() ==> self@.cells[j] == before.cells[j],
                forall|j: int| 0 <= j < i ==> self@.dirty[j] == after.dirty[j],
                forall|j: int| i <= j < before.cells.len() ==> self@.dirty[j] == before.dirty[j],
            decreases hi - i,
        {
            let cell = if i < hi - d {
                self.cells[i + d]
            } else {
                Cell::blank()
            };
            self.cells[i] = cell;
            self.dirty[i] = true;
            i = i + 1;
        }
        assert(self@.cells =~= after.cells);
        assert(self@.dirty =~= after.dirty);
    }

    /// Moves the content of the cells `lo .. hi` by `d` places towards `hi`.
    fn shift_down(&mut self, lo: usize, hi: usize, d: usize)
        requires
            lo <= hi <= old(self)@.cells.len(),
            0 < d <= hi - lo,
        ensures
            final(self)@ == old(self)@.shift(lo as int, hi as int, -(d as int)),
            final(self)@.wf(),
    {
        proof {
            use_type_invariant(&*self);
        }
        let ghost before = self@;
        let ghost after = before.shift(lo as int, hi as int, -(d as int));
        let mut i: usize = hi;
        while i > lo
            invariant
                lo <= i <= hi <= before.cells.len(),
                0 < d <= hi - lo,
                before.wf(),
                after == before.shift(lo as int, hi as int, -(d as int)),
                self@.wf(),
                self@.rows == before.rows,
                self@.columns == before.columns,
                self@.cursor == before.cursor,
                self@.top == before.top,
                self@.bottom == before.bottom,
                self@.attribute == before.attribute,
                self@.cells.len() == before.cells.len(),
                forall|j: int| i <= j < before.cells.len() ==> self@.cells[j] == after.cells[j],
                forall|j: int| 0 <= j < i ==> self@.cells[j] == before.cells[j],
                forall|j: int| i <= j < before.cells.len() ==> self@.dirty[j] == after.dirty[j],
                forall|j: int| 0 <= j < i ==> self@.dirty[j] == before.dirty[j],
            decreases i - lo,
        {
            i = i - 1;
            let cell = if i - lo >= d {
                self.cells[i - d]
            } else {
                Cell::blank()
            };
            self.cells[i] = cell;
            self.dirty[i] = true;
        }
        assert(self@.cells =~= after.cells);
        assert(self@.dirty =~= after.dirty);
    }

    /// Forgets all damage. To be called once per render pass, after the
    /// renderer has taken the dirty cells.
    pub fn flush(&mut self)
        ensures
            final(self)@ == old(self)@.flush(),
            final(self)@.wf(),
    {
        proof {
            use_type_invariant(&*self);
        }
        let ghost before = self@;
        let n = self.dirty.len();
        let mut i: usize = 0;
        while i < n
            invariant
                i <= n == before.dirty.len(),
                before.wf(),
                self@.wf(),
                self@.cells == before.cells,
                self@.rows == before.rows,
                self@.columns == before.columns,
                self@.cursor == before.cursor,
                self@.top == before.top,
                self@.bottom == before.bottom,
                self@.attribute == before.attribute,
                forall|j: int| 0 <= j < i ==> !self@.dirty[j],
            decreases n - i,
        {
            self.dirty[i] = false;
            i = i + 1;
        }
        assert(self@.dirty =~= before.flush().dirty);
    }

    /// Clears a part of the grid to blank cells of the default attribute and
    /// marks the cleared cells for redraw. The cursor does not move.
    pub fn erase(&mut self, kind: EraseKind)
        ensures
            final(self)@ == old(self)@.erase(kind),
            final(self)@.wf(),
    {
        proof {
            use_type_invariant(&*self);
            lemma_grid_size(self.rows as int, self.columns as int);
            lemma_row_span(self.cursor.row as int, self.rows as int, self.columns as int);
        }
        let columns = self.columns as usize;
        let line: usize = self.cursor.row as usize * columns;
        let at: usize = line + self.cursor.column as usize;
        let size: usize = self.rows as usize * columns;
        match kind {
            EraseKind::ToEndOfLine => self.fill(at, line + columns),
            EraseKind::WholeLine => self.fill(line, line + columns),
            EraseKind::ToEndOfScreen => self.fill(at, size),
            EraseKind::WholeScreen => self.fill(0, size),
        }
    }

    /// Scrolls the scroll region by `amount` rows: a positive amount moves
    /// the content up and reveals blank rows at the bottom of the region, a
    /// negative one moves it down and reveals blank rows at its top. The
    /// rows of the region are marked for redraw unless `amount` is zero.
    pub fn scroll(&mut self, amount: i32)
        ensures
            final(self)@ == old(self)@.scroll(amount as int),
            final(self)@.wf(),
    {
        proof {
            use_type_invariant(&*self);
            lemma_grid_size(self.rows as int, self.columns as int);
            lemma_row_span(self.top as int, self.rows as int, self.columns as int);
            lemma_row_span(self.bottom as int, self.rows as int, self.columns as int);
            lemma_row_order(self.top as int, self.bottom as int, self.columns as int);
        }
        if amount == 0 {
            return ;
        }
        let ghost before = self@;
        let columns = self.columns as usize;
        let lo: usize = self.top as usize * columns;
        let hi: usize = (self.bottom as usize + 1) * columns;
        let height: usize = (self.bottom - self.top) as usize + 1;
        assert(height * columns == hi - lo) by (nonlinear_arith)
            requires
                height == self.bottom - self.top + 1,
                lo == self.top * columns,
                hi == (self.bottom + 1) * columns,
        ;
        if amount > 0 {
            let wanted = amount as usize;
            let by = if wanted >= height { height } else { wanted };
            assert(0 < by * columns <= height * columns) by (nonlinear_arith)
                requires
                    0 < by <= height,
                    0 < columns,
            ;
            assert(wanted >= height ==> wanted * columns >= height * columns) by (nonlinear_arith)
                requires
                    0 < columns,
            ;
            self.shift_up(lo, hi, by * columns);
            assert(self@.cells =~= before.scroll(amount as int).cells);
            assert(self@.dirty =~= before.scroll(amount as int).dirty);
        } else {
            let wanted: u64 = (-(amount as i64)) as u64;
            let by = if wanted >= height as u64 { height } else { wanted as usize };
            assert(0 < by * columns <= height * columns) by (nonlinear_arith)
                requires
                    0 < by <= height,
                    0 < columns,
            ;
            assert(wanted >= height ==> wanted * columns >= height * columns) by (nonlinear_arith)
                requires
                    0 < columns,
            ;
            assert(amount * columns == -(wanted * columns)) by (nonlinear_arith)
                requires
                    amount == -(wanted as int),
            ;
            self.shift_down(lo, hi, by * columns);
            assert(self@.cells =~= before.scroll(amount as int).cells);
            assert(self@.dirty =~= before.scroll(amount as int).dirty);
        }
    }

    /// Moves the cursor one row down, scrolling the scroll region up by one
    /// row if the cursor is on its last row. On the last row of the grid
    /// outside the region the cursor stays.
    pub fn line_feed(&mut self)
        ensures
            final(self)@ == old(self)@.line_feed(),
            final(self)@.wf(),
    {
        proof {
            use_type_invariant(&*self);
        }
        if self.cursor.row == self.bottom {
            self.scroll(1);
        } else if self.cursor.row + 1 < self.rows {
            self.cursor = CursorPos::new(self.cursor.row + 1, self.cursor.column);
        }
    }

    /// Moves the cursor one row up, scrolling the scroll region down by one
    /// row if the cursor is on its first row. On the first row of the grid
    /// outside the region the cursor stays.
    pub fn reverse_index(&mut self)
        ensures
            final(self)@ == old(self)@.reverse_index(),
            final(self)@.wf(),
    {
        proof {
            use_type_invariant(&*self);
        }
        if self.cursor.row == self.top {
            self.scroll(-1);
        } else if self.cursor.row > 0 {
            self.cursor = CursorPos::new(self.cursor.row - 1, self.cursor.column);
        }
    }

    /// Writes a character with an attribute at the cursor, marks that cell
    /// for redraw and advances the cursor: one column to the right, or from
    /// the last column to the first column of the next row, scrolling the
    /// scroll region up by one row when the cursor was on its last row.
    pub fn write_cell(&mut self, code_point: u32, attribute: Attribute)
        ensures
            final(self)@ == old(self)@.write_cell(code_point, attribute),
            final(self)@.wf(),
    {
        proof {
            use_type_invariant(&*self);
            lemma_grid_size(self.rows as int, self.columns as int);
            lemma_row_span(self.cursor.row as int, self.rows as int, self.columns as int);
        }
        let index: usize = self.cursor.row as usize * self.columns as usize
            + self.cursor.column as usize;
        self.cells[index] = Cell::new(code_point, attribute);
        self.dirty[index] = true;
        if self.cursor.column + 1 < self.columns {
            self.cursor = CursorPos::new(self.cursor.row, self.cursor.column + 1);
        } else {
            self.cursor = CursorPos::new(self.cursor.row, 0);
            self.line_feed();
        }
    }

    /// The cells that were written since the last flush, in row-major order,
    /// each with its position. The damage flags stay set until `flush`.
    pub fn dirty_cells(&self) -> (cells: Vec<(Cell, CursorPos)>)
        ensures
            cells@ == self@.dirty_cells(),
            self@.wf(),
    {
        proof {
            use_type_invariant(self);
            lemma_grid_size(self.rows as int, self.columns as int);
        }
        let mut cells: Vec<(Cell, CursorPos)> = Vec::new();
        let mut row: u16 = 0;
        while row < self.rows
            invariant
                self@.wf(),
                row <= self.rows,
                self.rows * self.columns <= 0xffff * 0xffff,
                cells@ == self@.dirty_prefix(row * self.columns),
            decreases self.rows - row,
        {
            proof {
                lemma_row_span(row as int, self.rows as int, self.columns as int);
            }
            let line: usize = row as usize * self.columns as usize;
            let mut column: u16 = 0;
            while column < self.columns
                invariant
                    self@.wf(),
                    row < self.rows,
                    column <= self.columns,
                    line == row * self.columns,
                    line + self.columns <= self.rows * self.columns,
                    self.rows * self.columns <= 0xffff * 0xffff,
                    cells@ == self@.dirty_prefix(line + column),
                decreases self.columns - column,
            {
                let index: usize = line + column as usize;
                proof {
                    lemma_position_of_index(self@, row as int, column as int);
                }
                if self.dirty[index] {
                    cells.push((self.cells[index], CursorPos::new(row, column)));
                }
                column = column + 1;
            }
            row = row + 1;
        }
        cells
    }

    /// Gives the grid `rows` by `columns` cells, each dimension raised to at
    /// least 1. Content is kept where the old and the new grid overlap, seen
    /// from the top-left corner, and is discarded elsewhere; the cursor and
    /// the scroll region are clamped into the new grid; every cell of the
    /// new grid is marked for redraw.
    pub fn resize(&mut self, rows: u16, columns: u16)
        ensures
            final(self)@ == old(self)@.resize(rows as int, columns as int),
            final(self)@.wf(),
    {
        proof {
            use_type_invariant(&*self);
        }
        let ghost before = self@;
        let rows = bounded_dimension(rows);
        let columns = bounded_dimension(columns);
        proof {
            lemma_grid_size(rows as int, columns as int);
            lemma_grid_size(self.rows as int, self.columns as int);
        }
        let ghost after = before.resize(rows as int, columns as int);
        let size: usize = rows as usize * columns as usize;
        let mut cells: Vec<Cell> = Vec::new();
        let mut row: u16 = 0;
        while row < rows
            invariant
                self@ == before,
                before.wf(),
                1 <= rows,
                1 <= columns,
                after == before.resize(rows as int, columns as int),
                after.rows == rows,
                after.columns == columns,
                row <= rows,
                cells@.len() == row * columns,
                forall|i: int| 0 <= i < cells@.len() ==> cells@[i] == after.cells[i],
            decreases rows - row,
        {
            proof {
                lemma_row_span(row as int, rows as int, columns as int);
            }
            let mut column: u16 = 0;
            while column < columns
                invariant
                    self@ == before,
                    before.wf(),
                    1 <= rows,
                    1 <= columns,
                    after == before.resize(rows as int, columns as int),
                    after.rows == rows,
                    after.columns == columns,
                    row < rows,
                    column <= columns,
                    row * columns + columns <= rows * columns,
                    (row + 1) * columns == row * columns + columns,
                    cells@.len() == row * columns + column,
                    forall|i: int| 0 <= i < cells@.len() ==> cells@[i] == after.cells[i],
                decreases columns - column,
            {
                proof {
                    vstd::arithmetic::div_mod::lemma_fundamental_div_mod_converse(
                        row * columns + column,
                        columns as int,
                        row as int,
                        column as int,
                    );
                }
                let cell = match self.cell_at(row, column) {
                    Some(cell) => cell,
                    None => Cell::blank(),
                };
                cells.push(cell);
                column = column + 1;
            }
            row = row + 1;
        }
        assert(cells@ =~= after.cells);
        let cursor = CursorPos::new(
            if self.cursor.row >= rows { rows - 1 } else { self.cursor.row },
            if self.cursor.column >= columns { columns - 1 } else { self.cursor.column },
        );
        let top = if self.top >= rows { rows - 1 } else { self.top };
        let bottom = if self.bottom >= rows { rows - 1 } else { self.bottom };
        *self = ScreenBuffer {
            rows,
            columns,
            cells,
            dirty: flags(size, true),
            cursor,
            top,
            bottom,
            attribute: self.attribute,
        };
    }

    /// Sets the attribute for the characters written from now on.
    pub fn set_attribute(&mut self, attribute: Attribute)
        ensures
            final(self)@ == old(self)@.set_attribute(attribute),
            final(self)@.wf(),
    {
        proof {
            use_type_invariant(&*self);
        }
        self.attribute = attribute;
    }

    /// Places the cursor at `(row, column)`, clamped to the grid.
    pub fn move_cursor(&mut self, row: u16, column: u16)
        ensures
            final(self)@ == old(self)@.move_cursor(row as int, column as int),
            final(self)@.wf(),
    {
        proof {
            use_type_invariant(&*self);
        }
        let row = if row >= self.rows { self.rows - 1 } else { row };
        let column = if column >= self.columns { self.columns - 1 } else { column };
        self.cursor = CursorPos::new(row, column);
    }

    /// Makes the rows `top ..= bottom` the scroll region, if they are rows of
    /// the grid with `top <= bottom`; otherwise the region stays as it is.
    pub fn set_scroll_region(&mut self, top: u16, bottom: u16)
        ensures
            final(self)@ == old(self)@.set_scroll_region(top as int, bottom as int),
            final(self)@.wf(),
    {
        proof {
            use_type_invariant(&*self);
        }
        if top <= bottom && bottom < self.rows {
            // Widen before narrowing, so that the region is never empty.
            if top <= self.bottom {
                self.top = top;
                self.bottom = bottom;
            } else {
                self.bottom = bottom;
                self.top = top;
            }
        }
    }
}

} // verus!
