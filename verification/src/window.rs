//! What a window-backed renderer computes between the window system and the
//! display contract: which event a key or the mouse gives, how many cells
//! fit the window, and where a cell lies in pixels.
//!
//! Nothing here talks to a window system. A renderer turns what the
//! window system hands it into the plain values below and draws what comes
//! back.

use vstd::prelude::*;
use crate::cell::{Cell, CursorPos};
use crate::display::{Event, UpdateResult};

verus! {

/// The keys that the terminal treats itself; every other key is `Other`.
#[derive(Clone, Copy, Debug, PartialEq, Eq, Structural)]
pub enum Key {
    Up,
    Down,
    Right,
    Left,
    Home,
    End,
    PageUp,
    PageDown,
    Tab,
    Escape,
    Equal,
    Minus,
    Other,
}

/// The mouse buttons that the terminal treats; every other is `Other`.
#[derive(Clone, Copy, Debug, PartialEq, Eq, Structural)]
pub enum MouseButton {
    Left,
    WheelUp,
    WheelDown,
    Other,
}

/// What a key press leads to.
#[derive(Clone, Debug, PartialEq, Eq)]
pub enum KeyAction {
    /// Report this event to the engine.
    Emit(UpdateResult),
    /// Load the font in this size, then report the new grid.
    FontSize(i32),
    /// Ask the keyboard mapping for the text of the key and report it as
    /// input.
    Lookup,
}

/// The abstract value of a [`KeyAction`].
pub ghost enum KeyOutcome {
    Emit(Event),
    FontSize(i32),
    Lookup,
}

impl View for KeyAction {
    type V = KeyOutcome;

    open spec fn view(&self) -> KeyOutcome {
        match self {
            KeyAction::Emit(event) => KeyOutcome::Emit(event@),
            KeyAction::FontSize(size) => KeyOutcome::FontSize(*size),
            KeyAction::Lookup => KeyOutcome::Lookup,
        }
    }
}

/// A click counts as the second of a double click if it follows the first
/// by less than this many milliseconds.
pub const DOUBLE_CLICK_MILLIS: u64 = 200;

/// The bytes that a cursor or editing key sends to the shell, whatever the
/// modifiers: `ESC [` and a letter for the arrows, Home and End; the tab and
/// escape characters for their keys.
pub open spec fn key_bytes(key: Key) -> Option<Seq<u8>> {
    match key {
        Key::Up => Some(seq![0x1bu8, 0x5bu8, 0x41u8]),
        Key::Down => Some(seq![0x1bu8, 0x5bu8, 0x42u8]),
        Key::Right => Some(seq![0x1bu8, 0x5bu8, 0x43u8]),
        Key::Left => Some(seq![0x1bu8, 0x5bu8, 0x44u8]),
        Key::Home => Some(seq![0x1bu8, 0x5bu8, 0x48u8]),
        Key::End => Some(seq![0x1bu8, 0x5bu8, 0x46u8]),
        Key::Tab => Some(seq![0x09u8]),
        Key::Escape => Some(seq![0x1bu8]),
        _ => None,
    }
}

/// What a key press leads to. Page Up and Page Down move through the
/// scrollback by a screenful with Shift and send `ESC [ 5 ~` and `ESC [ 6 ~`
/// without; `=` and `-` with Control and Shift change the font size by one;
/// the keys of `key_bytes` send their bytes; every other key is left to the
/// keyboard mapping.
pub open spec fn key_outcome(key: Key, shift: bool, control: bool, rows: i32, font_size: i32) -> KeyOutcome {
    match key {
        Key::PageUp => if shift {
            KeyOutcome::Emit(Event::ScrollViewport(rows))
        } else {
            KeyOutcome::Emit(Event::Input(seq![0x1bu8, 0x5bu8, 0x35u8, 0x7eu8]))
        },
        Key::PageDown => if shift {
            KeyOutcome::Emit(Event::ScrollViewport((-rows) as i32))
        } else {
            KeyOutcome::Emit(Event::Input(seq![0x1bu8, 0x5bu8, 0x36u8, 0x7eu8]))
        },
        Key::Equal => if control && shift {
            KeyOutcome::FontSize((font_size + 1) as i32)
        } else {
            KeyOutcome::Lookup
        },
        Key::Minus => if control && shift {
            KeyOutcome::FontSize((font_size - 1) as i32)
        } else {
            KeyOutcome::Lookup
        },
        _ => match key_bytes(key) {
            Some(bytes) => KeyOutcome::Emit(Event::Input(bytes)),
            None => KeyOutcome::Lookup,
        },
    }
}

fn emit(bytes: Vec<u8>) -> (action: KeyAction)
    ensures
        action@ == KeyOutcome::Emit(Event::Input(bytes@)),
{
    KeyAction::Emit(UpdateResult::Input(bytes))
}

fn escape_bracket(last: u8) -> (bytes: Vec<u8>)
    ensures
        bytes@ == seq![0x1bu8, 0x5bu8, last],
{
    let mut bytes: Vec<u8> = Vec::new();
    bytes.push(0x1b);
    bytes.push(0x5b);
    bytes.push(last);
    assert(bytes@ =~= seq![0x1bu8, 0x5bu8, last]);
    bytes
}

fn escape_bracket_tilde(digit: u8) -> (bytes: Vec<u8>)
    ensures
        bytes@ == seq![0x1bu8, 0x5bu8, digit, 0x7eu8],
{
    let mut bytes = escape_bracket(digit);
    bytes.push(0x7e);
    assert(bytes@ =~= seq![0x1bu8, 0x5bu8, digit, 0x7eu8]);
    bytes
}

fn single(byte: u8) -> (bytes: Vec<u8>)
    ensures
        bytes@ == seq![byte],
{
    let mut bytes: Vec<u8> = Vec::new();
    bytes.push(byte);
    assert(bytes@ =~= seq![byte]);
    bytes
}

/// Decides what a key press leads to. `rows` is the height of the window in
/// rows, `font_size` the current size of the font. Where the key negates
/// `rows` or changes `font_size` by one, the result must be a number.
pub fn on_key_pressed(key: Key, shift: bool, control: bool, rows: i32, font_size: i32) -> (action:
    KeyAction)
    requires
        key == Key::PageDown && shift ==> rows > i32::MIN,
        key == Key::Equal && control && shift ==> font_size < i32::MAX,
        key == Key::Minus && control && shift ==> font_size > i32::MIN,
    ensures
        action@ == key_outcome(key, shift, control, rows, font_size),
{
    match key {
        Key::Up => emit(escape_bracket(0x41)),
        Key::Down => emit(escape_bracket(0x42)),
        Key::Right => emit(escape_bracket(0x43)),
        Key::Left => emit(escape_bracket(0x44)),
        Key::Home => emit(escape_bracket(0x48)),
        Key::End => emit(escape_bracket(0x46)),
        Key::PageUp => {
            if shift {
                KeyAction::Emit(UpdateResult::scroll_viewport(rows))
            } else {
                emit(escape_bracket_tilde(0x35))
            }
        },
        Key::PageDown => {
            if shift {
                KeyAction::Emit(UpdateResult::scroll_viewport(-rows))
            } else {
                emit(escape_bracket_tilde(0x36))
            }
        },
        Key::Tab => emit(single(0x09)),
        Key::Escape => emit(single(0x1b)),
        Key::Equal => {
            if control && shift {
                KeyAction::FontSize(font_size + 1)
            } else {
                KeyAction::Lookup
            }
        },
        Key::Minus => {
            if control && shift {
                KeyAction::FontSize(font_size - 1)
            } else {
                KeyAction::Lookup
            }
        },
        Key::Other => KeyAction::Lookup,
    }
}

/// `a / b` rounded towards zero, for a positive `b`.
pub open spec fn quotient(a: int, b: int) -> int {
    if a >= 0 {
        a / b
    } else {
        -((-a) / b)
    }
}

/// The largest width, height or descent of a font that the metrics hold.
pub const MAX_FONT_EXTENT: i32 = 0x7fff;

/// The extents of a fixed-width font in pixels.
#[derive(Clone, Copy, Debug)]
pub struct Metrics {
    font_width: i32,
    font_height: i32,
    font_descent: i32,
}

/// A rectangle of pixels.
#[derive(Clone, Copy, Debug, PartialEq, Eq, Structural)]
pub struct Rect {
    pub x: i32,
    pub y: i32,
    pub width: i32,
    pub height: i32,
}

/// Whether these are extents that a `Metrics` can hold: a width and a
/// height of at least one pixel, a descent of at least none, and none over
/// `MAX_FONT_EXTENT`.
pub open spec fn valid_extents(font_width: int, font_height: int, font_descent: int) -> bool {
    &&& 1 <= font_width <= MAX_FONT_EXTENT
    &&& 1 <= font_height <= MAX_FONT_EXTENT
    &&& 0 <= font_descent <= MAX_FONT_EXTENT
}

impl Metrics {
    #[verifier::type_invariant]
    spec fn inv(self) -> bool {
        valid_extents(self.font_width as int, self.font_height as int, self.font_descent as int)
    }

    pub closed spec fn width(self) -> int {
        self.font_width as int
    }

    pub closed spec fn height(self) -> int {
        self.font_height as int
    }

    pub closed spec fn descent(self) -> int {
        self.font_descent as int
    }

    /// The metrics of a font with these extents, if they are valid.
    pub fn new(font_width: i32, font_height: i32, font_descent: i32) -> (metrics: Option<Self>)
        ensures
            metrics is Some <==> valid_extents(
                font_width as int,
                font_height as int,
                font_descent as int,
            ),
            metrics matches Some(m) ==> m.width() == font_width && m.height() == font_height
                && m.descent() == font_descent && m.valid(),
    {
        if 1 <= font_width && font_width <= MAX_FONT_EXTENT && 1 <= font_height && font_height
            <= MAX_FONT_EXTENT && 0 <= font_descent && font_descent <= MAX_FONT_EXTENT {
            Some(Metrics { font_width, font_height, font_descent })
        } else {
            None
        }
    }

    /// What holds of every `Metrics`.
    pub open spec fn valid(self) -> bool {
        valid_extents(self.width(), self.height(), self.descent())
    }

    pub fn font_width(&self) -> (width: i32)
        ensures
            width == self.width(),
            self.valid(),
    {
        proof {
            use_type_invariant(self);
        }
        self.font_width
    }

    pub fn font_height(&self) -> (height: i32)
        ensures
            height == self.height(),
            self.valid(),
    {
        proof {
            use_type_invariant(self);
        }
        self.font_height
    }

    pub fn font_descent(&self) -> (descent: i32)
        ensures
            descent == self.descent(),
            self.valid(),
    {
        proof {
            use_type_invariant(self);
        }
        self.font_descent
    }

    /// The rows and columns of whole cells that fit a window of `width` by
    /// `height` pixels.
    pub fn grid(&self, width: i32, height: i32) -> (grid: (i32, i32))
        ensures
            grid.0 == quotient(height as int, self.height()),
            grid.1 == quotient(width as int, self.width()),
    {
        proof {
            use_type_invariant(self);
        }
        (divide(height, self.font_height), divide(width, self.font_width))
    }

    /// The event that reports a window of `width` by `height` pixels.
    pub fn on_resize(&self, width: i32, height: i32) -> (event: UpdateResult)
        ensures
            event@ == Event::Resize(
                quotient(height as int, self.height()) as i32,
                quotient(width as int, self.width()) as i32,
                width,
                height,
            ),
    {
        let (rows, columns) = self.grid(width, height);
        UpdateResult::resize(rows, columns, width, height)
    }

    /// The row and column of the cell that holds the pixel `(x, y)`.
    pub fn cell_at(&self, x: i32, y: i32) -> (cell: (i32, i32))
        ensures
            cell.0 == quotient(y as int, self.height()),
            cell.1 == quotient(x as int, self.width()),
    {
        proof {
            use_type_invariant(self);
        }
        (divide(y, self.font_height), divide(x, self.font_width))
    }

    /// The pixels of the cell at `pos`.
    pub fn cell_rect(&self, pos: CursorPos) -> (rect: Rect)
        ensures
            rect == (Rect {
                x: (pos.column * self.width()) as i32,
                y: (pos.row * self.height()) as i32,
                width: self.width() as i32,
                height: self.height() as i32,
            }),
            rect.x == pos.column * self.width(),
            rect.y == pos.row * self.height(),
    {
        proof {
            use_type_invariant(self);
        }
        let (x, y) = self.origin(pos.row, pos.column);
        Rect { x, y, width: self.font_width, height: self.font_height }
    }

    /// The top-left pixel of the cell at `(row, column)`.
    pub fn origin(&self, row: u16, column: u16) -> (origin: (i32, i32))
        ensures
            origin.0 == column * self.width(),
            origin.1 == row * self.height(),
    {
        proof {
            use_type_invariant(self);
        }
        assert(0 <= column * self.font_width <= 0xffff * 0x7fff) by (nonlinear_arith)
            requires
                0 <= column <= 0xffff,
                1 <= self.font_width <= 0x7fff,
        ;
        assert(0 <= row * self.font_height <= 0xffff * 0x7fff) by (nonlinear_arith)
            requires
                0 <= row <= 0xffff,
                1 <= self.font_height <= 0x7fff,
        ;
        (column as i32 * self.font_width, row as i32 * self.font_height)
    }

    /// Where the glyph of the cell at `pos` is drawn: at the left edge of
    /// the cell, on the baseline, which lies the descent above the bottom
    /// edge.
    pub fn glyph_origin(&self, pos: CursorPos) -> (origin: (i32, i32))
        ensures
            origin.0 == pos.column * self.width(),
            origin.1 == (pos.row + 1) * self.height() - self.descent(),
    {
        proof {
            use_type_invariant(self);
        }
        let (x, y) = self.origin(pos.row, pos.column);
        assert((pos.row + 1) * self.font_height == pos.row * self.font_height + self.font_height)
            by (nonlinear_arith);
        assert(0 <= pos.row * self.font_height <= 0xffff * 0x7fff) by (nonlinear_arith)
            requires
                0 <= pos.row <= 0xffff,
                1 <= self.font_height <= 0x7fff,
        ;
        (x, y + self.font_height - self.font_descent)
    }

    /// The pixels of `width` by `height` cells from the cell at `(row,
    /// column)`.
    pub fn cells_rect(&self, row: u16, column: u16, width: u16, height: u16) -> (rect: Rect)
        ensures
            rect.x == column * self.width(),
            rect.y == row * self.height(),
            rect.width == width * self.width(),
            rect.height == height * self.height(),
    {
        let (x, y) = self.origin(row, column);
        let (w, h) = self.origin(height, width);
        Rect { x, y, width: w, height: h }
    }
}

/// How a cell is drawn: its background, and its glyph unless it is empty.
#[derive(Clone, Copy, Debug, PartialEq, Eq, Structural)]
pub struct Placement {
    /// The pixels to fill with the background of the cell.
    pub background: Rect,
    /// The character to draw, if the cell holds one.
    pub glyph: Option<Glyph>,
}

/// A character and the pixel at which its glyph starts on the baseline.
#[derive(Clone, Copy, Debug, PartialEq, Eq, Structural)]
pub struct Glyph {
    pub code_point: u32,
    pub x: i32,
    pub y: i32,
}

/// A copy of full-width pixel rows inside the window, and the rows that it
/// leaves to clear.
#[derive(Clone, Copy, Debug, PartialEq, Eq, Structural)]
pub struct Blit {
    /// First pixel row to copy from.
    pub source_y: i32,
    /// First pixel row to copy to.
    pub target_y: i32,
    /// How many pixel rows to copy.
    pub height: i32,
    /// First pixel row to clear.
    pub clear_y: i32,
    /// How many pixel rows to clear.
    pub clear_height: i32,
}

/// The rows by which a region of `rows` rows really moves for a scroll by
/// `amount`: no more than the region has.
pub open spec fn moved_rows(amount: int, rows: int) -> int {
    let wanted = if amount < 0 {
        -amount
    } else {
        amount
    };
    if wanted > rows {
        rows
    } else {
        wanted
    }
}

impl Metrics {
    /// How the cell `cell` at `pos` is drawn. A cell with the code point 0
    /// holds no character and gets no glyph.
    pub fn place(&self, cell: &Cell, pos: CursorPos) -> (placement: Placement)
        ensures
            placement.background.x == pos.column * self.width(),
            placement.background.y == pos.row * self.height(),
            placement.background.width == self.width(),
            placement.background.height == self.height(),
            cell.code_point == 0 ==> placement.glyph is None,
            cell.code_point != 0 ==> placement.glyph == Some(
                Glyph {
                    code_point: cell.code_point,
                    x: (pos.column * self.width()) as i32,
                    y: ((pos.row + 1) * self.height() - self.descent()) as i32,
                },
            ),
    {
        let background = self.cell_rect(pos);
        let glyph = if cell.code_point == 0 {
            None
        } else {
            let (x, y) = self.glyph_origin(pos);
            Some(Glyph { code_point: cell.code_point, x, y })
        };
        Placement { background, glyph }
    }

    /// How to scroll what is drawn in the rows `top ..= bottom` by `amount`
    /// rows without redrawing: which pixel rows to copy where, and which to
    /// clear. A positive amount moves the content up and clears at the
    /// bottom of the region, a negative one moves it down and clears at the
    /// top. `None` where nothing moves: for no rows, or for no region.
    pub fn scroll_blit(&self, amount: i32, top: u16, bottom: u16) -> (blit: Option<Blit>)
        ensures
            blit is Some <==> amount != 0 && top <= bottom,
            blit matches Some(b) ==> {
                let n = moved_rows(amount as int, bottom - top + 1);
                &&& b.height == (bottom - top + 1 - n) * self.height()
                &&& b.clear_height == n * self.height()
                &&& amount > 0 ==> b.source_y == (top + n) * self.height() && b.target_y == top
                    * self.height() && b.clear_y == (bottom + 1 - n) * self.height()
                &&& amount < 0 ==> b.source_y == top * self.height() && b.target_y == (top + n)
                    * self.height() && b.clear_y == top * self.height()
            },
    {
        proof {
            use_type_invariant(self);
        }
        if amount == 0 || top > bottom {
            return None;
        }
        let rows: i32 = bottom as i32 - top as i32 + 1;
        let wanted: i64 = if amount < 0 {
            -(amount as i64)
        } else {
            amount as i64
        };
        let n: i32 = if wanted > rows as i64 {
            rows
        } else {
            wanted as i32
        };
        let h = self.font_height;
        assert(forall|k: int| 0 <= k <= 0x10000 ==> 0 <= #[trigger] (k * h) <= 0x10000 * 0x7fff)
            by (nonlinear_arith)
            requires
                1 <= h <= 0x7fff,
        ;
        assert(0 <= (rows - n) * h <= 0x10000 * 0x7fff);
        assert(0 <= n * h <= 0x10000 * 0x7fff);
        assert(0 <= top * h <= 0x10000 * 0x7fff);
        assert(0 <= (top + n) * h <= 0x10000 * 0x7fff);
        assert(0 <= (bottom + 1 - n) * h <= 0x10000 * 0x7fff);
        let height = (rows - n) * h;
        let clear_height = n * h;
        let first = top as i32 * h;
        let moved = (top as i32 + n) * h;
        if amount > 0 {
            Some(
                Blit {
                    source_y: moved,
                    target_y: first,
                    height,
                    clear_y: (bottom as i32 + 1 - n) * h,
                    clear_height,
                },
            )
        } else {
            Some(Blit { source_y: first, target_y: moved, height, clear_y: first, clear_height })
        }
    }
}

/// `a / b` rounded towards zero.
fn divide(a: i32, b: i32) -> (q: i32)
    requires
        b > 0,
    ensures
        q == quotient(a as int, b as int),
{
    if a >= 0 {
        a / b
    } else {
        let n: i64 = -(a as i64);
        let q: i64 = n / (b as i64);
        assert(0 <= q <= n) by (nonlinear_arith)
            requires
                q == n / (b as i64),
                n >= 0,
                b > 0,
        ;
        (-q) as i32
    }
}

/// The pointer of a window: whether a selection is being dragged.
#[derive(Clone, Copy, Debug, PartialEq, Eq, Structural)]
pub struct Pointer {
    pub selecting: bool,
}

/// What a button press gives: the wheel moves through the scrollback by
/// one row; the left button reports the cell under the pointer, as a double
/// click if the last click was less than `DOUBLE_CLICK_MILLIS` ago; any
/// other button gives nothing.
pub open spec fn press_event(
    button: MouseButton,
    row: i32,
    column: i32,
    since_last_click: u64,
) -> Option<Event> {
    match button {
        MouseButton::WheelUp => Some(Event::ScrollViewport(1)),
        MouseButton::WheelDown => Some(Event::ScrollViewport(-1i32)),
        MouseButton::Left => if since_last_click < DOUBLE_CLICK_MILLIS {
            Some(Event::DoubleClickDown(row, column))
        } else {
            Some(Event::MouseDown(row, column))
        },
        MouseButton::Other => None,
    }
}

/// The abstract value of an event that may be missing.
pub open spec fn event_view(event: Option<UpdateResult>) -> Option<Event> {
    match event {
        Some(event) => Some(event@),
        None => None,
    }
}

impl Pointer {
    pub fn new() -> (pointer: Self)
        ensures
            !pointer.selecting,
    {
        Pointer { selecting: false }
    }

    /// A button went down at the pixel `(x, y)`, `since_last_click`
    /// milliseconds after the last click of the left button. The left
    /// button starts a selection.
    pub fn on_button_pressed(
        &mut self,
        button: MouseButton,
        x: i32,
        y: i32,
        metrics: &Metrics,
        since_last_click: u64,
    ) -> (event: Option<UpdateResult>)
        ensures
            event_view(event) == press_event(
                button,
                quotient(y as int, metrics.height()) as i32,
                quotient(x as int, metrics.width()) as i32,
                since_last_click,
            ),
            final(self).selecting == (old(self).selecting || button == MouseButton::Left),
    {
        match button {
            MouseButton::WheelUp => Some(UpdateResult::scroll_viewport(1)),
            MouseButton::WheelDown => Some(UpdateResult::scroll_viewport(-1)),
            MouseButton::Left => {
                let (row, column) = metrics.cell_at(x, y);
                self.selecting = true;
                if since_last_click < DOUBLE_CLICK_MILLIS {
                    Some(UpdateResult::double_click_down(row, column))
                } else {
                    Some(UpdateResult::mouse_down(row, column))
                }
            },
            MouseButton::Other => None,
        }
    }

    /// A button went up. The left button ends the selection.
    pub fn on_button_released(&mut self, button: MouseButton)
        ensures
            final(self).selecting == (old(self).selecting && button != MouseButton::Left),
    {
        match button {
            MouseButton::Left => {
                self.selecting = false;
            },
            _ => {},
        }
    }

    /// The pointer moved to the pixel `(x, y)`: a drag to the cell there
    /// while a selection is on, nothing otherwise.
    pub fn on_mouse_move(&self, x: i32, y: i32, metrics: &Metrics) -> (event: Option<UpdateResult>)
        ensures
            event_view(event) == (if self.selecting {
                Some(
                    Event::MouseDrag(
                        quotient(y as int, metrics.height()) as i32,
                        quotient(x as int, metrics.width()) as i32,
                    ),
                )
            } else {
                None
            }),
    {
        if self.selecting {
            let (row, column) = metrics.cell_at(x, y);
            Some(UpdateResult::mouse_drag(row, column))
        } else {
            None
        }
    }
}

} // verus!
