//! The display contract: the draw calls that the engine pushes to a
//! renderer, the events that a renderer reports back, and a renderer without
//! a window that records what it is asked to draw.

use vstd::prelude::*;
use vstd::slice::slice_to_vec;
use vstd::string::StringSliceAdditionalSpecFns;
use crate::cell::{Attribute, Cell, CursorPos};

verus! {

/// What a renderer reports to the engine.
#[derive(Clone, Debug, PartialEq, Eq)]
pub enum UpdateResult {
    /// The visible area has to be painted again.
    Redraw,
    /// The window now holds this many rows and columns, on this many pixels
    /// in width and height.
    Resize(i32, i32, i32, i32),
    /// Bytes for the shell, as the user typed them.
    Input(Vec<u8>),
    /// The user moved through the scrollback by this many rows.
    ScrollViewport(i32),
    /// A mouse button went down on the cell at this row and column.
    MouseDown(i32, i32),
    /// A mouse button went down a second time on the cell at this row and
    /// column.
    DoubleClickDown(i32, i32),
    /// The mouse moved to the cell at this row and column, button held.
    MouseDrag(i32, i32),
}

/// The abstract value of an [`UpdateResult`].
pub ghost enum Event {
    Redraw,
    Resize(i32, i32, i32, i32),
    Input(Seq<u8>),
    ScrollViewport(i32),
    MouseDown(i32, i32),
    DoubleClickDown(i32, i32),
    MouseDrag(i32, i32),
}

impl View for UpdateResult {
    type V = Event;

    open spec fn view(&self) -> Event {
        match self {
            UpdateResult::Redraw => Event::Redraw,
            UpdateResult::Resize(rows, columns, width, height) => Event::Resize(
                *rows,
                *columns,
                *width,
                *height,
            ),
            UpdateResult::Input(bytes) => Event::Input(bytes@),
            UpdateResult::ScrollViewport(delta) => Event::ScrollViewport(*delta),
            UpdateResult::MouseDown(row, column) => Event::MouseDown(*row, *column),
            UpdateResult::DoubleClickDown(row, column) => Event::DoubleClickDown(*row, *column),
            UpdateResult::MouseDrag(row, column) => Event::MouseDrag(*row, *column),
        }
    }
}

impl UpdateResult {
    pub fn redraw() -> (event: Self)
        ensures
            event@ == Event::Redraw,
    {
        UpdateResult::Redraw
    }

    pub fn resize(rows: i32, columns: i32, width: i32, height: i32) -> (event: Self)
        ensures
            event@ == Event::Resize(rows, columns, width, height),
    {
        UpdateResult::Resize(rows, columns, width, height)
    }

    pub fn input(bytes: &[u8]) -> (event: Self)
        ensures
            event@ == Event::Input(bytes@),
    {
        UpdateResult::Input(slice_to_vec(bytes))
    }

    /// Input of the bytes of a string.
    pub fn input_str(text: &str) -> (event: Self)
        ensures
            event@ == Event::Input(text.spec_bytes()),
    {
        UpdateResult::Input(slice_to_vec(text.as_bytes()))
    }

    pub fn scroll_viewport(delta: i32) -> (event: Self)
        ensures
            event@ == Event::ScrollViewport(delta),
    {
        UpdateResult::ScrollViewport(delta)
    }

    pub fn mouse_down(row: i32, column: i32) -> (event: Self)
        ensures
            event@ == Event::MouseDown(row, column),
    {
        UpdateResult::MouseDown(row, column)
    }

    pub fn double_click_down(row: i32, column: i32) -> (event: Self)
        ensures
            event@ == Event::DoubleClickDown(row, column),
    {
        UpdateResult::DoubleClickDown(row, column)
    }

    pub fn mouse_drag(row: i32, column: i32) -> (event: Self)
        ensures
            event@ == Event::MouseDrag(row, column),
    {
        UpdateResult::MouseDrag(row, column)
    }
}

/// One draw call, as a renderer receives it.
#[derive(Clone, Debug, PartialEq, Eq)]
pub enum DrawCommand {
    /// Fill the whole window with the default background.
    ClearScreen,
    /// Draw these cells at their positions.
    Cells(Vec<(Cell, CursorPos)>),
    /// Move what is drawn in the rows `top ..= bottom` by `amount` rows, up
    /// for a positive amount.
    Scroll(i32, u16, u16),
    /// Fill `width` by `height` cells from `(row, column)` with the
    /// background of the attribute.
    Clear(Attribute, u16, u16, u16, u16),
    /// Present the frame.
    Flush,
}

/// The abstract value of a [`DrawCommand`].
pub ghost enum Drawing {
    ClearScreen,
    Cells(Seq<(Cell, CursorPos)>),
    Scroll(i32, u16, u16),
    Clear(Attribute, u16, u16, u16, u16),
    Flush,
}

impl View for DrawCommand {
    type V = Drawing;

    open spec fn view(&self) -> Drawing {
        match self {
            DrawCommand::ClearScreen => Drawing::ClearScreen,
            DrawCommand::Cells(cells) => Drawing::Cells(cells@),
            DrawCommand::Scroll(amount, top, bottom) => Drawing::Scroll(*amount, *top, *bottom),
            DrawCommand::Clear(attribute, row, column, width, height) => Drawing::Clear(
                *attribute,
                *row,
                *column,
                *width,
                *height,
            ),
            DrawCommand::Flush => Drawing::Flush,
        }
    }
}

/// What the engine requires of a renderer.
///
/// The contracts speak of `drawn`, the draw calls that the renderer has
/// received: each draw method adds its own call and nothing else, and the
/// methods of the pull side add none. A renderer in verified code defines
/// `drawn` and proves this; for any other renderer it is what the engine
/// assumes.
pub trait Display {
    /// The draw calls received so far, oldest first.
    open spec fn drawn(&self) -> Seq<Drawing> {
        arbitrary()
    }

    fn clear_screen(&mut self)
        ensures
            final(self).drawn() == old(self).drawn().push(Drawing::ClearScreen),
    ;

    /// Draws the given cells. The engine hands over copies; the renderer
    /// never sees the buffer.
    fn draw_cells(&mut self, cells: &Vec<(Cell, CursorPos)>)
        ensures
            final(self).drawn() == old(self).drawn().push(Drawing::Cells(cells@)),
    ;

    /// A hint that the content of the rows `top ..= bottom` moved by
    /// `amount` rows, up for a positive amount, so that the renderer may
    /// copy pixels.
    fn draw_scroll(&mut self, amount: i32, top: u16, bottom: u16)
        ensures
            final(self).drawn() == old(self).drawn().push(Drawing::Scroll(amount, top, bottom)),
    ;

    fn draw_clear(&mut self, attribute: &Attribute, row: u16, column: u16, width: u16, height: u16)
        ensures
            final(self).drawn() == old(self).drawn().push(
                Drawing::Clear(*attribute, row, column, width, height),
            ),
    ;

    /// Presents the frame.
    fn flush(&mut self)
        ensures
            final(self).drawn() == old(self).drawn().push(Drawing::Flush),
    ;

    /// The events that came in since the last call, oldest first.
    fn poll_events(&mut self) -> (events: Vec<UpdateResult>)
        ensures
            final(self).drawn() == old(self).drawn(),
    ;

    /// The descriptor that becomes readable when events are waiting.
    fn event_source_descriptor(&self) -> i32;

    /// Whether the user asked to close the window.
    fn should_close(&self) -> bool;
}

/// The abstract values of a list of draw commands.
pub open spec fn drawings(commands: Seq<DrawCommand>) -> Seq<Drawing> {
    Seq::new(commands.len(), |i: int| commands[i]@)
}

/// The abstract values of a list of events.
pub open spec fn events_of(events: Seq<UpdateResult>) -> Seq<Event> {
    Seq::new(events.len(), |i: int| events[i]@)
}

/// A renderer without a window: it keeps the draw calls it receives and
/// reports the events that were queued for it.
pub struct Headless {
    pub commands: Vec<DrawCommand>,
    pub pending: Vec<UpdateResult>,
    pub closing: bool,
}

impl Headless {
    pub fn new() -> (display: Self)
        ensures
            display.commands@.len() == 0,
            display.pending@.len() == 0,
            !display.closing,
            display.drawn() == Seq::<Drawing>::empty(),
    {
        let display = Headless { commands: Vec::new(), pending: Vec::new(), closing: false };
        assert(display.drawn() =~= Seq::<Drawing>::empty());
        display
    }

    /// Queues an event for the next poll.
    pub fn queue(&mut self, event: UpdateResult)
        ensures
            final(self).pending@ == old(self).pending@.push(event),
            final(self).commands == old(self).commands,
            final(self).closing == old(self).closing,
    {
        self.pending.push(event);
    }

    fn record(&mut self, command: DrawCommand)
        ensures
            final(self).drawn() == old(self).drawn().push(command@),
            final(self).commands@ == old(self).commands@.push(command),
            final(self).pending == old(self).pending,
            final(self).closing == old(self).closing,
    {
        self.commands.push(command);
        assert(self.drawn() =~= old(self).drawn().push(command@));
    }
}

impl Display for Headless {
    open spec fn drawn(&self) -> Seq<Drawing> {
        drawings(self.commands@)
    }

    fn clear_screen(&mut self) {
        self.record(DrawCommand::ClearScreen);
    }

    fn draw_cells(&mut self, cells: &Vec<(Cell, CursorPos)>) {
        let mut copy: Vec<(Cell, CursorPos)> = Vec::new();
        let mut i: usize = 0;
        while i < cells.len()
            invariant
                i <= cells.len(),
                copy@ == cells@.take(i as int),
            decreases cells.len() - i,
        {
            copy.push(cells[i]);
            i = i + 1;
            assert(copy@ =~= cells@.take(i as int));
        }
        assert(cells@.take(i as int) =~= cells@);
        self.record(DrawCommand::Cells(copy));
    }

    fn draw_scroll(&mut self, amount: i32, top: u16, bottom: u16) {
        self.record(DrawCommand::Scroll(amount, top, bottom));
    }

    fn draw_clear(&mut self, attribute: &Attribute, row: u16, column: u16, width: u16, height: u16) {
        self.record(DrawCommand::Clear(*attribute, row, column, width, height));
    }

    fn flush(&mut self) {
        self.record(DrawCommand::Flush);
    }

    /// Hands out the queued events and empties the queue.
    fn poll_events(&mut self) -> (events: Vec<UpdateResult>)
        ensures
            events == old(self).pending,
            final(self).pending@.len() == 0,
            final(self).commands == old(self).commands,
    {
        let mut events: Vec<UpdateResult> = Vec::new();
        std::mem::swap(&mut events, &mut self.pending);
        events
    }

    fn event_source_descriptor(&self) -> (descriptor: i32)
        ensures
            descriptor == -1,
    {
        -1
    }

    fn should_close(&self) -> (closing: bool)
        ensures
            closing == self.closing,
    {
        self.closing
    }
}

} // verus!
