//! The terminal session: screen buffer and decoder together, and what the
//! event loop decides on each wake.
//!
//! The loop itself waits on descriptors and talks to the kernel, so it is
//! not here. What is here takes the bytes that were read and the events that
//! were polled, changes buffer and decoder, pushes the draw calls to the
//! renderer and returns, in order, what the loop has to do on the
//! pseudo-terminal.

use vstd::prelude::*;
use vstd::slice::slice_to_vec;
use crate::buffer::ScreenBuffer;
use crate::decoder::{AnomalyPolicy, DecodeAnomaly, Decoder, DecoderModel, Machine};
use crate::display::{Display, Drawing, Event, UpdateResult, events_of};
use crate::screen::{Screen, clamp_dimension};

verus! {

/// The geometry of the terminal as the kernel keeps it.
#[derive(Clone, Copy, Debug, PartialEq, Eq, Structural)]
pub struct WindowSize {
    pub rows: u16,
    pub columns: u16,
    pub pixel_width: u16,
    pub pixel_height: u16,
}

/// What the event loop has to do for one event of the renderer.
#[derive(Clone, Debug, PartialEq, Eq)]
pub enum Action {
    /// Write these bytes to the shell.
    Write(Vec<u8>),
    /// Tell the kernel the new geometry.
    Resize(WindowSize),
    /// Nothing on the pseudo-terminal: the event concerns what the renderer
    /// presents, and goes to the renderer's own state.
    Forward(UpdateResult),
}

/// The abstract value of an [`Action`].
pub ghost enum Activity {
    Write(Seq<u8>),
    Resize(WindowSize),
    Forward(Event),
}

impl View for Action {
    type V = Activity;

    open spec fn view(&self) -> Activity {
        match self {
            Action::Write(bytes) => Activity::Write(bytes@),
            Action::Resize(size) => Activity::Resize(*size),
            Action::Forward(event) => Activity::Forward(event@),
        }
    }
}

/// The abstract values of a list of actions.
pub open spec fn activities(actions: Seq<Action>) -> Seq<Activity> {
    Seq::new(actions.len(), |i: int| actions[i]@)
}

/// The abstract value of a [`Terminal`].
pub ghost struct TerminalModel {
    pub screen: Screen,
    pub decoder: DecoderModel,
}

/// A pixel count as the kernel can hold it: between 0 and `0xffff`.
pub open spec fn bounded_pixels(n: int) -> int {
    if n < 0 {
        0
    } else if n > 0xffff {
        0xffff
    } else {
        n
    }
}

/// The geometry that the kernel is told for a window of the given size: the
/// rows and columns that the buffer takes for it, and the pixels.
pub open spec fn window_size(rows: int, columns: int, width: int, height: int) -> WindowSize {
    WindowSize {
        rows: clamp_dimension(rows) as u16,
        columns: clamp_dimension(columns) as u16,
        pixel_width: bounded_pixels(width) as u16,
        pixel_height: bounded_pixels(height) as u16,
    }
}

impl TerminalModel {
    /// What one event of the renderer does. Input goes to the shell as it
    /// is. A resize takes effect on the buffer at once and is then passed on
    /// to the kernel. Every other event leaves the terminal alone.
    pub open spec fn react(self, event: Event) -> (TerminalModel, Activity) {
        match event {
            Event::Input(bytes) => (self, Activity::Write(bytes)),
            Event::Resize(rows, columns, width, height) => (
                TerminalModel {
                    screen: self.screen.resize(rows as int, columns as int),
                    ..self
                },
                Activity::Resize(
                    window_size(rows as int, columns as int, width as int, height as int),
                ),
            ),
            _ => (self, Activity::Forward(event)),
        }
    }

    /// What a series of events does: each event acts on the terminal that
    /// the events before it left, and the activities come out in the order
    /// of the events.
    pub open spec fn react_all(self, events: Seq<Event>) -> (TerminalModel, Seq<Activity>)
        decreases events.len(),
    {
        if events.len() == 0 {
            (self, Seq::empty())
        } else {
            let (before, activities) = self.react_all(events.drop_last());
            let (after, activity) = before.react(events.last());
            (after, activities.push(activity))
        }
    }

    /// The terminal after a batch of output was decoded, before the render
    /// pass, with the anomalies that the batch surfaced.
    pub open spec fn decoded(self, bytes: Seq<u8>) -> Machine {
        (Machine { decoder: self.decoder, screen: self.screen, anomalies: Seq::empty() }).run(bytes)
    }
}

/// Screen buffer and decoder of one session.
pub struct Terminal {
    buffer: ScreenBuffer,
    decoder: Decoder,
}

impl View for Terminal {
    type V = TerminalModel;

    closed spec fn view(&self) -> TerminalModel {
        TerminalModel { screen: self.buffer@, decoder: self.decoder@ }
    }
}

fn dimension_of(n: i32) -> (d: u16)
    ensures
        d == clamp_dimension(n as int),
{
    if n < 1 {
        1
    } else if n > 0xffff {
        0xffff
    } else {
        n as u16
    }
}

fn pixels_of(n: i32) -> (p: u16)
    ensures
        p == bounded_pixels(n as int),
{
    if n < 0 {
        0
    } else if n > 0xffff {
        0xffff
    } else {
        n as u16
    }
}

impl Terminal {
    /// A terminal with a blank buffer of the given size and a decoder in
    /// plain text.
    pub fn new(rows: u16, columns: u16, policy: AnomalyPolicy) -> (terminal: Self)
        ensures
            terminal@ == (TerminalModel {
                screen: Screen::blank(
                    clamp_dimension(rows as int),
                    clamp_dimension(columns as int),
                ),
                decoder: DecoderModel::initial(policy),
            }),
            terminal@.screen.wf(),
    {
        Terminal { buffer: ScreenBuffer::new(rows, columns), decoder: Decoder::with_policy(policy) }
    }

    pub fn buffer(&self) -> (buffer: &ScreenBuffer)
        ensures
            buffer@ == self@.screen,
    {
        &self.buffer
    }

    pub fn decoder(&self) -> (decoder: &Decoder)
        ensures
            decoder@ == self@.decoder,
    {
        &self.decoder
    }
}

/// One render pass: hands the renderer the cells that changed since the
/// last pass, has the frame presented, and only then clears the damage.
pub fn flush<D: Display>(term: &mut Terminal, display: &mut D)
    ensures
        final(term)@ == (TerminalModel { screen: old(term)@.screen.flush(), ..old(term)@ }),
        final(display).drawn() == old(display).drawn().push(
            Drawing::Cells(old(term)@.screen.dirty_cells()),
        ).push(Drawing::Flush),
{
    let changes = term.buffer.dirty_cells();
    display.draw_cells(&changes);
    display.flush();
    term.buffer.flush();
}

/// Takes a batch of the shell's output: decodes it into the buffer, then
/// performs exactly one render pass. Returns the anomalies of the batch if
/// the decoder reports them.
pub fn handle_output<D: Display>(term: &mut Terminal, display: &mut D, bytes: &[u8]) -> (anomalies:
    Vec<DecodeAnomaly>)
    ensures
        final(term)@ == (TerminalModel {
            screen: old(term)@.decoded(bytes@).screen.flush(),
            decoder: old(term)@.decoded(bytes@).decoder,
        }),
        anomalies@ == old(term)@.decoded(bytes@).anomalies,
        final(display).drawn() == old(display).drawn().push(
            Drawing::Cells(old(term)@.decoded(bytes@).screen.dirty_cells()),
        ).push(Drawing::Flush),
{
    let anomalies = term.decoder.decode(bytes, &mut term.buffer);
    flush(term, display);
    anomalies
}

/// What the loop does with input of the user: it writes the bytes to the
/// shell.
pub fn handle_input(input: &Vec<u8>) -> (action: Action)
    ensures
        action@ == Activity::Write(input@),
{
    Action::Write(slice_to_vec(input.as_slice()))
}

/// Resizes the buffer and returns the geometry to tell the kernel. The
/// buffer has its new size when this returns, before the kernel or the shell
/// can learn of the change.
pub fn handle_resize(term: &mut Terminal, rows: i32, columns: i32, width: i32, height: i32) -> (size:
    WindowSize)
    ensures
        final(term)@ == (TerminalModel {
            screen: old(term)@.screen.resize(rows as int, columns as int),
            ..old(term)@
        }),
        size == window_size(rows as int, columns as int, width as int, height as int),
        size.rows == final(term)@.screen.rows,
        size.columns == final(term)@.screen.columns,
{
    let size = WindowSize {
        rows: dimension_of(rows),
        columns: dimension_of(columns),
        pixel_width: pixels_of(width),
        pixel_height: pixels_of(height),
    };
    term.buffer.resize(size.rows, size.columns);
    size
}

/// Takes one event of the renderer and returns what the loop has to do for
/// it.
pub fn handle_event(term: &mut Terminal, event: &UpdateResult) -> (action: Action)
    ensures
        (final(term)@, action@) == old(term)@.react(event@),
{
    match event {
        UpdateResult::Input(bytes) => handle_input(bytes),
        UpdateResult::Resize(rows, columns, width, height) => Action::Resize(
            handle_resize(term, *rows, *columns, *width, *height),
        ),
        UpdateResult::Redraw => Action::Forward(UpdateResult::Redraw),
        UpdateResult::ScrollViewport(delta) => Action::Forward(UpdateResult::ScrollViewport(*delta)),
        UpdateResult::MouseDown(row, column) => Action::Forward(
            UpdateResult::MouseDown(*row, *column),
        ),
        UpdateResult::DoubleClickDown(row, column) => Action::Forward(
            UpdateResult::DoubleClickDown(*row, *column),
        ),
        UpdateResult::MouseDrag(row, column) => Action::Forward(
            UpdateResult::MouseDrag(*row, *column),
        ),
    }
}

/// Takes the events of one poll in order and returns, in the same order,
/// what the loop has to do for each.
pub fn dispatch(term: &mut Terminal, events: &Vec<UpdateResult>) -> (actions: Vec<Action>)
    ensures
        (final(term)@, activities(actions@)) == old(term)@.react_all(events_of(events@)),
{
    let ghost all = events_of(events@);
    let mut actions: Vec<Action> = Vec::new();
    let mut i: usize = 0;
    assert(all.take(0) =~= Seq::<Event>::empty());
    assert(activities(actions@) =~= Seq::<Activity>::empty());
    while i < events.len()
        invariant
            i <= events.len(),
            all == events_of(events@),
            (term@, activities(actions@)) == old(term)@.react_all(all.take(i as int)),
        decreases events.len() - i,
    {
        let ghost done = activities(actions@);
        let action = handle_event(term, &events[i]);
        actions.push(action);
        i = i + 1;
        assert(all.take(i as int).drop_last() =~= all.take(i - 1));
        assert(all.take(i as int).last() == events[i - 1]@);
        assert(activities(actions@) =~= done.push(action@));
    }
    assert(all.take(i as int) =~= all);
    actions
}

/// Drains the events of the renderer and returns what the loop has to do
/// for them, in their order. Nothing is drawn.
pub fn handle_update<D: Display>(term: &mut Terminal, display: &mut D) -> (actions: Vec<Action>)
    ensures
        final(display).drawn() == old(display).drawn(),
        exists|events: Seq<Event>|
            (final(term)@, activities(actions@)) == #[trigger] old(term)@.react_all(events),
{
    let events = display.poll_events();
    dispatch(term, &events)
}

/// One thing to do on a wake of the event loop.
#[derive(Clone, Copy, Debug, PartialEq, Eq, Structural)]
pub enum Step {
    /// Read a batch from the shell and hand it to `handle_output`.
    Output,
    /// Hand the renderer's events to `handle_update` and perform the
    /// actions.
    Update,
    /// See whether the shell is still alive, without waiting.
    Reap,
}

/// What a wake calls for, in order: the shell's output if the
/// pseudo-terminal is readable, the renderer's events if its descriptor is,
/// and a look at the shell in every case.
pub open spec fn steps(pty_ready: bool, display_ready: bool) -> Seq<Step> {
    let output = if pty_ready {
        seq![Step::Output]
    } else {
        Seq::empty()
    };
    let update = if display_ready {
        seq![Step::Update]
    } else {
        Seq::empty()
    };
    output + update + seq![Step::Reap]
}

/// The steps of one wake of the event loop.
pub fn wake(pty_ready: bool, display_ready: bool) -> (plan: Vec<Step>)
    ensures
        plan@ == steps(pty_ready, display_ready),
{
    let mut plan: Vec<Step> = Vec::new();
    if pty_ready {
        plan.push(Step::Output);
    }
    if display_ready {
        plan.push(Step::Update);
    }
    plan.push(Step::Reap);
    assert(plan@ =~= steps(pty_ready, display_ready));
    plan
}

/// Whether the loop goes on waiting: until the renderer asks to close, the
/// shell has exited, or the pseudo-terminal has failed.
pub fn keeps_running(should_close: bool, child_exited: bool, failed: bool) -> (running: bool)
    ensures
        running == !(should_close || child_exited || failed),
{
    !should_close && !child_exited && !failed
}

/// The activities come out one per event and in the order of the events:
/// the `i`-th activity is the reaction to the `i`-th event of the terminal
/// that the events before it left.
pub proof fn lemma_react_in_order(t: TerminalModel, events: Seq<Event>, i: int)
    requires
        0 <= i < events.len(),
    ensures
        t.react_all(events).1.len() == events.len(),
        t.react_all(events).1[i] == t.react_all(events.take(i)).0.react(events[i]).1,
        t.react_all(events.take(i + 1)).0 == t.react_all(events.take(i)).0.react(events[i]).0,
    decreases events.len(),
{
    lemma_react_count(t, events);
    assert(events.take(i + 1).drop_last() =~= events.take(i));
    if i == events.len() - 1 {
        assert(events.drop_last() =~= events.take(i));
    } else {
        lemma_react_in_order(t, events.drop_last(), i);
        assert(events.drop_last().take(i) =~= events.take(i));
    }
}

/// Every event gives exactly one activity.
pub proof fn lemma_react_count(t: TerminalModel, events: Seq<Event>)
    ensures
        t.react_all(events).1.len() == events.len(),
    decreases events.len(),
{
    if events.len() > 0 {
        lemma_react_count(t, events.drop_last());
    }
}

/// A resize reaches the buffer before anything that follows it reaches the
/// shell: of a resize followed by input, the first activity is the resize
/// for the kernel, the second the write, and the buffer has the new size.
pub proof fn lemma_resize_before_input(
    t: TerminalModel,
    rows: i32,
    columns: i32,
    width: i32,
    height: i32,
    input: Seq<u8>,
)
    requires
        t.screen.wf(),
    ensures
        ({
            let (after, activities) = t.react_all(
                seq![Event::Resize(rows, columns, width, height), Event::Input(input)],
            );
            &&& activities == seq![
                Activity::Resize(
                    window_size(rows as int, columns as int, width as int, height as int),
                ),
                Activity::Write(input),
            ]
            &&& after.screen == t.screen.resize(rows as int, columns as int)
            &&& after.screen.rows == clamp_dimension(rows as int)
            &&& after.screen.columns == clamp_dimension(columns as int)
            &&& after.decoder == t.decoder
        }),
{
    let events = seq![Event::Resize(rows, columns, width, height), Event::Input(input)];
    reveal_with_fuel(TerminalModel::react_all, 3);
    assert(events.drop_last() =~= seq![Event::Resize(rows, columns, width, height)]);
    assert(events.drop_last().drop_last() =~= Seq::<Event>::empty());
    let (after, activities) = t.react_all(events);
    assert(activities =~= seq![
        Activity::Resize(window_size(rows as int, columns as int, width as int, height as int)),
        Activity::Write(input),
    ]);
}

} // verus!
