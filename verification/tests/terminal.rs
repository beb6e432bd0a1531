use terminal::cell::{Attribute, Cell, CursorPos};
use terminal::decoder::{AnomalyPolicy, DecodeAnomaly, DecoderState};
use terminal::display::{Display, DrawCommand, Headless, UpdateResult};
use terminal::terminal::{
    dispatch, flush, handle_event, handle_input, handle_output, handle_resize, handle_update,
    keeps_running, wake, Action, Step, Terminal, WindowSize,
};

struct Silent {
    calls: Vec<String>,
    events: Vec<UpdateResult>,
}

impl Display for Silent {
    fn clear_screen(&mut self) {
        self.calls.push("clear_screen".to_string());
    }

    fn draw_cells(&mut self, cells: &Vec<(Cell, CursorPos)>) {
        self.calls.push(format!("draw_cells {}", cells.len()));
    }

    fn draw_scroll(&mut self, _amount: i32, _top: u16, _bottom: u16) {
        self.calls.push("draw_scroll".to_string());
    }

    fn draw_clear(&mut self, _attribute: &Attribute, _row: u16, _column: u16, _width: u16, _height: u16) {
        self.calls.push("draw_clear".to_string());
    }

    fn flush(&mut self) {
        self.calls.push("flush".to_string());
    }

    fn poll_events(&mut self) -> Vec<UpdateResult> {
        std::mem::take(&mut self.events)
    }

    fn event_source_descriptor(&self) -> i32 {
        7
    }

    fn should_close(&self) -> bool {
        false
    }
}

#[test]
fn new_terminal_is_blank() {
    let term = Terminal::new(24, 80, AnomalyPolicy::Ignore);
    assert_eq!((term.buffer().rows(), term.buffer().columns()), (24, 80));
    assert!(term.buffer().dirty_cells().is_empty());
    assert_eq!(term.decoder().state(), DecoderState::Ground);
    assert_eq!(term.decoder().policy(), AnomalyPolicy::Ignore);
}

#[test]
fn resize_then_input_keeps_the_order() {
    let mut term = Terminal::new(10, 10, AnomalyPolicy::Ignore);
    let events = vec![UpdateResult::resize(24, 80, 640, 384), UpdateResult::input(b"ls\n")];
    let actions = dispatch(&mut term, &events);
    assert_eq!(
        actions,
        vec![
            Action::Resize(WindowSize { rows: 24, columns: 80, pixel_width: 640, pixel_height: 384 }),
            Action::Write(b"ls\n".to_vec()),
        ]
    );
    assert_eq!((term.buffer().rows(), term.buffer().columns()), (24, 80));
}

#[test]
fn the_buffer_is_resized_before_the_write_is_handed_out() {
    let mut term = Terminal::new(10, 10, AnomalyPolicy::Ignore);
    let first = handle_event(&mut term, &UpdateResult::resize(24, 80, 640, 384));
    assert_eq!(
        first,
        Action::Resize(WindowSize { rows: 24, columns: 80, pixel_width: 640, pixel_height: 384 })
    );
    assert_eq!((term.buffer().rows(), term.buffer().columns()), (24, 80));
    assert_eq!(term.buffer().dirty_cells().len(), 24 * 80);
    let second = handle_event(&mut term, &UpdateResult::input(b"ls\n"));
    assert_eq!(second, Action::Write(vec![0x6c, 0x73, 0x0a]));
    assert_eq!((term.buffer().rows(), term.buffer().columns()), (24, 80));
}

#[test]
fn resize_geometry_is_bounded() {
    let mut term = Terminal::new(10, 10, AnomalyPolicy::Ignore);
    let size = handle_resize(&mut term, 0, -5, -1, 70000);
    assert_eq!(size, WindowSize { rows: 1, columns: 1, pixel_width: 0, pixel_height: 0xffff });
    assert_eq!((term.buffer().rows(), term.buffer().columns()), (1, 1));
    let size = handle_resize(&mut term, 3, 70000, 65535, 0);
    assert_eq!(size, WindowSize { rows: 3, columns: 0xffff, pixel_width: 0xffff, pixel_height: 0 });
    assert_eq!((term.buffer().rows(), term.buffer().columns()), (3, 0xffff));
}

#[test]
fn input_is_written_as_it_is() {
    assert_eq!(handle_input(&vec![0x1b, 0x5b, 0x41]), Action::Write(vec![0x1b, 0x5b, 0x41]));
    assert_eq!(handle_input(&Vec::new()), Action::Write(Vec::new()));
}

#[test]
fn presentation_events_are_forwarded() {
    let mut term = Terminal::new(3, 3, AnomalyPolicy::Ignore);
    let events = vec![
        UpdateResult::redraw(),
        UpdateResult::scroll_viewport(-3),
        UpdateResult::mouse_down(1, 2),
        UpdateResult::double_click_down(2, 1),
        UpdateResult::mouse_drag(0, 0),
    ];
    let actions = dispatch(&mut term, &events);
    assert_eq!(
        actions,
        vec![
            Action::Forward(UpdateResult::Redraw),
            Action::Forward(UpdateResult::ScrollViewport(-3)),
            Action::Forward(UpdateResult::MouseDown(1, 2)),
            Action::Forward(UpdateResult::DoubleClickDown(2, 1)),
            Action::Forward(UpdateResult::MouseDrag(0, 0)),
        ]
    );
    assert!(term.buffer().dirty_cells().is_empty());
    assert_eq!((term.buffer().rows(), term.buffer().columns()), (3, 3));
}

#[test]
fn input_str_holds_the_bytes_of_the_text() {
    assert_eq!(UpdateResult::input_str("\x1b[A"), UpdateResult::Input(vec![0x1b, 0x5b, 0x41]));
    assert_eq!(UpdateResult::input_str("é"), UpdateResult::Input(vec![0xc3, 0xa9]));
}

#[test]
fn output_is_decoded_and_drawn_in_one_pass() {
    let mut term = Terminal::new(2, 3, AnomalyPolicy::Report);
    let mut display = Headless::new();
    let anomalies = handle_output(&mut term, &mut display, b"hi\x1bx");
    assert_eq!(anomalies, vec![DecodeAnomaly::UnknownEscape(0x78)]);
    let plain = Attribute::default();
    assert_eq!(
        display.commands,
        vec![
            DrawCommand::Cells(vec![
                (Cell::new(0x68, plain), CursorPos::new(0, 0)),
                (Cell::new(0x69, plain), CursorPos::new(0, 1)),
            ]),
            DrawCommand::Flush,
        ]
    );
    assert!(term.buffer().dirty_cells().is_empty());
    assert_eq!(term.buffer().cell_at(0, 1), Some(Cell::new(0x69, plain)));
    handle_output(&mut term, &mut display, b"");
    assert_eq!(display.commands.len(), 4);
    assert_eq!(display.commands[2], DrawCommand::Cells(Vec::new()));
    assert_eq!(display.commands[3], DrawCommand::Flush);
}

#[test]
fn flush_draws_then_clears_the_damage() {
    let mut term = Terminal::new(2, 2, AnomalyPolicy::Ignore);
    handle_event(&mut term, &UpdateResult::resize(1, 2, 0, 0));
    let mut display = Headless::new();
    flush(&mut term, &mut display);
    assert_eq!(
        display.commands,
        vec![
            DrawCommand::Cells(vec![
                (Cell::blank(), CursorPos::new(0, 0)),
                (Cell::blank(), CursorPos::new(0, 1)),
            ]),
            DrawCommand::Flush,
        ]
    );
    flush(&mut term, &mut display);
    assert_eq!(display.commands[2], DrawCommand::Cells(Vec::new()));
}

#[test]
fn a_renderer_outside_the_library_is_driven_alike() {
    let mut term = Terminal::new(2, 3, AnomalyPolicy::Ignore);
    let mut display = Silent { calls: Vec::new(), events: vec![UpdateResult::input(b"x")] };
    handle_output(&mut term, &mut display, b"abc");
    assert_eq!(display.calls, vec!["draw_cells 3", "flush"]);
    let actions = handle_update(&mut term, &mut display);
    assert_eq!(actions, vec![Action::Write(vec![0x78])]);
    assert_eq!(display.calls.len(), 2);
    assert_eq!(display.event_source_descriptor(), 7);
    assert!(!display.should_close());
}

#[test]
fn update_drains_the_events_of_the_renderer() {
    let mut term = Terminal::new(5, 5, AnomalyPolicy::Ignore);
    let mut display = Headless::new();
    display.queue(UpdateResult::resize(2, 2, 20, 20));
    display.queue(UpdateResult::input(b"q"));
    let actions = handle_update(&mut term, &mut display);
    assert_eq!(
        actions,
        vec![
            Action::Resize(WindowSize { rows: 2, columns: 2, pixel_width: 20, pixel_height: 20 }),
            Action::Write(vec![0x71]),
        ]
    );
    assert!(display.commands.is_empty());
    assert!(display.pending.is_empty());
    assert!(handle_update(&mut term, &mut display).is_empty());
    assert_eq!(display.event_source_descriptor(), -1);
    assert!(!display.should_close());
}

#[test]
fn headless_records_every_draw_call() {
    let mut display = Headless::new();
    let red = Attribute::default();
    display.clear_screen();
    display.draw_scroll(-2, 1, 5);
    display.draw_clear(&red, 1, 2, 3, 4);
    display.draw_cells(&vec![(Cell::blank(), CursorPos::new(1, 1))]);
    display.flush();
    assert_eq!(
        display.commands,
        vec![
            DrawCommand::ClearScreen,
            DrawCommand::Scroll(-2, 1, 5),
            DrawCommand::Clear(red, 1, 2, 3, 4),
            DrawCommand::Cells(vec![(Cell::blank(), CursorPos::new(1, 1))]),
            DrawCommand::Flush,
        ]
    );
}

#[test]
fn a_wake_reads_output_before_events_and_always_reaps() {
    assert_eq!(wake(true, true), vec![Step::Output, Step::Update, Step::Reap]);
    assert_eq!(wake(true, false), vec![Step::Output, Step::Reap]);
    assert_eq!(wake(false, true), vec![Step::Update, Step::Reap]);
    assert_eq!(wake(false, false), vec![Step::Reap]);
}

#[test]
fn the_loop_ends_on_close_exit_or_failure() {
    assert!(keeps_running(false, false, false));
    assert!(!keeps_running(true, false, false));
    assert!(!keeps_running(false, true, false));
    assert!(!keeps_running(false, false, true));
    assert!(!keeps_running(true, true, true));
}
