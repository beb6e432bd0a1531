use terminal::cell::{Attribute, Cell, CursorPos};
use terminal::display::UpdateResult;
use terminal::window::{
    on_key_pressed, Blit, Glyph, Key, KeyAction, Metrics, MouseButton, Pointer, Rect,
};

fn input(bytes: &[u8]) -> KeyAction {
    KeyAction::Emit(UpdateResult::Input(bytes.to_vec()))
}

#[test]
fn cursor_keys_send_escape_sequences() {
    assert_eq!(on_key_pressed(Key::Up, false, false, 24, 20), input(b"\x1b[A"));
    assert_eq!(on_key_pressed(Key::Down, false, false, 24, 20), input(b"\x1b[B"));
    assert_eq!(on_key_pressed(Key::Right, false, false, 24, 20), input(b"\x1b[C"));
    assert_eq!(on_key_pressed(Key::Left, false, false, 24, 20), input(b"\x1b[D"));
    assert_eq!(on_key_pressed(Key::Home, false, false, 24, 20), input(b"\x1b[H"));
    assert_eq!(on_key_pressed(Key::End, false, false, 24, 20), input(b"\x1b[F"));
    assert_eq!(on_key_pressed(Key::Tab, false, false, 24, 20), input(b"\t"));
    assert_eq!(on_key_pressed(Key::Escape, false, false, 24, 20), input(b"\x1b"));
    assert_eq!(on_key_pressed(Key::Up, true, true, 24, 20), input(b"\x1b[A"));
}

#[test]
fn page_keys_scroll_with_shift() {
    assert_eq!(on_key_pressed(Key::PageUp, false, false, 24, 20), input(b"\x1b[5~"));
    assert_eq!(on_key_pressed(Key::PageDown, false, false, 24, 20), input(b"\x1b[6~"));
    assert_eq!(
        on_key_pressed(Key::PageUp, true, false, 24, 20),
        KeyAction::Emit(UpdateResult::ScrollViewport(24))
    );
    assert_eq!(
        on_key_pressed(Key::PageDown, true, false, 24, 20),
        KeyAction::Emit(UpdateResult::ScrollViewport(-24))
    );
}

#[test]
fn font_size_changes_with_control_and_shift() {
    assert_eq!(on_key_pressed(Key::Equal, true, true, 24, 20), KeyAction::FontSize(21));
    assert_eq!(on_key_pressed(Key::Minus, true, true, 24, 20), KeyAction::FontSize(19));
    assert_eq!(on_key_pressed(Key::Equal, true, false, 24, 20), KeyAction::Lookup);
    assert_eq!(on_key_pressed(Key::Equal, false, true, 24, 20), KeyAction::Lookup);
    assert_eq!(on_key_pressed(Key::Minus, false, false, 24, 20), KeyAction::Lookup);
    assert_eq!(on_key_pressed(Key::Other, true, true, 24, 20), KeyAction::Lookup);
}

#[test]
fn metrics_accept_only_valid_extents() {
    assert!(Metrics::new(10, 20, 4).is_some());
    assert!(Metrics::new(1, 1, 0).is_some());
    assert!(Metrics::new(0x7fff, 0x7fff, 0x7fff).is_some());
    assert!(Metrics::new(0, 20, 4).is_none());
    assert!(Metrics::new(10, 0, 4).is_none());
    assert!(Metrics::new(10, 20, -1).is_none());
    assert!(Metrics::new(0x8000, 20, 4).is_none());
    assert!(Metrics::new(10, 0x8000, 4).is_none());
    assert!(Metrics::new(10, 20, 0x8000).is_none());
    let metrics = Metrics::new(10, 20, 4).unwrap();
    assert_eq!((metrics.font_width(), metrics.font_height(), metrics.font_descent()), (10, 20, 4));
}

#[test]
fn the_grid_holds_whole_cells() {
    let metrics = Metrics::new(10, 20, 4).unwrap();
    assert_eq!(metrics.grid(1600, 800), (40, 160));
    assert_eq!(metrics.grid(1609, 819), (40, 160));
    assert_eq!(metrics.grid(9, 19), (0, 0));
    assert_eq!(metrics.grid(-15, -45), (-2, -1));
    assert_eq!(metrics.grid(i32::MIN, i32::MAX), (107374182, -214748364));
    assert_eq!(metrics.on_resize(1600, 800), UpdateResult::Resize(40, 160, 1600, 800));
}

#[test]
fn pixels_map_to_cells() {
    let metrics = Metrics::new(10, 20, 4).unwrap();
    assert_eq!(metrics.cell_at(0, 0), (0, 0));
    assert_eq!(metrics.cell_at(25, 45), (2, 2));
    assert_eq!(metrics.cell_at(-1, -1), (0, 0));
    assert_eq!(metrics.cell_at(-10, -40), (-2, -1));
}

#[test]
fn cells_map_to_pixels() {
    let metrics = Metrics::new(10, 20, 4).unwrap();
    assert_eq!(metrics.origin(3, 7), (70, 60));
    assert_eq!(metrics.cell_rect(CursorPos::new(3, 7)), Rect { x: 70, y: 60, width: 10, height: 20 });
    assert_eq!(metrics.glyph_origin(CursorPos::new(3, 7)), (70, 76));
    assert_eq!(metrics.cells_rect(1, 2, 3, 4), Rect { x: 20, y: 20, width: 30, height: 80 });
    let largest = Metrics::new(0x7fff, 0x7fff, 0).unwrap();
    assert_eq!(largest.glyph_origin(CursorPos::new(0xffff, 0xffff)), (2147385345, 2147418112));
}

#[test]
fn empty_cells_get_no_glyph() {
    let metrics = Metrics::new(10, 20, 4).unwrap();
    let placement = metrics.place(&Cell::blank(), CursorPos::new(1, 1));
    assert_eq!(placement.background, Rect { x: 10, y: 20, width: 10, height: 20 });
    assert_eq!(placement.glyph, None);
    let placement = metrics.place(&Cell::new(0x41, Attribute::default()), CursorPos::new(1, 1));
    assert_eq!(placement.glyph, Some(Glyph { code_point: 0x41, x: 10, y: 36 }));
}

#[test]
fn scrolling_copies_pixel_rows() {
    let metrics = Metrics::new(10, 20, 4).unwrap();
    assert_eq!(
        metrics.scroll_blit(1, 2, 5),
        Some(Blit { source_y: 60, target_y: 40, height: 60, clear_y: 100, clear_height: 20 })
    );
    assert_eq!(
        metrics.scroll_blit(-1, 2, 5),
        Some(Blit { source_y: 40, target_y: 60, height: 60, clear_y: 40, clear_height: 20 })
    );
    assert_eq!(
        metrics.scroll_blit(9, 2, 5),
        Some(Blit { source_y: 120, target_y: 40, height: 0, clear_y: 40, clear_height: 80 })
    );
    assert_eq!(
        metrics.scroll_blit(i32::MIN, 0, 0),
        Some(Blit { source_y: 0, target_y: 20, height: 0, clear_y: 0, clear_height: 20 })
    );
    assert_eq!(metrics.scroll_blit(0, 2, 5), None);
    assert_eq!(metrics.scroll_blit(1, 5, 2), None);
}

#[test]
fn the_wheel_scrolls_the_viewport() {
    let metrics = Metrics::new(10, 20, 4).unwrap();
    let mut pointer = Pointer::new();
    assert_eq!(
        pointer.on_button_pressed(MouseButton::WheelUp, 5, 5, &metrics, 1000),
        Some(UpdateResult::ScrollViewport(1))
    );
    assert_eq!(
        pointer.on_button_pressed(MouseButton::WheelDown, 5, 5, &metrics, 1000),
        Some(UpdateResult::ScrollViewport(-1))
    );
    assert_eq!(pointer.on_button_pressed(MouseButton::Other, 5, 5, &metrics, 1000), None);
    assert!(!pointer.selecting);
}

#[test]
fn a_second_click_within_the_interval_is_a_double_click() {
    let metrics = Metrics::new(10, 20, 4).unwrap();
    let mut pointer = Pointer::new();
    assert_eq!(
        pointer.on_button_pressed(MouseButton::Left, 25, 45, &metrics, 200),
        Some(UpdateResult::MouseDown(2, 2))
    );
    assert!(pointer.selecting);
    assert_eq!(
        pointer.on_button_pressed(MouseButton::Left, 25, 45, &metrics, 199),
        Some(UpdateResult::DoubleClickDown(2, 2))
    );
    assert_eq!(
        pointer.on_button_pressed(MouseButton::Left, 0, 0, &metrics, 0),
        Some(UpdateResult::DoubleClickDown(0, 0))
    );
}

#[test]
fn the_mouse_drags_only_while_selecting() {
    let metrics = Metrics::new(10, 20, 4).unwrap();
    let mut pointer = Pointer::new();
    assert_eq!(pointer.on_mouse_move(25, 45, &metrics), None);
    pointer.on_button_pressed(MouseButton::Left, 0, 0, &metrics, 1000);
    assert_eq!(pointer.on_mouse_move(25, 45, &metrics), Some(UpdateResult::MouseDrag(2, 2)));
    pointer.on_button_released(MouseButton::Other);
    assert!(pointer.selecting);
    pointer.on_button_released(MouseButton::Left);
    assert!(!pointer.selecting);
    assert_eq!(pointer.on_mouse_move(25, 45, &metrics), None);
}
