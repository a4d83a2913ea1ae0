use weathr::{Cell, Color, DrawOp, ScreenBuffer};

fn cell(character: char, fg: Color, bg: Color) -> Cell {
    Cell { character, fg, bg }
}

#[test]
fn test_flush_emits_minimal_ops() {
    let mut buf = ScreenBuffer::new(4, 2);
    buf.set(0, 0, 'a', Color::Red);
    buf.set(1, 0, 'b', Color::Red);
    buf.set(3, 0, 'c', Color::Reset);
    let ops = buf.flush();
    assert_eq!(
        ops,
        vec![
            DrawOp::MoveTo { x: 0, y: 0 },
            DrawOp::SetColors { fg: Color::Red, bg: Color::Reset },
            DrawOp::Print { ch: 'a' },
            DrawOp::Print { ch: 'b' },
            DrawOp::MoveTo { x: 3, y: 0 },
            DrawOp::SetColors { fg: Color::Reset, bg: Color::Reset },
            DrawOp::Print { ch: 'c' },
        ]
    );
}

#[test]
fn test_flush_idempotent() {
    let mut buf = ScreenBuffer::new(6, 4);
    buf.set(2, 1, 'x', Color::Green);
    buf.set(3, 2, 'y', Color::Blue);
    let first = buf.flush();
    assert!(!first.is_empty());
    let second = buf.flush();
    assert_eq!(second, vec![]);
}

#[test]
fn test_flush_trailing_reset() {
    let mut buf = ScreenBuffer::new(2, 1);
    buf.set(0, 0, 'x', Color::Red);
    let ops = buf.flush();
    assert_eq!(
        ops,
        vec![
            DrawOp::MoveTo { x: 0, y: 0 },
            DrawOp::SetColors { fg: Color::Red, bg: Color::Reset },
            DrawOp::Print { ch: 'x' },
            DrawOp::ResetColors,
        ]
    );
}

#[test]
fn test_set_out_of_bounds_is_noop() {
    let mut buf = ScreenBuffer::new(4, 3);
    buf.set(4, 0, 'x', Color::Red);
    buf.set(0, 3, 'x', Color::Red);
    buf.set(65535, 65535, 'x', Color::Red);
    buf.set_with_bg(100, 100, 'x', Color::Red, Color::Blue);
    let ops = buf.flush();
    assert_eq!(ops, vec![]);
}

#[test]
fn test_set_with_bg_writes_background() {
    let mut buf = ScreenBuffer::new(2, 1);
    buf.set_with_bg(1, 0, 'k', Color::White, Color::Blue);
    let ops = buf.flush();
    assert_eq!(
        ops,
        vec![
            DrawOp::MoveTo { x: 1, y: 0 },
            DrawOp::SetColors { fg: Color::White, bg: Color::Blue },
            DrawOp::Print { ch: 'k' },
            DrawOp::ResetColors,
        ]
    );
}

#[test]
fn test_clear_blanks_current_frame() {
    let mut buf = ScreenBuffer::new(3, 2);
    buf.set(0, 0, 'a', Color::Red);
    buf.clear();
    let ops = buf.flush();
    assert_eq!(ops, vec![]);
}

#[test]
fn test_flash_overwrites_foreground() {
    let mut buf = ScreenBuffer::new(2, 1);
    buf.set(0, 0, 'a', Color::Red);
    buf.flash();
    let ops = buf.flush();
    assert_eq!(
        ops,
        vec![
            DrawOp::MoveTo { x: 0, y: 0 },
            DrawOp::SetColors { fg: Color::White, bg: Color::Reset },
            DrawOp::Print { ch: 'a' },
            DrawOp::Print { ch: ' ' },
            DrawOp::ResetColors,
        ]
    );
}

#[test]
fn test_resize_blanks_both_grids() {
    let mut buf = ScreenBuffer::new(2, 2);
    buf.set(0, 0, 'a', Color::Red);
    buf.flush();
    buf.resize(3, 4);
    assert_eq!(buf.get_size(), (3, 4));
    let ops = buf.flush();
    assert_eq!(ops, vec![]);
}

#[test]
fn test_render_line_colored_writes_run() {
    let mut buf = ScreenBuffer::new(10, 3);
    buf.render_line_colored(2, 1, "hi", Color::Cyan);
    let ops = buf.flush();
    assert_eq!(
        ops,
        vec![
            DrawOp::MoveTo { x: 2, y: 1 },
            DrawOp::SetColors { fg: Color::Cyan, bg: Color::Reset },
            DrawOp::Print { ch: 'h' },
            DrawOp::Print { ch: 'i' },
            DrawOp::ResetColors,
        ]
    );
}

#[test]
fn test_render_line_colored_clips_at_edge() {
    let mut buf = ScreenBuffer::new(10, 1);
    buf.render_line_colored(8, 0, "abc", Color::Reset);
    let ops = buf.flush();
    assert_eq!(
        ops,
        vec![
            DrawOp::MoveTo { x: 8, y: 0 },
            DrawOp::Print { ch: 'a' },
            DrawOp::Print { ch: 'b' },
        ]
    );
}

#[test]
fn test_render_centered_colored_centers_block() {
    let mut buf = ScreenBuffer::new(11, 2);
    buf.render_centered_colored(&vec![String::from("abc")], 0, Color::Reset);
    let ops = buf.flush();
    assert_eq!(
        ops,
        vec![
            DrawOp::MoveTo { x: 4, y: 0 },
            DrawOp::Print { ch: 'a' },
            DrawOp::Print { ch: 'b' },
            DrawOp::Print { ch: 'c' },
        ]
    );
}

#[test]
fn test_cells_equal_after_same_write() {
    let a = cell('q', Color::AnsiValue(7), Color::Rgb { r: 1, g: 2, b: 3 });
    let b = cell('q', Color::AnsiValue(7), Color::Rgb { r: 1, g: 2, b: 3 });
    assert_eq!(a, b);
    assert_ne!(a, cell('q', Color::AnsiValue(8), Color::Rgb { r: 1, g: 2, b: 3 }));
}
