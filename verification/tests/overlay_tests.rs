use weathr::{Cell, Color, DrawOp, ScreenBuffer, ShellOverlay};

fn blank() -> Cell {
    Cell { character: ' ', fg: Color::Reset, bg: Color::Reset }
}

#[test]
fn test_sgr_round_trip() {
    let mut ov = ShellOverlay::new(10, 3);
    ov.process_output(b"\x1b[31mHi\x1b[0m");
    assert_eq!(ov.cell_at(0, 0), Cell { character: 'H', fg: Color::Red, bg: Color::Reset });
    assert_eq!(ov.cell_at(1, 0), Cell { character: 'i', fg: Color::Red, bg: Color::Reset });
    ov.process_output(b"X");
    assert_eq!(ov.cell_at(2, 0), Cell { character: 'X', fg: Color::Reset, bg: Color::Reset });
}

#[test]
fn test_crlf_line_discipline() {
    let mut ov = ShellOverlay::new(4, 2);
    ov.process_output(b"ab\r\n");
    assert_eq!(ov.get_cursor_pos(), (0, 1));
    ov.process_output(b"cd");
    assert_eq!(ov.cell_at(0, 0).character, 'a');
    assert_eq!(ov.cell_at(1, 0).character, 'b');
    assert_eq!(ov.cell_at(0, 1).character, 'c');
    assert_eq!(ov.cell_at(1, 1).character, 'd');
}

#[test]
fn test_scroll_preserves_bottom_rows() {
    let mut ov = ShellOverlay::new(4, 2);
    ov.process_output(b"ab\r\ncd");
    ov.process_output(b"\n");
    assert_eq!(ov.size(), (4, 2));
    assert_eq!(ov.cell_at(0, 0).character, 'c');
    assert_eq!(ov.cell_at(1, 0).character, 'd');
    assert_eq!(ov.cell_at(0, 1), blank());
    assert_eq!(ov.cell_at(1, 1), blank());
}

#[test]
fn test_many_line_feeds_keep_grid_size() {
    let mut ov = ShellOverlay::new(3, 3);
    ov.process_output(b"x\r\n\n\n\n\n\n\n\n");
    assert_eq!(ov.size(), (3, 3));
    assert_eq!(ov.get_cursor_pos(), (0, 2));
    for y in 0..3 {
        for x in 0..3 {
            assert_eq!(ov.cell_at(x, y), blank());
        }
    }
}

#[test]
fn test_clear_screen_and_home() {
    let mut ov = ShellOverlay::new(4, 2);
    ov.process_output(b"abcdwx");
    ov.process_output(b"\x1b[2J\x1b[H");
    assert_eq!(ov.get_cursor_pos(), (0, 0));
    for y in 0..2 {
        for x in 0..4 {
            assert_eq!(ov.cell_at(x, y), blank());
        }
    }
}

#[test]
fn test_resize_clamps_cursor_command() {
    let mut ov = ShellOverlay::new(80, 24);
    ov.resize(120, 40);
    assert_eq!(ov.size(), (120, 40));
    ov.process_output(b"\x1b[200;5H");
    assert_eq!(ov.get_cursor_pos(), (4, 39));
}

#[test]
fn test_cursor_position_defaults_and_clamping() {
    let mut ov = ShellOverlay::new(10, 10);
    ov.process_output(b"\x1b[5;7H");
    assert_eq!(ov.get_cursor_pos(), (6, 4));
    ov.process_output(b"\x1b[H");
    assert_eq!(ov.get_cursor_pos(), (0, 0));
    ov.process_output(b"\x1b[99;99f");
    assert_eq!(ov.get_cursor_pos(), (9, 9));
}

#[test]
fn test_relative_cursor_moves_clamp() {
    let mut ov = ShellOverlay::new(10, 10);
    ov.process_output(b"\x1b[5;5H");
    ov.process_output(b"\x1b[2A");
    assert_eq!(ov.get_cursor_pos(), (4, 2));
    ov.process_output(b"\x1b[3B");
    assert_eq!(ov.get_cursor_pos(), (4, 5));
    ov.process_output(b"\x1b[4C");
    assert_eq!(ov.get_cursor_pos(), (8, 5));
    ov.process_output(b"\x1b[2D");
    assert_eq!(ov.get_cursor_pos(), (6, 5));
    ov.process_output(b"\x1b[99A\x1b[99D");
    assert_eq!(ov.get_cursor_pos(), (0, 0));
    ov.process_output(b"\x1b[99B\x1b[99C");
    assert_eq!(ov.get_cursor_pos(), (9, 9));
}

#[test]
fn test_erase_line_modes() {
    let mut ov = ShellOverlay::new(6, 2);
    ov.process_output(b"abcd\r\x1b[C\x1b[K");
    assert_eq!(ov.cell_at(0, 0).character, 'a');
    assert_eq!(ov.cell_at(1, 0), blank());
    assert_eq!(ov.cell_at(2, 0), blank());
    assert_eq!(ov.cell_at(3, 0), blank());
    let mut ov2 = ShellOverlay::new(6, 2);
    ov2.process_output(b"abcd\r\x1b[C\x1b[2K");
    assert_eq!(ov2.cell_at(0, 0), blank());
    assert_eq!(ov2.cell_at(3, 0), blank());
}

#[test]
fn test_erase_display_to_end() {
    let mut ov = ShellOverlay::new(3, 3);
    ov.process_output(b"abcdefgh");
    ov.process_output(b"\x1b[2;2H\x1b[J");
    assert_eq!(ov.cell_at(0, 0).character, 'a');
    assert_eq!(ov.cell_at(2, 0).character, 'c');
    assert_eq!(ov.cell_at(0, 1).character, 'd');
    assert_eq!(ov.cell_at(1, 1), blank());
    assert_eq!(ov.cell_at(2, 1), blank());
    assert_eq!(ov.cell_at(0, 2), blank());
    assert_eq!(ov.cell_at(2, 2), blank());
}

#[test]
fn test_save_and_restore_cursor() {
    let mut ov = ShellOverlay::new(10, 5);
    ov.process_output(b"\x1b[2;3H\x1b[s\x1b[H");
    assert_eq!(ov.get_cursor_pos(), (0, 0));
    ov.process_output(b"\x1b[u");
    assert_eq!(ov.get_cursor_pos(), (2, 1));
}

#[test]
fn test_cursor_visibility_toggles() {
    let mut ov = ShellOverlay::new(4, 4);
    assert!(ov.cursor_visible());
    ov.process_output(b"\x1b[?25l");
    assert!(!ov.cursor_visible());
    ov.process_output(b"\x1b[?25h");
    assert!(ov.cursor_visible());
}

#[test]
fn test_tab_and_backspace() {
    let mut ov = ShellOverlay::new(20, 2);
    ov.process_output(b"a\tb");
    assert_eq!(ov.cell_at(0, 0).character, 'a');
    assert_eq!(ov.cell_at(8, 0).character, 'b');
    assert_eq!(ov.get_cursor_pos(), (9, 0));
    ov.process_output(b"\x08\x08");
    assert_eq!(ov.get_cursor_pos(), (7, 0));
    let mut ov2 = ShellOverlay::new(4, 2);
    ov2.process_output(b"\x08");
    assert_eq!(ov2.get_cursor_pos(), (0, 0));
}

#[test]
fn test_form_feed_clears_and_homes() {
    let mut ov = ShellOverlay::new(4, 2);
    ov.process_output(b"abc\x0c");
    assert_eq!(ov.get_cursor_pos(), (0, 0));
    assert_eq!(ov.cell_at(0, 0), blank());
}

#[test]
fn test_indexed_and_rgb_colors() {
    let mut ov = ShellOverlay::new(8, 2);
    ov.process_output(b"\x1b[38;5;196mA");
    assert_eq!(ov.cell_at(0, 0).fg, Color::AnsiValue(196));
    ov.process_output(b"\x1b[48;2;10;20;30mB");
    let c = ov.cell_at(1, 0);
    assert_eq!(c.character, 'B');
    assert_eq!(c.bg, Color::Rgb { r: 10, g: 20, b: 30 });
    ov.process_output(b"\x1b[49mC");
    assert_eq!(ov.cell_at(2, 0).bg, Color::Reset);
}

#[test]
fn test_bright_and_background_palette() {
    let mut ov = ShellOverlay::new(8, 1);
    ov.process_output(b"\x1b[90ma\x1b[44mb\x1b[39mc");
    assert_eq!(ov.cell_at(0, 0).fg, Color::DarkGrey);
    let b = ov.cell_at(1, 0);
    assert_eq!(b.fg, Color::DarkGrey);
    assert_eq!(b.bg, Color::Blue);
    let c = ov.cell_at(2, 0);
    assert_eq!(c.fg, Color::Reset);
    assert_eq!(c.bg, Color::Blue);
}

#[test]
fn test_wrap_at_right_edge_scrolls_at_bottom() {
    let mut ov = ShellOverlay::new(3, 2);
    ov.process_output(b"abcdef");
    assert_eq!(ov.get_cursor_pos(), (0, 1));
    assert_eq!(ov.cell_at(0, 0).character, 'd');
    assert_eq!(ov.cell_at(1, 0).character, 'e');
    assert_eq!(ov.cell_at(2, 0).character, 'f');
    assert_eq!(ov.cell_at(0, 1), blank());
}

#[test]
fn test_osc_title_sequence_is_swallowed() {
    let mut ov = ShellOverlay::new(10, 2);
    ov.process_output(b"\x1b]0;some title\x07x");
    assert_eq!(ov.cell_at(0, 0).character, 'x');
    assert_eq!(ov.cell_at(1, 0), blank());
    let mut ov2 = ShellOverlay::new(10, 2);
    ov2.process_output(b"\x1b]2;t\x1b\\y");
    assert_eq!(ov2.cell_at(0, 0).character, 'y');
}

#[test]
fn test_utf8_output_is_decoded() {
    let mut ov = ShellOverlay::new(10, 2);
    ov.process_output("h\u{e9}llo".as_bytes());
    assert_eq!(ov.cell_at(0, 0).character, 'h');
    assert_eq!(ov.cell_at(1, 0).character, '\u{e9}');
    assert_eq!(ov.cell_at(2, 0).character, 'l');
    ov.process_output("\u{4e16}".as_bytes());
    assert_eq!(ov.cell_at(5, 0).character, '\u{4e16}');
}

#[test]
fn test_split_escape_sequence_across_chunks() {
    let mut ov = ShellOverlay::new(8, 2);
    ov.process_output(b"\x1b[3");
    ov.process_output(b"1m");
    ov.process_output(b"Q");
    assert_eq!(ov.cell_at(0, 0).fg, Color::Red);
}

#[test]
fn test_colon_subparameters_are_dropped() {
    let mut ov = ShellOverlay::new(8, 1);
    ov.process_output(b"\x1b[38:5:196mA");
    assert_eq!(ov.cell_at(0, 0).fg, Color::Reset);
}

#[test]
fn test_unknown_sequences_are_ignored() {
    let mut ov = ShellOverlay::new(6, 2);
    ov.process_output(b"\x1b[12z\x1b[999;999;999q\x1b[?1049hok");
    assert_eq!(ov.cell_at(0, 0).character, 'o');
    assert_eq!(ov.cell_at(1, 0).character, 'k');
}

#[test]
fn test_render_transparency_rule() {
    let mut ov = ShellOverlay::new(3, 2);
    ov.process_output(b"A");
    let mut buf = ScreenBuffer::new(3, 2);
    buf.set(0, 0, 'z', Color::Cyan);
    buf.set(1, 0, 'q', Color::Cyan);
    ov.render(&mut buf);
    let ops = buf.flush();
    assert_eq!(
        ops,
        vec![
            DrawOp::MoveTo { x: 0, y: 0 },
            DrawOp::Print { ch: 'A' },
            DrawOp::SetColors { fg: Color::Cyan, bg: Color::Reset },
            DrawOp::Print { ch: 'q' },
            DrawOp::ResetColors,
        ]
    );
}

#[test]
fn test_render_explicit_background_is_opaque() {
    let mut ov = ShellOverlay::new(2, 1);
    ov.process_output(b"\x1b[44m ");
    let mut buf = ScreenBuffer::new(2, 1);
    buf.set(0, 0, 'w', Color::Cyan);
    ov.render(&mut buf);
    let ops = buf.flush();
    assert_eq!(
        ops,
        vec![
            DrawOp::MoveTo { x: 0, y: 0 },
            DrawOp::SetColors { fg: Color::Reset, bg: Color::Blue },
            DrawOp::Print { ch: ' ' },
            DrawOp::ResetColors,
        ]
    );
}
