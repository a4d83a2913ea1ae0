use weathr::{key_event_to_bytes, KeyCode, KeyEvent, KeyModifiers};

#[test]
fn test_regular_char() {
    let event = KeyEvent::new(KeyCode::Char('a'), KeyModifiers::none());
    assert_eq!(key_event_to_bytes(event), b"a");
}

#[test]
fn test_control_char() {
    let event = KeyEvent::new(KeyCode::Char('c'), KeyModifiers::control());
    assert_eq!(key_event_to_bytes(event), vec![0x03]);
}

#[test]
fn test_enter() {
    let event = KeyEvent::new(KeyCode::Enter, KeyModifiers::none());
    assert_eq!(key_event_to_bytes(event), b"\r");
}

#[test]
fn test_arrow_keys() {
    let up = KeyEvent::new(KeyCode::Up, KeyModifiers::none());
    assert_eq!(key_event_to_bytes(up), b"\x1b[A");

    let down = KeyEvent::new(KeyCode::Down, KeyModifiers::none());
    assert_eq!(key_event_to_bytes(down), b"\x1b[B");
}

#[test]
fn test_key_encoding_conventions() {
    let ctrl_c = KeyEvent::new(KeyCode::Char('c'), KeyModifiers::control());
    assert_eq!(key_event_to_bytes(ctrl_c), vec![0x03]);
    let enter = KeyEvent::new(KeyCode::Enter, KeyModifiers::none());
    assert_eq!(key_event_to_bytes(enter), vec![0x0d]);
    let up = KeyEvent::new(KeyCode::Up, KeyModifiers::none());
    assert_eq!(key_event_to_bytes(up), vec![0x1b, b'[', b'A']);
    let shift_tab = KeyEvent::new(KeyCode::Tab, KeyModifiers::shift());
    assert_eq!(key_event_to_bytes(shift_tab), vec![0x1b, b'[', b'Z']);
    let unmapped = KeyEvent::new(KeyCode::Null, KeyModifiers::none());
    assert_eq!(key_event_to_bytes(unmapped), Vec::<u8>::new());
}

#[test]
fn test_control_special_cases() {
    let space = KeyEvent::new(KeyCode::Char(' '), KeyModifiers::control());
    assert_eq!(key_event_to_bytes(space), vec![0x00]);
    let at = KeyEvent::new(KeyCode::Char('@'), KeyModifiers::control());
    assert_eq!(key_event_to_bytes(at), vec![0x00]);
    let qmark = KeyEvent::new(KeyCode::Char('?'), KeyModifiers::control());
    assert_eq!(key_event_to_bytes(qmark), vec![0x7f]);
    let upper = KeyEvent::new(KeyCode::Char('A'), KeyModifiers::control());
    assert_eq!(key_event_to_bytes(upper), vec![0x01]);
}

#[test]
fn test_alt_prefixes_escape() {
    let alt_x = KeyEvent::new(KeyCode::Char('x'), KeyModifiers::alt());
    assert_eq!(key_event_to_bytes(alt_x), vec![0x1b, b'x']);
    let alt_eacute = KeyEvent::new(KeyCode::Char('\u{e9}'), KeyModifiers::alt());
    assert_eq!(key_event_to_bytes(alt_eacute), vec![0x1b, 0xc3, 0xa9]);
}

#[test]
fn test_utf8_char_encoding() {
    let eacute = KeyEvent::new(KeyCode::Char('\u{e9}'), KeyModifiers::none());
    assert_eq!(key_event_to_bytes(eacute), "\u{e9}".as_bytes());
    let cjk = KeyEvent::new(KeyCode::Char('\u{4e16}'), KeyModifiers::none());
    assert_eq!(key_event_to_bytes(cjk), "\u{4e16}".as_bytes());
    let emoji = KeyEvent::new(KeyCode::Char('\u{1f600}'), KeyModifiers::none());
    assert_eq!(key_event_to_bytes(emoji), "\u{1f600}".as_bytes());
}

#[test]
fn test_editing_and_navigation_keys() {
    let none = KeyModifiers::none();
    assert_eq!(key_event_to_bytes(KeyEvent::new(KeyCode::Backspace, none)), vec![0x7f]);
    assert_eq!(key_event_to_bytes(KeyEvent::new(KeyCode::Tab, none)), vec![0x09]);
    assert_eq!(key_event_to_bytes(KeyEvent::new(KeyCode::Esc, none)), vec![0x1b]);
    assert_eq!(key_event_to_bytes(KeyEvent::new(KeyCode::Right, none)), b"\x1b[C");
    assert_eq!(key_event_to_bytes(KeyEvent::new(KeyCode::Left, none)), b"\x1b[D");
    assert_eq!(key_event_to_bytes(KeyEvent::new(KeyCode::Home, none)), b"\x1b[H");
    assert_eq!(key_event_to_bytes(KeyEvent::new(KeyCode::End, none)), b"\x1b[F");
    assert_eq!(key_event_to_bytes(KeyEvent::new(KeyCode::PageUp, none)), b"\x1b[5~");
    assert_eq!(key_event_to_bytes(KeyEvent::new(KeyCode::PageDown, none)), b"\x1b[6~");
    assert_eq!(key_event_to_bytes(KeyEvent::new(KeyCode::Delete, none)), b"\x1b[3~");
    assert_eq!(key_event_to_bytes(KeyEvent::new(KeyCode::Insert, none)), b"\x1b[2~");
}

#[test]
fn test_function_keys() {
    let none = KeyModifiers::none();
    assert_eq!(key_event_to_bytes(KeyEvent::new(KeyCode::F(1), none)), b"\x1bOP");
    assert_eq!(key_event_to_bytes(KeyEvent::new(KeyCode::F(4), none)), b"\x1bOS");
    assert_eq!(key_event_to_bytes(KeyEvent::new(KeyCode::F(5), none)), b"\x1b[15~");
    assert_eq!(key_event_to_bytes(KeyEvent::new(KeyCode::F(12), none)), b"\x1b[24~");
    assert_eq!(key_event_to_bytes(KeyEvent::new(KeyCode::F(13), none)), Vec::<u8>::new());
    assert_eq!(key_event_to_bytes(KeyEvent::new(KeyCode::F(0), none)), Vec::<u8>::new());
}
