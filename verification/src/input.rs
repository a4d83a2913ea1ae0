use vstd::prelude::*;

use vstd::utf8::encode_scalar;

verus! {

/// The modifier keys held together with a key press.
#[derive(Clone, Copy, Debug, PartialEq, Eq, Structural)]
pub struct KeyModifiers {
    pub ctrl: bool,
    pub alt: bool,
    pub shift: bool,
}

impl KeyModifiers {
    pub open spec fn none_spec() -> KeyModifiers {
        KeyModifiers { ctrl: false, alt: false, shift: false }
    }

    pub fn none() -> (m: KeyModifiers)
        ensures
            m == KeyModifiers::none_spec(),
    {
        KeyModifiers { ctrl: false, alt: false, shift: false }
    }

    pub fn control() -> (m: KeyModifiers)
        ensures
            m == (KeyModifiers { ctrl: true, alt: false, shift: false }),
    {
        KeyModifiers { ctrl: true, alt: false, shift: false }
    }

    pub fn alt() -> (m: KeyModifiers)
        ensures
            m == (KeyModifiers { ctrl: false, alt: true, shift: false }),
    {
        KeyModifiers { ctrl: false, alt: true, shift: false }
    }

    pub fn shift() -> (m: KeyModifiers)
        ensures
            m == (KeyModifiers { ctrl: false, alt: false, shift: true }),
    {
        KeyModifiers { ctrl: false, alt: false, shift: true }
    }
}

/// An abstract key press, independent of any input backend.
#[derive(Clone, Copy, Debug, PartialEq, Eq, Structural)]
pub enum KeyCode {
    Char(char),
    Enter,
    Backspace,
    Tab,
    Esc,
    Up,
    Down,
    Right,
    Left,
    Home,
    End,
    PageUp,
    PageDown,
    Delete,
    Insert,
    F(u8),
    /// A key with no terminal encoding; it maps to the empty sequence.
    Null,
}

#[derive(Clone, Copy, Debug, PartialEq, Eq, Structural)]
pub struct KeyEvent {
    pub code: KeyCode,
    pub modifiers: KeyModifiers,
}

impl KeyEvent {
    pub fn new(code: KeyCode, modifiers: KeyModifiers) -> (ev: KeyEvent)
        ensures
            ev.code == code,
            ev.modifiers == modifiers,
    {
        KeyEvent { code, modifiers }
    }
}

/// ASCII upper-casing of a scalar value: the letters a-z map to A-Z and
/// every other value stays as it is.
pub open spec fn upper_ascii(u: u32) -> u32 {
    if 0x61 <= u <= 0x7a {
        (u - 0x20) as u32
    } else {
        u
    }
}

/// The byte sent for a character typed while Control is held: NUL for
/// space and `@`, DEL for `?`, and for everything else the upper-cased
/// character masked to its low five bits.
pub open spec fn ctrl_char_bytes(c: char) -> Seq<u8> {
    if c == ' ' || c == '@' {
        seq![0x00u8]
    } else if c == '?' {
        seq![0x7fu8]
    } else {
        seq![(upper_ascii(c as u32) & 0x1f) as u8]
    }
}

/// The conventional byte sequence for a function key; keys beyond F12
/// have none and map to the empty sequence.
pub open spec fn f_key_bytes(n: u8) -> Seq<u8> {
    if n == 1 {
        seq![0x1bu8, 0x4fu8, 0x50u8]
    } else if n == 2 {
        seq![0x1bu8, 0x4fu8, 0x51u8]
    } else if n == 3 {
        seq![0x1bu8, 0x4fu8, 0x52u8]
    } else if n == 4 {
        seq![0x1bu8, 0x4fu8, 0x53u8]
    } else if n == 5 {
        seq![0x1bu8, 0x5bu8, 0x31u8, 0x35u8, 0x7eu8]
    } else if n == 6 {
        seq![0x1bu8, 0x5bu8, 0x31u8, 0x37u8, 0x7eu8]
    } else if n == 7 {
        seq![0x1bu8, 0x5bu8, 0x31u8, 0x38u8, 0x7eu8]
    } else if n == 8 {
        seq![0x1bu8, 0x5bu8, 0x31u8, 0x39u8, 0x7eu8]
    } else if n == 9 {
        seq![0x1bu8, 0x5bu8, 0x32u8, 0x30u8, 0x7eu8]
    } else if n == 10 {
        seq![0x1bu8, 0x5bu8, 0x32u8, 0x31u8, 0x7eu8]
    } else if n == 11 {
        seq![0x1bu8, 0x5bu8, 0x32u8, 0x33u8, 0x7eu8]
    } else if n == 12 {
        seq![0x1bu8, 0x5bu8, 0x32u8, 0x34u8, 0x7eu8]
    } else {
        Seq::empty()
    }
}

/// The terminal input bytes for one key press. A character is sent as its
/// UTF-8 encoding, shortened to a control byte under Control and prefixed
/// with ESC under Alt; the editing and navigation keys use their
/// conventional single-byte, CSI or SS3 sequences; a key with no mapping
/// yields the empty sequence.
pub open spec fn key_bytes(ev: KeyEvent) -> Seq<u8> {
    match ev.code {
        KeyCode::Char(c) => {
            if ev.modifiers.ctrl {
                ctrl_char_bytes(c)
            } else if ev.modifiers.alt {
                seq![0x1bu8] + encode_scalar(c as u32)
            } else {
                encode_scalar(c as u32)
            }
        },
        KeyCode::Enter => seq![0x0du8],
        KeyCode::Backspace => seq![0x7fu8],
        KeyCode::Tab => {
            if ev.modifiers.shift {
                seq![0x1bu8, 0x5bu8, 0x5au8]
            } else {
                seq![0x09u8]
            }
        },
        KeyCode::Esc => seq![0x1bu8],
        KeyCode::Up => seq![0x1bu8, 0x5bu8, 0x41u8],
        KeyCode::Down => seq![0x1bu8, 0x5bu8, 0x42u8],
        KeyCode::Right => seq![0x1bu8, 0x5bu8, 0x43u8],
        KeyCode::Left => seq![0x1bu8, 0x5bu8, 0x44u8],
        KeyCode::Home => seq![0x1bu8, 0x5bu8, 0x48u8],
        KeyCode::End => seq![0x1bu8, 0x5bu8, 0x46u8],
        KeyCode::PageUp => seq![0x1bu8, 0x5bu8, 0x35u8, 0x7eu8],
        KeyCode::PageDown => seq![0x1bu8, 0x5bu8, 0x36u8, 0x7eu8],
        KeyCode::Delete => seq![0x1bu8, 0x5bu8, 0x33u8, 0x7eu8],
        KeyCode::Insert => seq![0x1bu8, 0x5bu8, 0x32u8, 0x7eu8],
        KeyCode::F(n) => f_key_bytes(n),
        KeyCode::Null => Seq::empty(),
    }
}

/// Appends the UTF-8 encoding of `c` to `out`.
fn push_utf8(out: &mut Vec<u8>, c: char)
    ensures
        final(out)@ == old(out)@ + encode_scalar(c as u32),
{
    let u: u32 = c as u32;
    proof {
        vstd::utf8::char_is_scalar(c);
    }
    if u <= 0x7f {
        proof {
            assert(u & 0x7f == u) by (bit_vector)
                requires
                    u <= 0x7f,
            ;
        }
        out.push(u as u8);
    } else if u <= 0x7ff {
        proof {
            assert(((u >> 6) & 0x1f) <= 0x1f && (u & 0x3f) <= 0x3f) by (bit_vector);
        }
        out.push(0xc0u8 | (((u >> 6) & 0x1f) as u8));
        out.push(0x80u8 | ((u & 0x3f) as u8));
    } else if u <= 0xffff {
        proof {
            assert(((u >> 12) & 0x0f) <= 0x0f && ((u >> 6) & 0x3f) <= 0x3f && (u & 0x3f) <= 0x3f)
                by (bit_vector);
        }
        out.push(0xe0u8 | (((u >> 12) & 0x0f) as u8));
        out.push(0x80u8 | (((u >> 6) & 0x3f) as u8));
        out.push(0x80u8 | ((u & 0x3f) as u8));
    } else {
        proof {
            assert(((u >> 18) & 0x07) <= 0x07 && ((u >> 12) & 0x3f) <= 0x3f && ((u >> 6) & 0x3f)
                <= 0x3f && (u & 0x3f) <= 0x3f) by (bit_vector);
        }
        out.push(0xf0u8 | (((u >> 18) & 0x07) as u8));
        out.push(0x80u8 | (((u >> 12) & 0x3f) as u8));
        out.push(0x80u8 | (((u >> 6) & 0x3f) as u8));
        out.push(0x80u8 | ((u & 0x3f) as u8));
    }
    proof {
        assert(final(out)@ =~= old(out)@ + encode_scalar(c as u32));
    }
}

/// Encodes one key press as the bytes to hand to the hosted shell's
/// terminal.
pub fn key_event_to_bytes(key: KeyEvent) -> (r: Vec<u8>)
    ensures
        r@ == key_bytes(key),
{
    match key.code {
        KeyCode::Char(c) => {
            if key.modifiers.ctrl {
                if c == ' ' || c == '@' {
                    vec![0x00u8]
                } else if c == '?' {
                    vec![0x7fu8]
                } else {
                    let u: u32 = c as u32;
                    let up: u32 = if 0x61 <= u && u <= 0x7a {
                        u - 0x20
                    } else {
                        u
                    };
                    proof {
                        assert((up & 0x1f) <= 0x1f) by (bit_vector);
                    }
                    let b: u8 = (up & 0x1f) as u8;
                    vec![b]
                }
            } else if key.modifiers.alt {
                let mut bytes: Vec<u8> = vec![0x1bu8];
                push_utf8(&mut bytes, c);
                bytes
            } else {
                let mut bytes: Vec<u8> = Vec::new();
                push_utf8(&mut bytes, c);
                proof {
                    assert(bytes@ =~= encode_scalar(c as u32));
                }
                bytes
            }
        },
        KeyCode::Enter => vec![0x0du8],
        KeyCode::Backspace => vec![0x7fu8],
        KeyCode::Tab => {
            if key.modifiers.shift {
                vec![0x1bu8, 0x5bu8, 0x5au8]
            } else {
                vec![0x09u8]
            }
        },
        KeyCode::Esc => vec![0x1bu8],
        KeyCode::Up => vec![0x1bu8, 0x5bu8, 0x41u8],
        KeyCode::Down => vec![0x1bu8, 0x5bu8, 0x42u8],
        KeyCode::Right => vec![0x1bu8, 0x5bu8, 0x43u8],
        KeyCode::Left => vec![0x1bu8, 0x5bu8, 0x44u8],
        KeyCode::Home => vec![0x1bu8, 0x5bu8, 0x48u8],
        KeyCode::End => vec![0x1bu8, 0x5bu8, 0x46u8],
        KeyCode::PageUp => vec![0x1bu8, 0x5bu8, 0x35u8, 0x7eu8],
        KeyCode::PageDown => vec![0x1bu8, 0x5bu8, 0x36u8, 0x7eu8],
        KeyCode::Delete => vec![0x1bu8, 0x5bu8, 0x33u8, 0x7eu8],
        KeyCode::Insert => vec![0x1bu8, 0x5bu8, 0x32u8, 0x7eu8],
        KeyCode::F(n) => {
            if n == 1 {
                vec![0x1bu8, 0x4fu8, 0x50u8]
            } else if n == 2 {
                vec![0x1bu8, 0x4fu8, 0x51u8]
            } else if n == 3 {
                vec![0x1bu8, 0x4fu8, 0x52u8]
            } else if n == 4 {
                vec![0x1bu8, 0x4fu8, 0x53u8]
            } else if n == 5 {
                vec![0x1bu8, 0x5bu8, 0x31u8, 0x35u8, 0x7eu8]
            } else if n == 6 {
                vec![0x1bu8, 0x5bu8, 0x31u8, 0x37u8, 0x7eu8]
            } else if n == 7 {
                vec![0x1bu8, 0x5bu8, 0x31u8, 0x38u8, 0x7eu8]
            } else if n == 8 {
                vec![0x1bu8, 0x5bu8, 0x31u8, 0x39u8, 0x7eu8]
            } else if n == 9 {
                vec![0x1bu8, 0x5bu8, 0x32u8, 0x30u8, 0x7eu8]
            } else if n == 10 {
                vec![0x1bu8, 0x5bu8, 0x32u8, 0x31u8, 0x7eu8]
            } else if n == 11 {
                vec![0x1bu8, 0x5bu8, 0x32u8, 0x33u8, 0x7eu8]
            } else if n == 12 {
                vec![0x1bu8, 0x5bu8, 0x32u8, 0x34u8, 0x7eu8]
            } else {
                Vec::new()
            }
        },
        KeyCode::Null => Vec::new(),
    }
}

} // verus!
