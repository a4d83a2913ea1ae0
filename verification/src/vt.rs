use vstd::prelude::*;

verus! {

/// One event recognized in the byte stream: a printable character, a bare
/// C0 control byte, or a complete control sequence (CSI) made of numeric
/// parameters and one final action letter.
#[derive(Debug, PartialEq, Eq)]
pub enum VtEvent {
    Print(char),
    Control(u8),
    Csi { params: Vec<u16>, action: char },
}

/// The spec-level picture of an event, with the parameters as a sequence.
pub enum VtEventS {
    Print(char),
    Control(u8),
    Csi { params: Seq<u16>, action: char },
}

impl VtEvent {
    pub open spec fn view(&self) -> VtEventS {
        match self {
            VtEvent::Print(c) => VtEventS::Print(*c),
            VtEvent::Control(b) => VtEventS::Control(*b),
            VtEvent::Csi { params, action } => VtEventS::Csi { params: params@, action: *action },
        }
    }
}

/// What an `Option<VtEvent>` stands for at the spec level.
pub open spec fn opt_event_view(e: Option<VtEvent>) -> Option<VtEventS> {
    match e {
        None => None,
        Some(ev) => Some(ev.view()),
    }
}

/// The mode the byte classifier is in between bytes.
#[derive(Clone, Copy, Debug, PartialEq, Eq, Structural)]
pub enum TokMode {
    /// Plain text.
    Ground,
    /// An ESC byte was seen and the next byte selects the sequence kind.
    Escape,
    /// Inside `ESC [`: collecting parameters until the final byte.
    Csi,
    /// Inside an operating-system-command string: swallowed until BEL or ESC.
    Osc,
    /// Inside a multi-byte UTF-8 encoding: collecting continuation bytes.
    Utf8,
}

/// The spec-level state of the tokenizer.
pub struct TokView {
    pub mode: TokMode,
    pub params: Seq<u16>,
    pub current: u16,
    pub has_param: bool,
    pub in_subparam: bool,
    pub utf8_acc: u32,
    pub utf8_rem: u8,
    pub utf8_min: u32,
}

/// The byte classifier: a small state machine that turns the raw output
/// stream of the hosted shell into printable characters, control bytes and
/// complete control sequences. Malformed input never produces an error;
/// whatever cannot be recognized is dropped.
pub struct Tokenizer {
    mode: TokMode,
    params: Vec<u16>,
    current: u16,
    has_param: bool,
    in_subparam: bool,
    utf8_acc: u32,
    utf8_rem: u8,
    utf8_min: u32,
}

impl View for Tokenizer {
    type V = TokView;

    closed spec fn view(&self) -> TokView {
        TokView {
            mode: self.mode,
            params: self.params@,
            current: self.current,
            has_param: self.has_param,
            in_subparam: self.in_subparam,
            utf8_acc: self.utf8_acc,
            utf8_rem: self.utf8_rem,
            utf8_min: self.utf8_min,
        }
    }
}

/// While collecting a UTF-8 encoding the accumulator stays small enough
/// that shifting in one more six-bit group cannot overflow.
pub open spec fn tok_wf(t: TokView) -> bool {
    t.mode == TokMode::Utf8 ==> {
        &&& 1 <= t.utf8_rem <= 3
        &&& t.utf8_rem == 1 ==> t.utf8_acc <= 0x7fff
        &&& t.utf8_rem == 2 ==> t.utf8_acc <= 0x1ff
        &&& t.utf8_rem == 3 ==> t.utf8_acc <= 0x07
    }
}

/// A scalar value that Rust accepts as a `char`: anything in the Unicode
/// range that is not a surrogate.
pub open spec fn is_valid_scalar(u: u32) -> bool {
    u < 0xd800 || (0xe000 <= u && u <= 0x10ffff)
}

pub open spec fn tok_ground_step(t: TokView, b: u8) -> (TokView, Option<VtEventS>) {
    if b == 0x1b {
        (TokView { mode: TokMode::Escape, ..t }, None)
    } else if b < 0x20 {
        (TokView { mode: TokMode::Ground, ..t }, Some(VtEventS::Control(b)))
    } else if b < 0x7f {
        (TokView { mode: TokMode::Ground, ..t }, Some(VtEventS::Print(b as char)))
    } else if b == 0x7f {
        (TokView { mode: TokMode::Ground, ..t }, None)
    } else if 0xc2 <= b && b <= 0xdf {
        (
            TokView {
                mode: TokMode::Utf8,
                utf8_acc: (b & 0x1f) as u32,
                utf8_rem: 1,
                utf8_min: 0x80,
                ..t
            },
            None,
        )
    } else if 0xe0 <= b && b <= 0xef {
        (
            TokView {
                mode: TokMode::Utf8,
                utf8_acc: (b & 0x0f) as u32,
                utf8_rem: 2,
                utf8_min: 0x800,
                ..t
            },
            None,
        )
    } else if 0xf0 <= b && b <= 0xf4 {
        (
            TokView {
                mode: TokMode::Utf8,
                utf8_acc: (b & 0x07) as u32,
                utf8_rem: 3,
                utf8_min: 0x10000,
                ..t
            },
            None,
        )
    } else {
        (TokView { mode: TokMode::Ground, ..t }, None)
    }
}

pub open spec fn tok_escape_step(t: TokView, b: u8) -> (TokView, Option<VtEventS>) {
    if b == 0x1b {
        (t, None)
    } else if b == 0x5b {
        (
            TokView {
                mode: TokMode::Csi,
                params: Seq::empty(),
                current: 0,
                has_param: false,
                in_subparam: false,
                ..t
            },
            None,
        )
    } else if b == 0x5d {
        (TokView { mode: TokMode::Osc, ..t }, None)
    } else if b < 0x20 {
        (t, Some(VtEventS::Control(b)))
    } else {
        (TokView { mode: TokMode::Ground, ..t }, None)
    }
}

pub open spec fn tok_csi_step(t: TokView, b: u8) -> (TokView, Option<VtEventS>) {
    if b == 0x1b {
        (TokView { mode: TokMode::Escape, ..t }, None)
    } else if b < 0x20 {
        (t, Some(VtEventS::Control(b)))
    } else if 0x30 <= b && b <= 0x39 {
        if t.in_subparam {
            (t, None)
        } else {
            let v = (t.current as int) * 10 + ((b - 0x30) as int);
            let cur: u16 = if v > 0xffff {
                0xffffu16
            } else {
                v as u16
            };
            (TokView { current: cur, has_param: true, ..t }, None)
        }
    } else if b == 0x3a {
        (TokView { in_subparam: true, has_param: true, ..t }, None)
    } else if b == 0x3b {
        let ps = if t.params.len() < 32 {
            t.params.push(t.current)
        } else {
            t.params
        };
        (TokView { params: ps, current: 0, has_param: true, in_subparam: false, ..t }, None)
    } else if 0x40 <= b && b <= 0x7e {
        let ps = if t.has_param && t.params.len() < 32 {
            t.params.push(t.current)
        } else {
            t.params
        };
        (
            TokView {
                mode: TokMode::Ground,
                params: Seq::empty(),
                current: 0,
                has_param: false,
                in_subparam: false,
                ..t
            },
            Some(VtEventS::Csi { params: ps, action: b as char }),
        )
    } else {
        (t, None)
    }
}

pub open spec fn tok_osc_step(t: TokView, b: u8) -> (TokView, Option<VtEventS>) {
    if b == 0x1b {
        (TokView { mode: TokMode::Escape, ..t }, None)
    } else if b == 0x07 {
        (TokView { mode: TokMode::Ground, ..t }, None)
    } else {
        (t, None)
    }
}

pub open spec fn tok_utf8_step(t: TokView, b: u8) -> (TokView, Option<VtEventS>) {
    if 0x80 <= b && b <= 0xbf {
        let acc = ((t.utf8_acc as int) * 64 + ((b & 0x3f) as int)) as u32;
        if t.utf8_rem == 1 {
            let done = TokView { mode: TokMode::Ground, ..t };
            if acc >= t.utf8_min && is_valid_scalar(acc) {
                (done, Some(VtEventS::Print(acc as char)))
            } else {
                (done, None)
            }
        } else {
            (TokView { utf8_acc: acc, utf8_rem: (t.utf8_rem - 1) as u8, ..t }, None)
        }
    } else {
        tok_ground_step(TokView { mode: TokMode::Ground, ..t }, b)
    }
}

/// One step of the classifier: the state after the byte, and the event the
/// byte completed, if any.
pub open spec fn tok_step(t: TokView, b: u8) -> (TokView, Option<VtEventS>) {
    match t.mode {
        TokMode::Ground => tok_ground_step(t, b),
        TokMode::Escape => tok_escape_step(t, b),
        TokMode::Csi => tok_csi_step(t, b),
        TokMode::Osc => tok_osc_step(t, b),
        TokMode::Utf8 => tok_utf8_step(t, b),
    }
}

pub proof fn lemma_tok_step_wf(t: TokView, b: u8)
    requires
        tok_wf(t),
    ensures
        tok_wf(tok_step(t, b).0),
{
    assert((b & 0x1f) <= 0x1f && (b & 0x0f) <= 0x0f && (b & 0x07) <= 0x07 && (b & 0x3f) <= 0x3f)
        by (bit_vector);
}

impl Tokenizer {
    /// The state in which plain text is expected.
    pub open spec fn initial_spec() -> TokView {
        TokView {
            mode: TokMode::Ground,
            params: Seq::empty(),
            current: 0,
            has_param: false,
            in_subparam: false,
            utf8_acc: 0,
            utf8_rem: 0,
            utf8_min: 0,
        }
    }

    pub fn new() -> (t: Tokenizer)
        ensures
            t@ == Tokenizer::initial_spec(),
            tok_wf(t@),
    {
        Tokenizer {
            mode: TokMode::Ground,
            params: Vec::new(),
            current: 0,
            has_param: false,
            in_subparam: false,
            utf8_acc: 0,
            utf8_rem: 0,
            utf8_min: 0,
        }
    }

    fn step_ground(&mut self, b: u8) -> (ev: Option<VtEvent>)
        ensures
            (final(self)@, opt_event_view(ev)) == tok_ground_step(old(self)@, b),
    {
        self.mode = TokMode::Ground;
        if b == 0x1b {
            self.mode = TokMode::Escape;
            None
        } else if b < 0x20 {
            Some(VtEvent::Control(b))
        } else if b < 0x7f {
            Some(VtEvent::Print(b as char))
        } else if b == 0x7f {
            None
        } else if 0xc2 <= b && b <= 0xdf {
            self.mode = TokMode::Utf8;
            self.utf8_acc = (b & 0x1f) as u32;
            self.utf8_rem = 1;
            self.utf8_min = 0x80;
            None
        } else if 0xe0 <= b && b <= 0xef {
            self.mode = TokMode::Utf8;
            self.utf8_acc = (b & 0x0f) as u32;
            self.utf8_rem = 2;
            self.utf8_min = 0x800;
            None
        } else if 0xf0 <= b && b <= 0xf4 {
            self.mode = TokMode::Utf8;
            self.utf8_acc = (b & 0x07) as u32;
            self.utf8_rem = 3;
            self.utf8_min = 0x10000;
            None
        } else {
            None
        }
    }

    /// Relies on char::from_u32: it returns the character of the given
    /// scalar value, and None exactly on surrogates and values beyond the
    /// Unicode range.
    #[verifier::external_body]
    fn char_of_scalar(u: u32) -> (r: Option<char>)
        ensures
            r is Some <==> is_valid_scalar(u),
            r is Some ==> r.unwrap() as u32 == u,
    {
        char::from_u32(u)
    }

    /// Feeds one byte; returns the event it completed, if any.
    pub fn step(&mut self, b: u8) -> (ev: Option<VtEvent>)
        requires
            tok_wf(old(self)@),
        ensures
            (final(self)@, opt_event_view(ev)) == tok_step(old(self)@, b),
            tok_wf(final(self)@),
    {
        proof {
            lemma_tok_step_wf(old(self)@, b);
        }
        match self.mode {
            TokMode::Ground => self.step_ground(b),
            TokMode::Escape => {
                if b == 0x1b {
                    None
                } else if b == 0x5b {
                    self.mode = TokMode::Csi;
                    self.params.clear();
                    self.current = 0;
                    self.has_param = false;
                    self.in_subparam = false;
                    None
                } else if b == 0x5d {
                    self.mode = TokMode::Osc;
                    None
                } else if b < 0x20 {
                    Some(VtEvent::Control(b))
                } else {
                    self.mode = TokMode::Ground;
                    None
                }
            },
            TokMode::Csi => {
                if b == 0x1b {
                    self.mode = TokMode::Escape;
                    None
                } else if b < 0x20 {
                    Some(VtEvent::Control(b))
                } else if 0x30 <= b && b <= 0x39 {
                    if !self.in_subparam {
                        let v: u32 = (self.current as u32) * 10 + ((b - 0x30) as u32);
                        self.current = if v > 0xffff {
                            0xffffu16
                        } else {
                            v as u16
                        };
                        self.has_param = true;
                    }
                    None
                } else if b == 0x3a {
                    self.in_subparam = true;
                    self.has_param = true;
                    None
                } else if b == 0x3b {
                    if self.params.len() < 32 {
                        self.params.push(self.current);
                    }
                    self.current = 0;
                    self.has_param = true;
                    self.in_subparam = false;
                    None
                } else if 0x40 <= b && b <= 0x7e {
                    if self.has_param && self.params.len() < 32 {
                        self.params.push(self.current);
                    }
                    let mut ps: Vec<u16> = Vec::new();
                    core::mem::swap(&mut ps, &mut self.params);
                    self.mode = TokMode::Ground;
                    self.current = 0;
                    self.has_param = false;
                    self.in_subparam = false;
                    Some(VtEvent::Csi { params: ps, action: b as char })
                } else {
                    None
                }
            },
            TokMode::Osc => {
                if b == 0x1b {
                    self.mode = TokMode::Escape;
                    None
                } else if b == 0x07 {
                    self.mode = TokMode::Ground;
                    None
                } else {
                    None
                }
            },
            TokMode::Utf8 => {
                if 0x80 <= b && b <= 0xbf {
                    let acc: u32 = self.utf8_acc * 64 + ((b & 0x3f) as u32);
                    if self.utf8_rem == 1 {
                        self.mode = TokMode::Ground;
                        if acc >= self.utf8_min {
                            match Self::char_of_scalar(acc) {
                                Some(c) => {
                                    proof {
                                        vstd::utf8::char_u32_cast(c, acc);
                                    }
                                    Some(VtEvent::Print(c))
                                },
                                None => None,
                            }
                        } else {
                            None
                        }
                    } else {
                        self.utf8_acc = acc;
                        self.utf8_rem = self.utf8_rem - 1;
                        None
                    }
                } else {
                    self.mode = TokMode::Ground;
                    self.step_ground(b)
                }
            },
        }
    }
}

} // verus!
