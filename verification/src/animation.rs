use vstd::prelude::*;

use crate::color::Color;
use crate::screen::{written_block_cell, ScreenBuffer};
use vstd::string::StringExecFns;

verus! {

/// An animated picture: a fixed, non-empty cycle of text frames.
pub trait Animation {
    /// How many frames the cycle has.
    spec fn spec_frame_count(&self) -> usize;

    /// The lines of one frame, as the implementor describes them.
    spec fn spec_frame(&self, frame_number: int) -> Seq<Seq<char>>;

    fn frame_count(&self) -> (n: usize)
        ensures
            n == self.spec_frame_count(),
            n > 0,
    ;

    fn get_frame(&self, frame_number: usize) -> (f: Vec<String>)
        requires
            self.spec_frame_count() > 0,
        ensures
            f.deep_view() == self.spec_frame(
                ((frame_number as int) % (self.spec_frame_count() as int)),
            ),
    ;

    /// How long one frame should stay on screen.
    fn frame_delay_ms(&self) -> u64;
}

/// The frame an animation shows at the given step of the cycle.
pub open spec fn frame_of<A: Animation>(a: &A, current: usize) -> Seq<Seq<char>> {
    a.spec_frame((current as int) % (a.spec_frame_count() as int))
}

/// Steps through an animation's frames and paints the current one.
pub struct AnimationController {
    current_frame: usize,
}

impl AnimationController {
    pub closed spec fn spec_current_frame(&self) -> usize {
        self.current_frame
    }

    pub fn new() -> (c: AnimationController)
        ensures
            c.spec_current_frame() == 0,
    {
        AnimationController { current_frame: 0 }
    }

    /// Advances to the next frame of the cycle and reports it.
    pub fn next_frame<A: Animation>(&mut self, animation: &A) -> (n: usize)
        requires
            old(self).spec_current_frame() < usize::MAX,
        ensures
            final(self).spec_current_frame() == ((old(self).spec_current_frame() + 1) as int) % (
            animation.spec_frame_count() as int),
            n == final(self).spec_current_frame(),
            n < animation.spec_frame_count(),
    {
        let count = animation.frame_count();
        self.current_frame = (self.current_frame + 1) % count;
        self.current_frame
    }

    /// Paints the current frame centered on the buffer at the given row.
    pub fn render_frame<A: Animation>(
        &self,
        buf: &mut ScreenBuffer,
        animation: &A,
        y_offset: u16,
    )
        requires
            old(buf).wf(),
            animation.spec_frame_count() > 0,
        ensures
            final(buf).wf(),
            final(buf).spec_width() == old(buf).spec_width(),
            final(buf).spec_height() == old(buf).spec_height(),
            final(buf).prev() == old(buf).prev(),
            final(buf).cur().len() == old(buf).cur().len(),
            forall|bx: int, by: int|
                0 <= bx < final(buf).spec_width() && 0 <= by < final(buf).spec_height()
                    ==> final(buf).cur()[by * final(buf).spec_width() + bx] == written_block_cell(
                    old(buf).cur(),
                    final(buf).spec_width() as int,
                    crate::screen::centered_col(
                        final(buf).spec_width() as int,
                        frame_of(animation, self.spec_current_frame()),
                    ),
                    y_offset as int,
                    frame_of(animation, self.spec_current_frame()),
                    Color::Reset,
                    bx,
                    by,
                ),
    {
        let frame = animation.get_frame(self.current_frame);
        buf.render_centered_colored(&frame, y_offset, Color::Reset);
    }

    pub fn reset(&mut self)
        ensures
            final(self).spec_current_frame() == 0,
    {
        self.current_frame = 0;
    }
}

/// The slowly turning sun: four hand-drawn frames.
pub struct SunnyAnimation {
    frames: Vec<Vec<String>>,
}

/// The four frames of the sun, in order.
pub open spec fn sunny_frame(i: int) -> Seq<Seq<char>> {
    if i == 0 {
        seq![
            "    \\  |  /"@,
            "     .-\"-."@,
            "--- (  O  ) ---"@,
            "     `-.-'"@,
            "    /  |  \\"@,
        ]
    } else if i == 1 {
        seq![
            "     \\ | /"@,
            "   .-\"   \"-."@,
            "-- (   O   ) --"@,
            "   `-.   .-'"@,
            "     / | \\"@,
        ]
    } else if i == 2 {
        seq![
            "    /  |  \\"@,
            "     .-\"-."@,
            "--- (  O  ) ---"@,
            "     `-.-'"@,
            "    \\  |  /"@,
        ]
    } else {
        seq![
            "     / | \\"@,
            "   .-\"   \"-."@,
            "-- (   O   ) --"@,
            "   `-.   .-'"@,
            "     \\ | /"@,
        ]
    }
}

impl SunnyAnimation {
    #[verifier::type_invariant]
    pub closed spec fn wf(&self) -> bool {
        &&& self.frames.deep_view().len() == 4
        &&& forall|i: int| 0 <= i < 4 ==> self.frames.deep_view()[i] == sunny_frame(i)
    }

    fn create_frame_1() -> (f: Vec<String>)
        ensures
            f.deep_view() == sunny_frame(0),
    {
        let mut f: Vec<String> = Vec::new();
        f.push(String::from_str("    \\  |  /"));
        f.push(String::from_str("     .-\"-."));
        f.push(String::from_str("--- (  O  ) ---"));
        f.push(String::from_str("     `-.-'"));
        f.push(String::from_str("    /  |  \\"));
        proof {
            assert(f.deep_view() =~~= sunny_frame(0));
        }
        f
    }

    fn create_frame_2() -> (f: Vec<String>)
        ensures
            f.deep_view() == sunny_frame(1),
    {
        let mut f: Vec<String> = Vec::new();
        f.push(String::from_str("     \\ | /"));
        f.push(String::from_str("   .-\"   \"-."));
        f.push(String::from_str("-- (   O   ) --"));
        f.push(String::from_str("   `-.   .-'"));
        f.push(String::from_str("     / | \\"));
        proof {
            assert(f.deep_view() =~~= sunny_frame(1));
        }
        f
    }

    fn create_frame_3() -> (f: Vec<String>)
        ensures
            f.deep_view() == sunny_frame(2),
    {
        let mut f: Vec<String> = Vec::new();
        f.push(String::from_str("    /  |  \\"));
        f.push(String::from_str("     .-\"-."));
        f.push(String::from_str("--- (  O  ) ---"));
        f.push(String::from_str("     `-.-'"));
        f.push(String::from_str("    \\  |  /"));
        proof {
            assert(f.deep_view() =~~= sunny_frame(2));
        }
        f
    }

    fn create_frame_4() -> (f: Vec<String>)
        ensures
            f.deep_view() == sunny_frame(3),
    {
        let mut f: Vec<String> = Vec::new();
        f.push(String::from_str("     / | \\"));
        f.push(String::from_str("   .-\"   \"-."));
        f.push(String::from_str("-- (   O   ) --"));
        f.push(String::from_str("   `-.   .-'"));
        f.push(String::from_str("     \\ | /"));
        proof {
            assert(f.deep_view() =~~= sunny_frame(3));
        }
        f
    }

    pub fn new() -> (s: SunnyAnimation)
        ensures
            s.wf(),
            s.spec_frame_count() == 4,
            forall|i: int| #[trigger] s.spec_frame(i) == sunny_frame(i),
    {
        let mut frames: Vec<Vec<String>> = Vec::new();
        frames.push(Self::create_frame_1());
        frames.push(Self::create_frame_2());
        frames.push(Self::create_frame_3());
        frames.push(Self::create_frame_4());
        let s = SunnyAnimation { frames };
        proof {
            assert forall|i: int| 0 <= i < 4 implies s.frames.deep_view()[i] == sunny_frame(i) by {
                assert(s.frames.deep_view()[i] == s.frames@[i].deep_view());
            }
        }
        s
    }
}

impl Animation for SunnyAnimation {
    closed spec fn spec_frame_count(&self) -> usize {
        4usize
    }

    closed spec fn spec_frame(&self, frame_number: int) -> Seq<Seq<char>> {
        sunny_frame(frame_number)
    }

    fn frame_count(&self) -> (n: usize)
        ensures
            n == self.spec_frame_count(),
            n > 0,
    {
        proof {
            use_type_invariant(self);
        }
        self.frames.len()
    }

    fn get_frame(&self, frame_number: usize) -> (f: Vec<String>)
        ensures
            f.deep_view() == self.spec_frame(
                ((frame_number as int) % (self.spec_frame_count() as int)),
            ),
    {
        proof {
            use_type_invariant(self);
        }
        let n = self.frames.len();
        let f = self.frames[frame_number % n].clone();
        proof {
            let idx = (frame_number as int) % (n as int);
            assert(f.deep_view() =~~= self.frames@[idx].deep_view());
        }
        f
    }

    fn frame_delay_ms(&self) -> u64 {
        500
    }
}

/// The little spinner shown while the first weather answer is awaited.
pub struct LoadingState {
    frame: usize,
    loading_chars: [char; 4],
}

impl LoadingState {
    pub closed spec fn wf(&self) -> bool {
        &&& self.frame < 4
        &&& self.loading_chars@ == seq!['|', '/', '-', '\\']
    }

    pub closed spec fn spec_frame(&self) -> usize {
        self.frame
    }

    pub fn new() -> (s: LoadingState)
        ensures
            s.wf(),
            s.spec_frame() == 0,
    {
        let s = LoadingState { frame: 0, loading_chars: ['|', '/', '-', '\\'] };
        proof {
            assert(s.loading_chars@ =~= seq!['|', '/', '-', '\\']);
        }
        s
    }

    /// Whether enough time has passed, in milliseconds, for the spinner to
    /// turn.
    pub fn should_update(&self, elapsed_ms: u64) -> (r: bool)
        ensures
            r == (elapsed_ms >= 100),
    {
        elapsed_ms >= 100
    }

    pub fn next_frame(&mut self)
        requires
            old(self).wf(),
        ensures
            final(self).wf(),
            final(self).spec_frame() == ((old(self).spec_frame() + 1) as int) % 4,
    {
        self.frame = (self.frame + 1) % 4;
    }

    /// The spinner glyph of the current frame.
    pub fn current_char(&self) -> (c: char)
        requires
            self.wf(),
        ensures
            c == seq!['|', '/', '-', '\\'][self.spec_frame() as int],
    {
        self.loading_chars[self.frame]
    }
}

} // verus!
