use vstd::prelude::*;

use crate::color::Color;
use vstd::string::StrSliceExecFns;

verus! {

/// One character cell of the screen: a glyph with a foreground and a
/// background color. The blank cell is a space drawn in the terminal's
/// default colors.
#[derive(Clone, Copy, Debug, PartialEq, Eq, Structural)]
pub struct Cell {
    pub character: char,
    pub fg: Color,
    pub bg: Color,
}

impl Cell {
    /// The blank cell: a space with default colors.
    pub open spec fn blank_spec() -> Cell {
        Cell { character: ' ', fg: Color::Reset, bg: Color::Reset }
    }

    pub fn blank() -> (c: Cell)
        ensures
            c == Cell::blank_spec(),
    {
        Cell { character: ' ', fg: Color::Reset, bg: Color::Reset }
    }
}

/// One drawing operation of the minimal output stream that a flush emits.
/// The caller translates these into the concrete terminal byte sequences.
#[derive(Clone, Copy, Debug, PartialEq, Eq, Structural)]
pub enum DrawOp {
    /// Move the terminal cursor to the given column and row.
    MoveTo { x: u16, y: u16 },
    /// Select the colors for the glyphs that follow.
    SetColors { fg: Color, bg: Color },
    /// Print one glyph at the cursor, advancing it by one column.
    Print { ch: char },
    /// Return to the terminal's default colors.
    ResetColors,
}

/// The draw operations that remain for the linear cell indices `i` and up,
/// given the colors last selected (`lc`) and the position last printed to
/// (`lp`). A cursor move is skipped when the cell printed just before sits
/// immediately to the left on the same row; a color change is emitted only
/// when the cell's colors differ from the last selected pair; a trailing
/// reset is emitted when the scan ends with non-default colors selected.
pub open spec fn flush_ops_from(
    prev: Seq<Cell>,
    cur: Seq<Cell>,
    w: int,
    i: int,
    lc: (Color, Color),
    lp: Option<(u16, u16)>,
) -> Seq<DrawOp>
    decreases cur.len() - i,
{
    if i < 0 || i >= cur.len() {
        if lc != (Color::Reset, Color::Reset) {
            seq![DrawOp::ResetColors]
        } else {
            Seq::empty()
        }
    } else {
        let x = (i % w) as u16;
        let y = (i / w) as u16;
        if i < prev.len() && cur[i] != prev[i] {
            let mv: Seq<DrawOp> = if lp matches Some(p) && p.0 + 1 == x && p.1 == y {
                Seq::empty()
            } else {
                seq![DrawOp::MoveTo { x, y }]
            };
            let cell = cur[i];
            let cs: Seq<DrawOp> = if (cell.fg, cell.bg) != lc {
                seq![DrawOp::SetColors { fg: cell.fg, bg: cell.bg }]
            } else {
                Seq::empty()
            };
            mv + cs + seq![DrawOp::Print { ch: cell.character }] + flush_ops_from(
                prev,
                cur,
                w,
                i + 1,
                (cell.fg, cell.bg),
                Some((x, y)),
            )
        } else {
            flush_ops_from(prev, cur, w, i + 1, lc, lp)
        }
    }
}

/// The complete operation stream of one flush: the diff of `cur` against
/// `prev`, scanned in row-major order on a grid `w` cells wide.
pub open spec fn flush_ops(prev: Seq<Cell>, cur: Seq<Cell>, w: int) -> Seq<DrawOp> {
    flush_ops_from(prev, cur, w, 0, (Color::Reset, Color::Reset), None)
}

proof fn lemma_flush_ops_from_equal(cur: Seq<Cell>, w: int, i: int, lp: Option<(u16, u16)>)
    ensures
        flush_ops_from(cur, cur, w, i, (Color::Reset, Color::Reset), lp) =~= Seq::<
            DrawOp,
        >::empty(),
    decreases cur.len() - i,
{
    if 0 <= i < cur.len() {
        lemma_flush_ops_from_equal(cur, w, i + 1, lp);
    }
}

/// When the two grids hold the same cells, a flush emits no operation at
/// all: a second flush right after a first one draws nothing.
pub proof fn lemma_flush_idempotent(prev: Seq<Cell>, cur: Seq<Cell>, w: int)
    requires
        prev == cur,
    ensures
        flush_ops(prev, cur, w) =~= Seq::<DrawOp>::empty(),
{
    lemma_flush_ops_from_equal(cur, w, 0, None);
}

/// A double-buffered character grid. `current` is the frame being composed;
/// `previous` is what was last emitted to the terminal. A flush walks the
/// two grids and returns the minimal operation stream that brings the
/// terminal from `previous` to `current`.
pub struct ScreenBuffer {
    width: u16,
    height: u16,
    current: Vec<Cell>,
    previous: Vec<Cell>,
}

impl ScreenBuffer {
    /// Both grids hold exactly width * height cells, row-major.
    pub open spec fn wf(&self) -> bool {
        &&& self.cur().len() == (self.spec_width() as int) * (self.spec_height() as int)
        &&& self.prev().len() == (self.spec_width() as int) * (self.spec_height() as int)
    }

    pub closed spec fn spec_width(&self) -> u16 {
        self.width
    }

    pub closed spec fn spec_height(&self) -> u16 {
        self.height
    }

    /// The grid being composed for the coming flush.
    pub closed spec fn cur(&self) -> Seq<Cell> {
        self.current@
    }

    /// The grid as it was last flushed to the terminal.
    pub closed spec fn prev(&self) -> Seq<Cell> {
        self.previous@
    }

    /// The linear index of the cell at column `x`, row `y`.
    pub open spec fn idx(&self, x: int, y: int) -> int {
        y * self.spec_width() as int + x
    }

    pub fn width(&self) -> (w: u16)
        ensures
            w == self.spec_width(),
    {
        self.width
    }

    pub fn height(&self) -> (h: u16)
        ensures
            h == self.spec_height(),
    {
        self.height
    }

    pub fn get_size(&self) -> (size: (u16, u16))
        ensures
            size.0 == self.spec_width(),
            size.1 == self.spec_height(),
    {
        (self.width, self.height)
    }

    fn blank_grid(n: usize) -> (v: Vec<Cell>)
        ensures
            v@.len() == n,
            forall|i: int| 0 <= i < n ==> v@[i] == Cell::blank_spec(),
    {
        let mut v: Vec<Cell> = Vec::new();
        let mut i: usize = 0;
        while i < n
            invariant
                i <= n,
                v@.len() == i,
                forall|j: int| 0 <= j < i ==> v@[j] == Cell::blank_spec(),
            decreases n - i,
        {
            v.push(Cell::blank());
            i = i + 1;
        }
        v
    }

    /// A screen buffer of the given size with both grids blank.
    pub fn new(width: u16, height: u16) -> (s: ScreenBuffer)
        ensures
            s.wf(),
            s.spec_width() == width,
            s.spec_height() == height,
            s.cur().len() == width as int * height as int,
            forall|i: int| 0 <= i < s.cur().len() ==> s.cur()[i] == Cell::blank_spec(),
            forall|i: int| 0 <= i < s.prev().len() ==> s.prev()[i] == Cell::blank_spec(),
    {
        proof {
            assert((width as int) * (height as int) <= 65535 * 65535) by (nonlinear_arith)
                requires
                    width <= 65535,
                    height <= 65535,
            ;
            assert((width as int) * (height as int) >= 0) by (nonlinear_arith)
                requires
                    width >= 0,
                    height >= 0,
            ;
        }
        let n: usize = (width as usize) * (height as usize);
        ScreenBuffer {
            width,
            height,
            current: Self::blank_grid(n),
            previous: Self::blank_grid(n),
        }
    }

    /// Blanks the grid being composed; the last-flushed grid is untouched.
    pub fn clear(&mut self)
        requires
            old(self).wf(),
        ensures
            final(self).wf(),
            final(self).spec_width() == old(self).spec_width(),
            final(self).spec_height() == old(self).spec_height(),
            final(self).prev() == old(self).prev(),
            final(self).cur().len() == old(self).cur().len(),
            forall|i: int|
                0 <= i < final(self).cur().len() ==> final(self).cur()[i] == Cell::blank_spec(),
    {
        let n: usize = self.current.len();
        let mut i: usize = 0;
        while i < n
            invariant
                i <= n,
                self.current@.len() == n,
                self.previous == old(self).previous,
                self.width == old(self).width,
                self.height == old(self).height,
                forall|j: int| 0 <= j < i ==> self.current@[j] == Cell::blank_spec(),
            decreases n - i,
        {
            self.current.set(i, Cell::blank());
            i = i + 1;
        }
    }

    /// Writes a glyph with the given foreground color and a transparent
    /// (default) background. Out-of-bounds coordinates are a silent no-op.
    pub fn set(&mut self, x: u16, y: u16, ch: char, color: Color)
        requires
            old(self).wf(),
        ensures
            final(self).wf(),
            final(self).spec_width() == old(self).spec_width(),
            final(self).spec_height() == old(self).spec_height(),
            final(self).prev() == old(self).prev(),
            x < old(self).spec_width() && y < old(self).spec_height() ==> final(self).cur()
                == old(self).cur().update(
                old(self).idx(x as int, y as int),
                Cell { character: ch, fg: color, bg: Color::Reset },
            ),
            !(x < old(self).spec_width() && y < old(self).spec_height()) ==> *final(self)
                == *old(self),
    {
        self.set_with_bg(x, y, ch, color, Color::Reset)
    }

    /// Writes a glyph with both colors given. Out-of-bounds coordinates are
    /// a silent no-op.
    pub fn set_with_bg(&mut self, x: u16, y: u16, ch: char, fg: Color, bg: Color)
        requires
            old(self).wf(),
        ensures
            final(self).wf(),
            final(self).spec_width() == old(self).spec_width(),
            final(self).spec_height() == old(self).spec_height(),
            final(self).prev() == old(self).prev(),
            x < old(self).spec_width() && y < old(self).spec_height() ==> final(self).cur()
                == old(self).cur().update(
                old(self).idx(x as int, y as int),
                Cell { character: ch, fg, bg },
            ),
            !(x < old(self).spec_width() && y < old(self).spec_height()) ==> *final(self)
                == *old(self),
    {
        if x < self.width && y < self.height {
            proof {
                assert((y as int) * (self.width as int) + (x as int) < (self.width as int)
                    * (self.height as int)) by (nonlinear_arith)
                    requires
                        x < self.width,
                        y < self.height,
                ;
                assert((y as int) * (self.width as int) + (x as int) >= 0) by (nonlinear_arith)
                    requires
                        x >= 0,
                        y >= 0,
                        self.width >= 0,
                ;
                assert((y as int) * (self.width as int) + (x as int) <= 0xffff_0000)
                    by (nonlinear_arith)
                    requires
                        x <= 0xffff,
                        y <= 0xffff,
                        self.width <= 0xffff,
                ;
            }
            let i: usize = (y as usize) * (self.width as usize) + (x as usize);
            self.current.set(i, Cell { character: ch, fg, bg });
        }
    }

    /// Overwrites the foreground color of every composed cell with white,
    /// keeping glyphs and backgrounds: a screen-wide flash.
    pub fn flash(&mut self)
        requires
            old(self).wf(),
        ensures
            final(self).wf(),
            final(self).spec_width() == old(self).spec_width(),
            final(self).spec_height() == old(self).spec_height(),
            final(self).prev() == old(self).prev(),
            final(self).cur().len() == old(self).cur().len(),
            forall|i: int|
                0 <= i < final(self).cur().len() ==> final(self).cur()[i] == (Cell {
                    fg: Color::White,
                    ..old(self).cur()[i]
                }),
    {
        let n: usize = self.current.len();
        let mut i: usize = 0;
        while i < n
            invariant
                i <= n,
                self.current@.len() == n,
                old(self).cur().len() == n,
                self.previous == old(self).previous,
                self.width == old(self).width,
                self.height == old(self).height,
                forall|j: int|
                    0 <= j < i ==> self.current@[j] == (Cell {
                        fg: Color::White,
                        ..old(self).cur()[j]
                    }),
                forall|j: int| i <= j < n ==> self.current@[j] == old(self).cur()[j],
            decreases n - i,
        {
            let c = self.current[i];
            self.current.set(i, Cell { character: c.character, fg: Color::White, bg: c.bg });
            i = i + 1;
        }
    }

    /// Reallocates both grids blank at the new size. Everything counts as
    /// dirty for the next flush of the new geometry.
    pub fn resize(&mut self, width: u16, height: u16)
        ensures
            final(self).wf(),
            final(self).spec_width() == width,
            final(self).spec_height() == height,
            forall|i: int|
                0 <= i < final(self).cur().len() ==> final(self).cur()[i] == Cell::blank_spec(),
            forall|i: int|
                0 <= i < final(self).prev().len() ==> final(self).prev()[i] == Cell::blank_spec(),
    {
        *self = ScreenBuffer::new(width, height);
    }

    /// Emits the minimal draw-operation stream that turns the last-flushed
    /// frame into the composed one, then remembers the composed frame as
    /// flushed. Cells are scanned row-major; runs of changed cells share one
    /// cursor move, repeated colors are not re-selected, and a trailing
    /// reset restores the default colors.
    pub fn flush(&mut self) -> (ops: Vec<DrawOp>)
        requires
            old(self).wf(),
        ensures
            final(self).wf(),
            final(self).spec_width() == old(self).spec_width(),
            final(self).spec_height() == old(self).spec_height(),
            final(self).cur() == old(self).cur(),
            final(self).prev() == old(self).cur(),
            ops@ == flush_ops(old(self).prev(), old(self).cur(), old(self).spec_width() as int),
    {
        let mut ops: Vec<DrawOp> = Vec::new();
        let n: usize = self.current.len();
        let w: usize = self.width as usize;
        let mut last_fg: Color = Color::Reset;
        let mut last_bg: Color = Color::Reset;
        let mut last_pos: Option<(u16, u16)> = None;
        let mut i: usize = 0;
        while i < n
            invariant
                i <= n,
                self == old(self),
                self.current@.len() == n,
                self.previous@.len() == n,
                w == self.width as int,
                n == self.width as int * self.height as int,
                flush_ops(self.previous@, self.current@, w as int) == ops@ + flush_ops_from(
                    self.previous@,
                    self.current@,
                    w as int,
                    i as int,
                    (last_fg, last_bg),
                    last_pos,
                ),
                last_pos matches Some(p) ==> p.0 < w,
            decreases n - i,
        {
            proof {
                assert(n > 0 ==> w > 0) by (nonlinear_arith)
                    requires
                        n == (self.width as int) * (self.height as int),
                        w == self.width as int,
                        self.width >= 0,
                        self.height >= 0,
                ;
            }
            let x: u16 = (i % w) as u16;
            let y: u16 = (i / w) as u16;
            proof {
                assert((i as int % w as int) < (w as int) && (i as int % w as int) >= 0)
                    by (nonlinear_arith)
                    requires
                        w as int > 0,
                ;
                assert(i as int / w as int <= 65535) by (nonlinear_arith)
                    requires
                        w as int > 0,
                        (i as int) < (w as int) * (self.height as int),
                        self.height <= 65535,
                ;
            }
            let cell = self.current[i];
            let last_cell = self.previous[i];
            if cell != last_cell {
                let adjacent: bool = match last_pos {
                    Some((lx, ly)) => lx + 1 == x && ly == y,
                    None => false,
                };
                if !adjacent {
                    ops.push(DrawOp::MoveTo { x, y });
                }
                if !(cell.fg == last_fg && cell.bg == last_bg) {
                    ops.push(DrawOp::SetColors { fg: cell.fg, bg: cell.bg });
                    last_fg = cell.fg;
                    last_bg = cell.bg;
                }
                ops.push(DrawOp::Print { ch: cell.character });
                last_pos = Some((x, y));
            }
            i = i + 1;
        }
        if !(last_fg == Color::Reset && last_bg == Color::Reset) {
            ops.push(DrawOp::ResetColors);
        }
        let mut j: usize = 0;
        while j < n
            invariant
                j <= n,
                self.current@.len() == n,
                self.previous@.len() == n,
                self.current == old(self).current,
                self.width == old(self).width,
                self.height == old(self).height,
                forall|k: int| 0 <= k < j ==> self.previous@[k] == self.current@[k],
            decreases n - j,
        {
            let c = self.current[j];
            self.previous.set(j, c);
            j = j + 1;
        }
        proof {
            assert(self.previous@ =~= self.current@);
        }
        ops
    }
}


/// Row-major indexing is injective and stays inside the grid.
pub proof fn lemma_rowmajor(w: int, h: int, x1: int, y1: int, x2: int, y2: int)
    by (nonlinear_arith)
    requires
        w > 0,
        0 <= x1 < w,
        0 <= y1 < h,
        0 <= x2 < w,
        0 <= y2 < h,
    ensures
        0 <= y1 * w + x1 < w * h,
        0 <= y2 * w + x2 < w * h,
        (y1 * w + x1 == y2 * w + x2) ==> (x1 == x2 && y1 == y2),
{
}

/// The length of the longest line.
pub open spec fn max_line_len(ls: Seq<Seq<char>>) -> int
    decreases ls.len(),
{
    if ls.len() == 0 {
        0
    } else {
        let m = max_line_len(ls.drop_last());
        if ls.last().len() > m {
            ls.last().len() as int
        } else {
            m
        }
    }
}

/// The column where a centered block of lines starts on a grid `w` wide.
pub open spec fn centered_col(w: int, ls: Seq<Seq<char>>) -> int {
    if w > max_line_len(ls) {
        (w - max_line_len(ls)) / 2
    } else {
        0
    }
}

/// The cell at (bx, by) once the text `s` has been laid over `cur0` from
/// (x, y) rightwards: a glyph of the text where it covers the position,
/// the old cell everywhere else.
pub open spec fn written_line_cell(
    cur0: Seq<Cell>,
    w: int,
    x: int,
    y: int,
    s: Seq<char>,
    color: Color,
    bx: int,
    by: int,
) -> Cell {
    if by == y && x <= bx < x + s.len() {
        Cell { character: s[bx - x], fg: color, bg: Color::Reset }
    } else {
        cur0[by * w + bx]
    }
}

/// The cell at (bx, by) once the block of lines `ls` has been laid over
/// `cur0` starting at (x, y), one line per row.
pub open spec fn written_block_cell(
    cur0: Seq<Cell>,
    w: int,
    x: int,
    y: int,
    ls: Seq<Seq<char>>,
    color: Color,
    bx: int,
    by: int,
) -> Cell {
    if 0 <= by - y < ls.len() && x <= bx < x + ls[by - y].len() {
        Cell { character: ls[by - y][bx - x], fg: color, bg: Color::Reset }
    } else {
        cur0[by * w + bx]
    }
}

impl ScreenBuffer {
    /// Writes a run of text left to right from (x, y) with the given
    /// foreground; what falls outside the grid is dropped.
    pub fn render_line_colored(&mut self, x: u16, y: u16, text: &str, color: Color)
        requires
            old(self).wf(),
        ensures
            final(self).wf(),
            final(self).spec_width() == old(self).spec_width(),
            final(self).spec_height() == old(self).spec_height(),
            final(self).prev() == old(self).prev(),
            final(self).cur().len() == old(self).cur().len(),
            forall|bx: int, by: int|
                0 <= bx < final(self).spec_width() && 0 <= by < final(self).spec_height()
                    ==> final(self).cur()[by * final(self).spec_width() + bx] == written_line_cell(
                    old(self).cur(),
                    final(self).spec_width() as int,
                    x as int,
                    y as int,
                    text@,
                    color,
                    bx,
                    by,
                ),
    {
        let ghost cur0 = old(self).cur();
        let ghost bw = old(self).spec_width() as int;
        let ghost bh = old(self).spec_height() as int;
        let n: usize = text.unicode_len();
        let mut i: usize = 0;
        proof {
            assert(text@.take(0) =~= Seq::<char>::empty());
        }
        while i < n
            invariant
                i <= n,
                n == text@.len(),
                self.wf(),
                self.spec_width() == old(self).spec_width(),
                self.spec_height() == old(self).spec_height(),
                self.prev() == old(self).prev(),
                cur0 == old(self).cur(),
                self.cur().len() == cur0.len(),
                bw == self.spec_width() as int,
                bh == self.spec_height() as int,
                forall|bx: int, by: int|
                    0 <= bx < bw && 0 <= by < bh ==> self.cur()[by * bw + bx] == written_line_cell(
                        cur0,
                        bw,
                        x as int,
                        y as int,
                        text@.take(i as int),
                        color,
                        bx,
                        by,
                    ),
            decreases n - i,
        {
            let ghost curp = self.cur();
            let ghost col = x as int + i as int;
            let ch = text.get_char(i);
            if i < 0x10000 && (x as u32 + i as u32) < self.width as u32 {
                self.set((x as u32 + i as u32) as u16, y, ch, color);
            }
            proof {
                let ghost tn = text@.take(i as int + 1);
                let ghost tp = text@.take(i as int);
                assert(tn.len() == i + 1 && tp.len() == i as int);
                assert(tn[i as int] == text@[i as int]);
                assert forall|bx: int, by: int|
                    0 <= bx < bw && 0 <= by < bh implies self.cur()[by * bw + bx]
                    == written_line_cell(cur0, bw, x as int, y as int, tn, color, bx, by) by {
                    if col < bw && (y as int) < bh {
                        lemma_rowmajor(bw, bh, bx, by, col, y as int);
                    }
                    assert(curp[by * bw + bx] == written_line_cell(
                        cur0,
                        bw,
                        x as int,
                        y as int,
                        tp,
                        color,
                        bx,
                        by,
                    ));
                    if by == y as int && x as int <= bx < x as int + tn.len() {
                        assert(tn[bx - x as int] == text@[bx - x as int]);
                        if bx < x as int + tp.len() {
                            assert(tp[bx - x as int] == text@[bx - x as int]);
                        }
                    }
                }
            }
            i = i + 1;
        }
        proof {
            assert(text@.take(n as int) =~= text@);
        }
    }

    fn max_len_of(lines: &Vec<String>) -> (m: usize)
        ensures
            m == max_line_len(lines.deep_view()),
    {
        let n: usize = lines.len();
        let mut m: usize = 0;
        let mut i: usize = 0;
        proof {
            assert(lines.deep_view().take(0) =~= Seq::<Seq<char>>::empty());
        }
        while i < n
            invariant
                i <= n,
                n == lines@.len(),
                lines.deep_view().len() == n,
                m == max_line_len(lines.deep_view().take(i as int)),
            decreases n - i,
        {
            let l: usize = lines[i].as_str().unicode_len();
            proof {
                assert(lines.deep_view().take(i as int + 1).drop_last() =~= lines.deep_view().take(
                    i as int,
                ));
                assert(lines.deep_view().take(i as int + 1).last() == lines.deep_view()[i as int]);
                assert(lines.deep_view()[i as int] == lines@[i as int]@);
            }
            if l > m {
                m = l;
            }
            i = i + 1;
        }
        proof {
            assert(lines.deep_view().take(n as int) =~= lines.deep_view());
        }
        m
    }

    /// Writes a block of lines horizontally centered, starting at the
    /// given row, all in one color; what falls outside the grid is
    /// dropped.
    pub fn render_centered_colored(&mut self, lines: &Vec<String>, start_row: u16, color: Color)
        requires
            old(self).wf(),
        ensures
            final(self).wf(),
            final(self).spec_width() == old(self).spec_width(),
            final(self).spec_height() == old(self).spec_height(),
            final(self).prev() == old(self).prev(),
            final(self).cur().len() == old(self).cur().len(),
            forall|bx: int, by: int|
                0 <= bx < final(self).spec_width() && 0 <= by < final(self).spec_height()
                    ==> final(self).cur()[by * final(self).spec_width() + bx] == written_block_cell(
                    old(self).cur(),
                    final(self).spec_width() as int,
                    centered_col(final(self).spec_width() as int, lines.deep_view()),
                    start_row as int,
                    lines.deep_view(),
                    color,
                    bx,
                    by,
                ),
    {
        let ghost cur0 = old(self).cur();
        let ghost bw = old(self).spec_width() as int;
        let ghost bh = old(self).spec_height() as int;
        let ghost ls = lines.deep_view();
        let max_width: usize = Self::max_len_of(lines);
        let start_col: usize = if (self.width as usize) > max_width {
            ((self.width as usize) - max_width) / 2
        } else {
            0
        };
        proof {
            assert(start_col as int == centered_col(bw, ls));
        }
        let n: usize = lines.len();
        let mut i: usize = 0;
        proof {
            assert(ls.take(0) =~= Seq::<Seq<char>>::empty());
        }
        while i < n
            invariant
                i <= n,
                n == lines@.len(),
                ls == lines.deep_view(),
                ls.len() == n,
                self.wf(),
                self.spec_width() == old(self).spec_width(),
                self.spec_height() == old(self).spec_height(),
                self.prev() == old(self).prev(),
                cur0 == old(self).cur(),
                self.cur().len() == cur0.len(),
                bw == self.spec_width() as int,
                bh == self.spec_height() as int,
                start_col as int == centered_col(bw, ls),
                forall|bx: int, by: int|
                    0 <= bx < bw && 0 <= by < bh ==> self.cur()[by * bw + bx] == written_block_cell(
                        cur0,
                        bw,
                        start_col as int,
                        start_row as int,
                        ls.take(i as int),
                        color,
                        bx,
                        by,
                    ),
            decreases n - i,
        {
            let ghost curp = self.cur();
            if i < 0x10000 && (start_row as u32 + i as u32) < self.height as u32 {
                self.render_line_colored(
                    start_col as u16,
                    (start_row as u32 + i as u32) as u16,
                    lines[i].as_str(),
                    color,
                );
            }
            proof {
                let ghost lsn = ls.take(i as int + 1);
                let ghost lsp = ls.take(i as int);
                assert(lsn.len() == i + 1 && lsp.len() == i as int);
                assert(lsn[i as int] == ls[i as int]);
                assert(ls[i as int] == lines@[i as int]@);
                assert forall|bx: int, by: int|
                    0 <= bx < bw && 0 <= by < bh implies self.cur()[by * bw + bx]
                    == written_block_cell(
                    cur0,
                    bw,
                    start_col as int,
                    start_row as int,
                    lsn,
                    color,
                    bx,
                    by,
                ) by {
                    if i < 0x10000 && start_row as int + i < bh {
                        assert(self.cur()[by * bw + bx] == written_line_cell(
                            curp,
                            bw,
                            start_col as int,
                            start_row as int + i as int,
                            lines@[i as int]@,
                            color,
                            bx,
                            by,
                        ));
                    }
                    assert(curp[by * bw + bx] == written_block_cell(
                        cur0,
                        bw,
                        start_col as int,
                        start_row as int,
                        lsp,
                        color,
                        bx,
                        by,
                    ));
                    if 0 <= by - start_row < lsn.len() {
                        assert(lsn[by - start_row] == ls[by - start_row]);
                        if by - start_row < lsp.len() {
                            assert(lsp[by - start_row] == ls[by - start_row]);
                        }
                    }
                }
            }
            i = i + 1;
        }
        proof {
            assert(ls.take(n as int) =~= ls);
        }
    }
}

} // verus!
