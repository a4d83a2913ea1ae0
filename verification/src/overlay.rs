use vstd::prelude::*;

use crate::color::Color;
use crate::screen::{lemma_rowmajor, Cell, ScreenBuffer};
use crate::vt::{tok_step, tok_wf, TokView, Tokenizer, VtEvent, VtEventS};

verus! {

/// The spec-level picture of the interpreter: the glyph grid, the cursor,
/// the pending colors, the saved cursor slot and the visibility flag.
pub struct OverlayView {
    pub grid: Seq<Seq<Cell>>,
    pub cursor_x: int,
    pub cursor_y: int,
    pub visible: bool,
    pub width: int,
    pub height: int,
    pub fg: Color,
    pub bg: Color,
    pub saved_x: int,
    pub saved_y: int,
}

/// A row of blank cells.
pub open spec fn blank_row(w: int) -> Seq<Cell> {
    Seq::new(w as nat, |i: int| Cell::blank_spec())
}

/// The grid is exactly height rows of width cells and the cursor and the
/// saved slot sit inside it.
pub open spec fn view_wf(v: OverlayView) -> bool {
    &&& 0 < v.width <= 0xffff
    &&& 0 < v.height <= 0xffff
    &&& v.grid.len() == v.height
    &&& forall|y: int| 0 <= y < v.height ==> (#[trigger] v.grid[y]).len() == v.width
    &&& 0 <= v.cursor_x < v.width
    &&& 0 <= v.cursor_y < v.height
    &&& 0 <= v.saved_x < v.width
    &&& 0 <= v.saved_y < v.height
}

/// The fresh state at the given size: blank grid, cursor homed, cursor
/// shown, default colors.
pub open spec fn fresh_view(w: int, h: int) -> OverlayView {
    OverlayView {
        grid: Seq::new(h as nat, |y: int| blank_row(w)),
        cursor_x: 0,
        cursor_y: 0,
        visible: true,
        width: w,
        height: h,
        fg: Color::Reset,
        bg: Color::Reset,
        saved_x: 0,
        saved_y: 0,
    }
}

/// One line scrolled off the top: row 0 is dropped and a blank row is
/// appended at the bottom; the grid keeps its size.
pub open spec fn scrolled(v: OverlayView) -> OverlayView {
    OverlayView { grid: v.grid.drop_first().push(blank_row(v.width)), ..v }
}

/// The cursor moves down one row, scrolling when it was already on the
/// last row.
pub open spec fn line_feed(v: OverlayView) -> OverlayView {
    if v.cursor_y + 1 < v.height {
        OverlayView { cursor_y: v.cursor_y + 1, ..v }
    } else {
        OverlayView { cursor_y: v.height - 1, ..scrolled(v) }
    }
}

/// A glyph is written with the pending colors at the cursor, which then
/// advances, wrapping to the next row and scrolling at the bottom.
pub open spec fn apply_print(v: OverlayView, c: char) -> OverlayView {
    let w = if 0 <= v.cursor_y < v.grid.len() && 0 <= v.cursor_x < v.grid[v.cursor_y].len() {
        OverlayView {
            grid: v.grid.update(
                v.cursor_y,
                v.grid[v.cursor_y].update(
                    v.cursor_x,
                    Cell { character: c, fg: v.fg, bg: v.bg },
                ),
            ),
            ..v
        }
    } else {
        v
    };
    if w.cursor_x + 1 < w.width {
        OverlayView { cursor_x: w.cursor_x + 1, ..w }
    } else {
        OverlayView { cursor_x: 0, ..line_feed(w) }
    }
}

/// The cursor jumps to the next multiple of eight columns, wrapping and
/// scrolling like a printed glyph when that lies beyond the last column.
pub open spec fn tab_stop(v: OverlayView) -> OverlayView {
    let t = (v.cursor_x / 8 + 1) * 8;
    if t < v.width {
        OverlayView { cursor_x: t, ..v }
    } else {
        OverlayView { cursor_x: 0, ..line_feed(v) }
    }
}

/// Every cell blanked.
pub open spec fn cleared_grid(v: OverlayView) -> Seq<Seq<Cell>> {
    Seq::new(v.grid.len(), |y: int| blank_row(v.width))
}

/// The row blanked from column `x` (inclusive) rightwards.
pub open spec fn erase_row_from(row: Seq<Cell>, x: int) -> Seq<Cell> {
    Seq::new(row.len(), |i: int| if i >= x { Cell::blank_spec() } else { row[i] })
}

/// Everything from the cursor to the end of the screen blanked: the rest
/// of the cursor's row, and every row below it.
pub open spec fn clear_to_end(v: OverlayView) -> OverlayView {
    OverlayView {
        grid: Seq::new(
            v.grid.len(),
            |y: int|
                if y < v.cursor_y {
                    v.grid[y]
                } else if y == v.cursor_y {
                    erase_row_from(v.grid[y], v.cursor_x)
                } else {
                    blank_row(v.width)
                },
        ),
        ..v
    }
}

/// The cursor's row blanked from the cursor rightwards.
pub open spec fn clear_line_to_end(v: OverlayView) -> OverlayView {
    OverlayView {
        grid: v.grid.update(v.cursor_y, erase_row_from(v.grid[v.cursor_y], v.cursor_x)),
        ..v
    }
}

/// The cursor's whole row blanked.
pub open spec fn clear_line(v: OverlayView) -> OverlayView {
    OverlayView { grid: v.grid.update(v.cursor_y, blank_row(v.width)), ..v }
}

/// A control byte: backspace steps left without wrapping, tab advances to
/// the next tab stop, line feed moves down (scrolling at the bottom),
/// carriage return homes the column, form feed clears the screen and homes
/// the cursor; everything else is ignored.
pub open spec fn apply_control(v: OverlayView, b: u8) -> OverlayView {
    if b == 0x08 {
        OverlayView {
            cursor_x: if v.cursor_x > 0 {
                v.cursor_x - 1
            } else {
                0
            },
            ..v
        }
    } else if b == 0x09 {
        tab_stop(v)
    } else if b == 0x0a {
        line_feed(v)
    } else if b == 0x0c {
        OverlayView { grid: cleared_grid(v), cursor_x: 0, cursor_y: 0, ..v }
    } else if b == 0x0d {
        OverlayView { cursor_x: 0, ..v }
    } else {
        v
    }
}

/// The low byte of a parameter, as used by the indexed and true-color
/// selections.
pub open spec fn low8(p: u16) -> u8 {
    (p & 0xff) as u8
}

/// The colors selected after walking the parameter list of a select-
/// graphic-rendition sequence from index `i`: 0 resets both, 30-37 and
/// 90-97 pick a named foreground, 40-47 a named background, 39 and 49
/// reset one side, 38 and 48 take an indexed (5;N) or true-color
/// (2;R;G;B) selection, and unknown codes are ignored. A selection cut
/// short by the end of the list stops the walk.
pub open spec fn sgr_colors(fg: Color, bg: Color, ps: Seq<u16>, i: int) -> (Color, Color)
    decreases ps.len() - i,
{
    if i < 0 || i >= ps.len() {
        (fg, bg)
    } else {
        let p = ps[i];
        if p == 0 {
            sgr_colors(Color::Reset, Color::Reset, ps, i + 1)
        } else if p == 30 {
            sgr_colors(Color::Black, bg, ps, i + 1)
        } else if p == 31 {
            sgr_colors(Color::Red, bg, ps, i + 1)
        } else if p == 32 {
            sgr_colors(Color::Green, bg, ps, i + 1)
        } else if p == 33 {
            sgr_colors(Color::Yellow, bg, ps, i + 1)
        } else if p == 34 {
            sgr_colors(Color::Blue, bg, ps, i + 1)
        } else if p == 35 {
            sgr_colors(Color::Magenta, bg, ps, i + 1)
        } else if p == 36 {
            sgr_colors(Color::Cyan, bg, ps, i + 1)
        } else if p == 37 {
            sgr_colors(Color::White, bg, ps, i + 1)
        } else if p == 39 {
            sgr_colors(Color::Reset, bg, ps, i + 1)
        } else if p == 40 {
            sgr_colors(fg, Color::Black, ps, i + 1)
        } else if p == 41 {
            sgr_colors(fg, Color::Red, ps, i + 1)
        } else if p == 42 {
            sgr_colors(fg, Color::Green, ps, i + 1)
        } else if p == 43 {
            sgr_colors(fg, Color::Yellow, ps, i + 1)
        } else if p == 44 {
            sgr_colors(fg, Color::Blue, ps, i + 1)
        } else if p == 45 {
            sgr_colors(fg, Color::Magenta, ps, i + 1)
        } else if p == 46 {
            sgr_colors(fg, Color::Cyan, ps, i + 1)
        } else if p == 47 {
            sgr_colors(fg, Color::White, ps, i + 1)
        } else if p == 49 {
            sgr_colors(fg, Color::Reset, ps, i + 1)
        } else if p == 90 {
            sgr_colors(Color::DarkGrey, bg, ps, i + 1)
        } else if p == 91 {
            sgr_colors(Color::Red, bg, ps, i + 1)
        } else if p == 92 {
            sgr_colors(Color::Green, bg, ps, i + 1)
        } else if p == 93 {
            sgr_colors(Color::Yellow, bg, ps, i + 1)
        } else if p == 94 {
            sgr_colors(Color::Blue, bg, ps, i + 1)
        } else if p == 95 {
            sgr_colors(Color::Magenta, bg, ps, i + 1)
        } else if p == 96 {
            sgr_colors(Color::Cyan, bg, ps, i + 1)
        } else if p == 97 {
            sgr_colors(Color::White, bg, ps, i + 1)
        } else if p == 38 {
            if i + 1 >= ps.len() {
                (fg, bg)
            } else if ps[i + 1] == 5 {
                if i + 2 >= ps.len() {
                    (fg, bg)
                } else {
                    sgr_colors(Color::AnsiValue(low8(ps[i + 2])), bg, ps, i + 3)
                }
            } else if ps[i + 1] == 2 {
                if i + 4 >= ps.len() {
                    (fg, bg)
                } else {
                    sgr_colors(
                        Color::Rgb { r: low8(ps[i + 2]), g: low8(ps[i + 3]), b: low8(ps[i + 4]) },
                        bg,
                        ps,
                        i + 5,
                    )
                }
            } else {
                sgr_colors(fg, bg, ps, i + 2)
            }
        } else if p == 48 {
            if i + 1 >= ps.len() {
                (fg, bg)
            } else if ps[i + 1] == 5 {
                if i + 2 >= ps.len() {
                    (fg, bg)
                } else {
                    sgr_colors(fg, Color::AnsiValue(low8(ps[i + 2])), ps, i + 3)
                }
            } else if ps[i + 1] == 2 {
                if i + 4 >= ps.len() {
                    (fg, bg)
                } else {
                    sgr_colors(
                        fg,
                        Color::Rgb { r: low8(ps[i + 2]), g: low8(ps[i + 3]), b: low8(ps[i + 4]) },
                        ps,
                        i + 5,
                    )
                }
            } else {
                sgr_colors(fg, bg, ps, i + 2)
            }
        } else {
            sgr_colors(fg, bg, ps, i + 1)
        }
    }
}

/// The parameter at position `i`, or the default `d` when the list is
/// shorter.
pub open spec fn param_or(ps: Seq<u16>, i: int, d: u16) -> u16 {
    if 0 <= i < ps.len() {
        ps[i]
    } else {
        d
    }
}

/// A complete control sequence applied to the state. Cursor positioning is
/// one-indexed with default 1 and clamps to the grid; relative moves clamp
/// and never scroll; erase in display supports cursor-to-end and whole
/// screen, erase in line cursor-to-end and whole line; `m` selects colors;
/// `h`/`l` with parameter 25 show or hide the cursor; `s`/`u` save and
/// restore the one cursor slot; anything else is ignored.
pub open spec fn apply_csi(v: OverlayView, ps: Seq<u16>, a: char) -> OverlayView {
    if a == 'H' || a == 'f' {
        let row = param_or(ps, 0, 1) as int;
        let col = param_or(ps, 1, 1) as int;
        let r0 = if row > 0 {
            row - 1
        } else {
            0
        };
        let c0 = if col > 0 {
            col - 1
        } else {
            0
        };
        OverlayView {
            cursor_y: if r0 < v.height - 1 {
                r0
            } else {
                v.height - 1
            },
            cursor_x: if c0 < v.width - 1 {
                c0
            } else {
                v.width - 1
            },
            ..v
        }
    } else if a == 'A' {
        let n = param_or(ps, 0, 1) as int;
        OverlayView {
            cursor_y: if v.cursor_y - n > 0 {
                v.cursor_y - n
            } else {
                0
            },
            ..v
        }
    } else if a == 'B' {
        let n = param_or(ps, 0, 1) as int;
        OverlayView {
            cursor_y: if v.cursor_y + n < v.height - 1 {
                v.cursor_y + n
            } else {
                v.height - 1
            },
            ..v
        }
    } else if a == 'C' {
        let n = param_or(ps, 0, 1) as int;
        OverlayView {
            cursor_x: if v.cursor_x + n < v.width - 1 {
                v.cursor_x + n
            } else {
                v.width - 1
            },
            ..v
        }
    } else if a == 'D' {
        let n = param_or(ps, 0, 1) as int;
        OverlayView {
            cursor_x: if v.cursor_x - n > 0 {
                v.cursor_x - n
            } else {
                0
            },
            ..v
        }
    } else if a == 'J' {
        let m = param_or(ps, 0, 0);
        if m == 0 {
            clear_to_end(v)
        } else if m == 2 || m == 3 {
            OverlayView { grid: cleared_grid(v), cursor_x: 0, cursor_y: 0, ..v }
        } else {
            v
        }
    } else if a == 'K' {
        let m = param_or(ps, 0, 0);
        if m == 0 {
            clear_line_to_end(v)
        } else if m == 2 {
            clear_line(v)
        } else {
            v
        }
    } else if a == 'm' {
        let c = sgr_colors(v.fg, v.bg, ps, 0);
        OverlayView { fg: c.0, bg: c.1, ..v }
    } else if a == 'h' {
        if ps.len() > 0 && ps[0] == 25 {
            OverlayView { visible: true, ..v }
        } else {
            v
        }
    } else if a == 'l' {
        if ps.len() > 0 && ps[0] == 25 {
            OverlayView { visible: false, ..v }
        } else {
            v
        }
    } else if a == 's' {
        OverlayView { saved_x: v.cursor_x, saved_y: v.cursor_y, ..v }
    } else if a == 'u' {
        OverlayView { cursor_x: v.saved_x, cursor_y: v.saved_y, ..v }
    } else {
        v
    }
}

/// One recognized event applied to the state.
pub open spec fn apply_event_spec(v: OverlayView, e: VtEventS) -> OverlayView {
    match e {
        VtEventS::Print(c) => apply_print(v, c),
        VtEventS::Control(b) => apply_control(v, b),
        VtEventS::Csi { params, action } => apply_csi(v, params, action),
    }
}

/// A whole byte chunk run through the tokenizer and the state machine.
pub open spec fn vt_process(v: OverlayView, t: TokView, bytes: Seq<u8>) -> (OverlayView, TokView)
    decreases bytes.len(),
{
    if bytes.len() == 0 {
        (v, t)
    } else {
        let s = tok_step(t, bytes[0]);
        let v2 = match s.1 {
            None => v,
            Some(e) => apply_event_spec(v, e),
        };
        vt_process(v2, s.0, bytes.drop_first())
    }
}

proof fn lemma_line_feed_wf(v: OverlayView)
    requires
        view_wf(v),
    ensures
        view_wf(line_feed(v)),
        line_feed(v).width == v.width,
        line_feed(v).height == v.height,
{
}

/// Every event keeps the state well formed and never changes the grid's
/// geometry.
pub proof fn lemma_apply_event_wf(v: OverlayView, e: VtEventS)
    requires
        view_wf(v),
    ensures
        view_wf(apply_event_spec(v, e)),
        apply_event_spec(v, e).width == v.width,
        apply_event_spec(v, e).height == v.height,
{
    match e {
        VtEventS::Print(c) => {
            lemma_line_feed_wf(v);
        },
        VtEventS::Control(b) => {
            lemma_line_feed_wf(v);
        },
        VtEventS::Csi { params, action } => {
        },
    }
}

/// Processing any byte chunk keeps the state well formed and the geometry
/// fixed.
pub proof fn lemma_vt_process_wf(v: OverlayView, t: TokView, bytes: Seq<u8>)
    requires
        view_wf(v),
    ensures
        view_wf(vt_process(v, t, bytes).0),
        vt_process(v, t, bytes).0.width == v.width,
        vt_process(v, t, bytes).0.height == v.height,
    decreases bytes.len(),
{
    if bytes.len() > 0 {
        let s = tok_step(t, bytes[0]);
        match s.1 {
            None => {
                lemma_vt_process_wf(v, s.0, bytes.drop_first());
            },
            Some(e) => {
                lemma_apply_event_wf(v, e);
                lemma_vt_process_wf(apply_event_spec(v, e), s.0, bytes.drop_first());
            },
        }
    }
}

/// Line discipline at the bottom row: a line feed there drops the top row,
/// keeps every other row one place higher, appends a blank bottom row, and
/// never changes the grid's size.
pub proof fn lemma_scroll_discipline(v: OverlayView)
    requires
        view_wf(v),
        v.cursor_y == v.height - 1,
    ensures
        line_feed(v).grid.len() == v.grid.len(),
        forall|y: int| 0 <= y < v.height - 1 ==> line_feed(v).grid[y] == v.grid[y + 1],
        line_feed(v).grid[v.height - 1] == blank_row(v.width),
        line_feed(v).cursor_y == v.height - 1,
        line_feed(v).cursor_x == v.cursor_x,
{
}

/// Erasing the whole display and then homing the cursor blanks every
/// cell and puts the cursor at the origin, whatever came before.
pub proof fn lemma_clear_then_home(v: OverlayView)
    requires
        view_wf(v),
    ensures
        ({
            let after = apply_csi(apply_csi(v, seq![2u16], 'J'), Seq::empty(), 'H');
            &&& after.cursor_x == 0
            &&& after.cursor_y == 0
            &&& after.grid.len() == v.grid.len()
            &&& forall|y: int, x: int|
                0 <= y < v.height && 0 <= x < v.width ==> #[trigger] after.grid[y][x]
                    == Cell::blank_spec()
        }),
{
}

/// A carriage return followed by a line feed homes the column and moves to
/// the next row, scrolling only at the bottom of the grid.
pub proof fn lemma_crlf(v: OverlayView)
    requires
        view_wf(v),
    ensures
        apply_control(apply_control(v, 0x0d), 0x0a).cursor_x == 0,
        v.cursor_y + 1 < v.height ==> apply_control(apply_control(v, 0x0d), 0x0a) == (OverlayView {
            cursor_x: 0,
            cursor_y: v.cursor_y + 1,
            ..v
        }),
        v.cursor_y + 1 == v.height ==> apply_control(apply_control(v, 0x0d), 0x0a).cursor_y
            == v.height - 1 && apply_control(apply_control(v, 0x0d), 0x0a).grid
            == v.grid.drop_first().push(blank_row(v.width)),
{
}


/// The state the interpreter is reset to on a resize: a blank grid of the
/// new size with the cursor and the saved slot homed; the pending colors
/// and the visibility flag survive.
pub open spec fn resized_view(v: OverlayView, w: int, h: int) -> OverlayView {
    OverlayView {
        grid: Seq::new(h as nat, |y: int| blank_row(w)),
        cursor_x: 0,
        cursor_y: 0,
        saved_x: 0,
        saved_y: 0,
        width: w,
        height: h,
        fg: v.fg,
        bg: v.bg,
        visible: v.visible,
    }
}

/// A cell of the overlay that hides what lies beneath it: either it shows
/// a glyph, or it paints an explicit background.
pub open spec fn is_opaque(c: Cell) -> bool {
    c.character != ' ' || c.bg != Color::Reset
}

/// What the screen buffer's cell at (bx, by) holds once the overlay rows
/// below `y`, and the columns of row `y` left of `x`, have been composed.
pub open spec fn composed_upto(
    cur0: Seq<Cell>,
    v: OverlayView,
    bw: int,
    y: int,
    x: int,
    bx: int,
    by: int,
) -> Cell {
    if 0 <= bx < v.width && 0 <= by < v.height && (by < y || (by == y && bx < x)) && is_opaque(
        v.grid[by][bx],
    ) {
        v.grid[by][bx]
    } else {
        cur0[by * bw + bx]
    }
}

/// What the screen buffer's cell at (bx, by) holds once the whole overlay
/// has been composed onto it: the overlay's cell where it is opaque and
/// covers the position, the buffer's own cell everywhere else.
pub open spec fn composed_cell(cur0: Seq<Cell>, v: OverlayView, bw: int, bx: int, by: int) -> Cell {
    if 0 <= bx < v.width && 0 <= by < v.height && is_opaque(v.grid[by][bx]) {
        v.grid[by][bx]
    } else {
        cur0[by * bw + bx]
    }
}



/// The escape-sequence interpreter: it consumes the raw output bytes of
/// the hosted shell and maintains the glyph grid, cursor and colors that
/// the byte stream describes. Malformed input is absorbed silently; the
/// interpreter never fails.
pub struct ShellOverlay {
    cells: Vec<Vec<Cell>>,
    cursor_x: u16,
    cursor_y: u16,
    cursor_visible: bool,
    width: u16,
    height: u16,
    current_fg: Color,
    current_bg: Color,
    saved_x: u16,
    saved_y: u16,
    tok: Tokenizer,
}

impl ShellOverlay {
    /// The interpreter state as the spec transitions see it.
    pub closed spec fn view_state(&self) -> OverlayView {
        OverlayView {
            grid: self.cells@.map_values(|r: Vec<Cell>| r@),
            cursor_x: self.cursor_x as int,
            cursor_y: self.cursor_y as int,
            visible: self.cursor_visible,
            width: self.width as int,
            height: self.height as int,
            fg: self.current_fg,
            bg: self.current_bg,
            saved_x: self.saved_x as int,
            saved_y: self.saved_y as int,
        }
    }

    pub closed spec fn tok_view(&self) -> TokView {
        self.tok@
    }

    pub open spec fn wf(&self) -> bool {
        view_wf(self.view_state()) && tok_wf(self.tok_view())
    }

    fn blank_row_vec(w: u16) -> (r: Vec<Cell>)
        ensures
            r@ == blank_row(w as int),
    {
        let mut r: Vec<Cell> = Vec::new();
        let mut i: usize = 0;
        while i < w as usize
            invariant
                i <= w as usize,
                r@.len() == i,
                forall|j: int| 0 <= j < i ==> r@[j] == Cell::blank_spec(),
            decreases w as usize - i,
        {
            r.push(Cell::blank());
            i = i + 1;
        }
        proof {
            assert(r@ =~= blank_row(w as int));
        }
        r
    }

    fn blank_cells(width: u16, height: u16) -> (cells: Vec<Vec<Cell>>)
        ensures
            cells@.map_values(|r: Vec<Cell>| r@) =~~= Seq::new(
                height as nat,
                |y: int| blank_row(width as int),
            ),
    {
        let mut cells: Vec<Vec<Cell>> = Vec::new();
        let mut y: usize = 0;
        while y < height as usize
            invariant
                y <= height as usize,
                cells@.len() == y,
                forall|j: int| 0 <= j < y ==> (#[trigger] cells@[j])@ == blank_row(width as int),
            decreases height as usize - y,
        {
            cells.push(Self::blank_row_vec(width));
            y = y + 1;
        }
        cells
    }

    /// A fresh interpreter of the given size: blank grid, cursor homed and
    /// shown, default colors.
    pub fn new(width: u16, height: u16) -> (s: ShellOverlay)
        requires
            width >= 1,
            height >= 1,
        ensures
            s.wf(),
            s.view_state() == fresh_view(width as int, height as int),
            s.tok_view() == Tokenizer::initial_spec(),
    {
        let cells = Self::blank_cells(width, height);
        let s = ShellOverlay {
            cells,
            cursor_x: 0,
            cursor_y: 0,
            cursor_visible: true,
            width,
            height,
            current_fg: Color::Reset,
            current_bg: Color::Reset,
            saved_x: 0,
            saved_y: 0,
            tok: Tokenizer::new(),
        };
        proof {
            assert(s.view_state().grid =~~= fresh_view(width as int, height as int).grid);
        }
        s
    }

    /// Resets to a blank grid of the new size; the pending colors and the
    /// visibility flag survive, and the byte classifier keeps its state.
    pub fn resize(&mut self, width: u16, height: u16)
        requires
            old(self).wf(),
            width >= 1,
            height >= 1,
        ensures
            final(self).wf(),
            final(self).view_state() == resized_view(
                old(self).view_state(),
                width as int,
                height as int,
            ),
            final(self).tok_view() == old(self).tok_view(),
    {
        self.cells = Self::blank_cells(width, height);
        self.width = width;
        self.height = height;
        self.cursor_x = 0;
        self.cursor_y = 0;
        self.saved_x = 0;
        self.saved_y = 0;
        proof {
            assert(self.view_state().grid =~~= resized_view(
                old(self).view_state(),
                width as int,
                height as int,
            ).grid);
        }
    }

    /// The cursor's column and row.
    pub fn get_cursor_pos(&self) -> (pos: (u16, u16))
        ensures
            pos.0 == self.view_state().cursor_x,
            pos.1 == self.view_state().cursor_y,
    {
        (self.cursor_x, self.cursor_y)
    }

    /// Whether the byte stream asked for the cursor to be shown.
    pub fn cursor_visible(&self) -> (vis: bool)
        ensures
            vis == self.view_state().visible,
    {
        self.cursor_visible
    }

    /// The cell at column `x`, row `y` of the interpreter's grid.
    pub fn cell_at(&self, x: u16, y: u16) -> (c: Cell)
        requires
            view_wf(self.view_state()),
            x < self.view_state().width,
            y < self.view_state().height,
        ensures
            c == self.view_state().grid[y as int][x as int],
    {
        self.cells[y as usize][x as usize]
    }

    pub fn size(&self) -> (size: (u16, u16))
        ensures
            size.0 == self.view_state().width,
            size.1 == self.view_state().height,
    {
        (self.width, self.height)
    }

    fn scroll_up(&mut self)
        requires
            view_wf(old(self).view_state()),
        ensures
            final(self).view_state() == scrolled(old(self).view_state()),
            final(self).tok_view() == old(self).tok_view(),
    {
        self.cells.remove(0);
        let r = Self::blank_row_vec(self.width);
        self.cells.push(r);
        proof {
            assert(self.view_state().grid =~~= scrolled(old(self).view_state()).grid);
        }
    }

    fn feed_line(&mut self)
        requires
            view_wf(old(self).view_state()),
        ensures
            final(self).view_state() == line_feed(old(self).view_state()),
            final(self).tok_view() == old(self).tok_view(),
    {
        if self.cursor_y + 1 < self.height {
            self.cursor_y = self.cursor_y + 1;
        } else {
            self.scroll_up();
            self.cursor_y = self.height - 1;
        }
    }

    fn print_char(&mut self, c: char)
        requires
            view_wf(old(self).view_state()),
        ensures
            final(self).view_state() == apply_print(old(self).view_state(), c),
            final(self).tok_view() == old(self).tok_view(),
    {
        if self.cursor_x < self.width && self.cursor_y < self.height {
            let cell = Cell { character: c, fg: self.current_fg, bg: self.current_bg };
            self.cells[self.cursor_y as usize][self.cursor_x as usize] = cell;
        }
        proof {
            let v = old(self).view_state();
            let written = OverlayView {
                grid: v.grid.update(
                    v.cursor_y,
                    v.grid[v.cursor_y].update(
                        v.cursor_x,
                        Cell { character: c, fg: v.fg, bg: v.bg },
                    ),
                ),
                ..v
            };
            assert(self.view_state().grid =~~= written.grid);
        }
        if self.cursor_x + 1 < self.width {
            self.cursor_x = self.cursor_x + 1;
        } else {
            self.cursor_x = 0;
            self.feed_line();
        }
    }

    fn clear_screen_exec(&mut self)
        requires
            view_wf(old(self).view_state()),
        ensures
            final(self).view_state() == (OverlayView {
                grid: cleared_grid(old(self).view_state()),
                ..old(self).view_state()
            }),
            final(self).tok_view() == old(self).tok_view(),
    {
        let h: usize = self.cells.len();
        let mut y: usize = 0;
        while y < h
            invariant
                y <= h,
                self.cells@.len() == h,
                self.cursor_x == old(self).cursor_x,
                self.cursor_y == old(self).cursor_y,
                self.cursor_visible == old(self).cursor_visible,
                self.width == old(self).width,
                self.height == old(self).height,
                self.current_fg == old(self).current_fg,
                self.current_bg == old(self).current_bg,
                self.saved_x == old(self).saved_x,
                self.saved_y == old(self).saved_y,
                self.tok == old(self).tok,
                forall|j: int| 0 <= j < y ==> (#[trigger] self.cells@[j])@ == blank_row(
                    old(self).view_state().width,
                ),
                forall|j: int| y <= j < h ==> self.cells@[j] == old(self).cells@[j],
            decreases h - y,
        {
            let r = Self::blank_row_vec(self.width);
            self.cells[y] = r;
            y = y + 1;
        }
        proof {
            assert(self.view_state().grid =~~= cleared_grid(old(self).view_state()));
        }
    }

    fn clear_row_range(&mut self, y: u16, from: u16)
        requires
            view_wf(old(self).view_state()),
            y < old(self).view_state().height,
        ensures
            final(self).view_state() == (OverlayView {
                grid: old(self).view_state().grid.update(
                    y as int,
                    erase_row_from(old(self).view_state().grid[y as int], from as int),
                ),
                ..old(self).view_state()
            }),
            final(self).tok_view() == old(self).tok_view(),
    {
        let w: usize = self.width as usize;
        let mut x: usize = from as usize;
        proof {
            assert(old(self).view_state().grid[y as int].len() == old(self).view_state().width);
        }
        while x < w
            invariant
                x <= w || x == from as usize,
                from as usize <= x,
                w == self.width as int,
                self.cells@.len() == old(self).cells@.len(),
                y < self.cells@.len(),
                (#[trigger] self.cells@[y as int])@.len() == w,
                self.cursor_x == old(self).cursor_x,
                self.cursor_y == old(self).cursor_y,
                self.cursor_visible == old(self).cursor_visible,
                self.width == old(self).width,
                self.height == old(self).height,
                self.current_fg == old(self).current_fg,
                self.current_bg == old(self).current_bg,
                self.saved_x == old(self).saved_x,
                self.saved_y == old(self).saved_y,
                self.tok == old(self).tok,
                forall|j: int| 0 <= j < self.cells@.len() && j != y ==> self.cells@[j]
                    == old(self).cells@[j],
                forall|i: int|
                    0 <= i < w ==> (#[trigger] self.cells@[y as int]@[i]) == (if from <= i < x {
                        Cell::blank_spec()
                    } else {
                        old(self).cells@[y as int]@[i]
                    }),
            decreases w - x,
        {
            self.cells[y as usize][x] = Cell::blank();
            x = x + 1;
        }
        proof {
            assert(self.view_state().grid =~~= (OverlayView {
                grid: old(self).view_state().grid.update(
                    y as int,
                    erase_row_from(old(self).view_state().grid[y as int], from as int),
                ),
                ..old(self).view_state()
            }).grid);
        }
    }

    fn clear_to_end_exec(&mut self)
        requires
            view_wf(old(self).view_state()),
        ensures
            final(self).view_state() == clear_to_end(old(self).view_state()),
            final(self).tok_view() == old(self).tok_view(),
    {
        let ghost v0 = old(self).view_state();
        let cy = self.cursor_y;
        let cx = self.cursor_x;
        self.clear_row_range(cy, cx);
        let h: u16 = self.height;
        let mut y: u16 = cy + 1;
        while y < h
            invariant
                cy < y,
                y <= h || y == cy + 1,
                h as int == v0.height,
                cy as int == v0.cursor_y,
                cx as int == v0.cursor_x,
                view_wf(self.view_state()),
                self.tok_view() == old(self).tok_view(),
                self.view_state().cursor_x == v0.cursor_x,
                self.view_state().cursor_y == v0.cursor_y,
                self.view_state().visible == v0.visible,
                self.view_state().fg == v0.fg,
                self.view_state().bg == v0.bg,
                self.view_state().saved_x == v0.saved_x,
                self.view_state().saved_y == v0.saved_y,
                self.view_state().width == v0.width,
                self.view_state().height == v0.height,
                self.view_state().grid.len() == v0.grid.len(),
                forall|j: int| 0 <= j < cy ==> self.view_state().grid[j] == v0.grid[j],
                self.view_state().grid[cy as int] == erase_row_from(v0.grid[cy as int], cx as int),
                forall|j: int| cy < j < y ==> (#[trigger] self.view_state().grid[j]) =~= blank_row(
                    v0.width,
                ),
                forall|j: int| y <= j < h ==> (#[trigger] self.view_state().grid[j]) == v0.grid[j],
            decreases h - y,
        {
            self.clear_row_range(y, 0);
            proof {
                assert(self.view_state().grid[y as int] =~= blank_row(v0.width));
            }
            y = y + 1;
        }
        proof {
            assert(self.view_state().grid =~~= clear_to_end(v0).grid);
        }
    }

    fn clear_line_to_end_exec(&mut self)
        requires
            view_wf(old(self).view_state()),
        ensures
            final(self).view_state() == clear_line_to_end(old(self).view_state()),
            final(self).tok_view() == old(self).tok_view(),
    {
        let cy = self.cursor_y;
        let cx = self.cursor_x;
        self.clear_row_range(cy, cx);
    }

    fn clear_line_exec(&mut self)
        requires
            view_wf(old(self).view_state()),
        ensures
            final(self).view_state() == clear_line(old(self).view_state()),
            final(self).tok_view() == old(self).tok_view(),
    {
        let cy = self.cursor_y;
        self.clear_row_range(cy, 0);
        proof {
            assert(erase_row_from(old(self).view_state().grid[cy as int], 0) =~= blank_row(
                old(self).view_state().width,
            ));
        }
    }

    fn low8_exec(p: u16) -> (b: u8)
        ensures
            b == low8(p),
    {
        proof {
            assert((p & 0xff) <= 0xff) by (bit_vector);
        }
        (p & 0xff) as u8
    }

    fn parse_sgr(&mut self, ps: &Vec<u16>)
        ensures
            ({
                let c = sgr_colors(old(self).current_fg, old(self).current_bg, ps@, 0);
                final(self).current_fg == c.0 && final(self).current_bg == c.1
            }),
            final(self).cells == old(self).cells,
            final(self).cursor_x == old(self).cursor_x,
            final(self).cursor_y == old(self).cursor_y,
            final(self).cursor_visible == old(self).cursor_visible,
            final(self).width == old(self).width,
            final(self).height == old(self).height,
            final(self).saved_x == old(self).saved_x,
            final(self).saved_y == old(self).saved_y,
            final(self).tok == old(self).tok,
    {
        let n: usize = ps.len();
        let mut i: usize = 0;
        while i < n
            invariant
                i <= n,
                n == ps@.len(),
                sgr_colors(old(self).current_fg, old(self).current_bg, ps@, 0) == sgr_colors(
                    self.current_fg,
                    self.current_bg,
                    ps@,
                    i as int,
                ),
                self.cells == old(self).cells,
                self.cursor_x == old(self).cursor_x,
                self.cursor_y == old(self).cursor_y,
                self.cursor_visible == old(self).cursor_visible,
                self.width == old(self).width,
                self.height == old(self).height,
                self.saved_x == old(self).saved_x,
                self.saved_y == old(self).saved_y,
                self.tok == old(self).tok,
            decreases n - i,
        {
            let p = ps[i];
            if p == 0 {
                self.current_fg = Color::Reset;
                self.current_bg = Color::Reset;
                i = i + 1;
            } else if p == 30 {
                self.current_fg = Color::Black;
                i = i + 1;
            } else if p == 31 {
                self.current_fg = Color::Red;
                i = i + 1;
            } else if p == 32 {
                self.current_fg = Color::Green;
                i = i + 1;
            } else if p == 33 {
                self.current_fg = Color::Yellow;
                i = i + 1;
            } else if p == 34 {
                self.current_fg = Color::Blue;
                i = i + 1;
            } else if p == 35 {
                self.current_fg = Color::Magenta;
                i = i + 1;
            } else if p == 36 {
                self.current_fg = Color::Cyan;
                i = i + 1;
            } else if p == 37 {
                self.current_fg = Color::White;
                i = i + 1;
            } else if p == 39 {
                self.current_fg = Color::Reset;
                i = i + 1;
            } else if p == 40 {
                self.current_bg = Color::Black;
                i = i + 1;
            } else if p == 41 {
                self.current_bg = Color::Red;
                i = i + 1;
            } else if p == 42 {
                self.current_bg = Color::Green;
                i = i + 1;
            } else if p == 43 {
                self.current_bg = Color::Yellow;
                i = i + 1;
            } else if p == 44 {
                self.current_bg = Color::Blue;
                i = i + 1;
            } else if p == 45 {
                self.current_bg = Color::Magenta;
                i = i + 1;
            } else if p == 46 {
                self.current_bg = Color::Cyan;
                i = i + 1;
            } else if p == 47 {
                self.current_bg = Color::White;
                i = i + 1;
            } else if p == 49 {
                self.current_bg = Color::Reset;
                i = i + 1;
            } else if p == 90 {
                self.current_fg = Color::DarkGrey;
                i = i + 1;
            } else if p == 91 {
                self.current_fg = Color::Red;
                i = i + 1;
            } else if p == 92 {
                self.current_fg = Color::Green;
                i = i + 1;
            } else if p == 93 {
                self.current_fg = Color::Yellow;
                i = i + 1;
            } else if p == 94 {
                self.current_fg = Color::Blue;
                i = i + 1;
            } else if p == 95 {
                self.current_fg = Color::Magenta;
                i = i + 1;
            } else if p == 96 {
                self.current_fg = Color::Cyan;
                i = i + 1;
            } else if p == 97 {
                self.current_fg = Color::White;
                i = i + 1;
            } else if p == 38 {
                if n - i <= 1 {
                    i = n;
                } else if ps[i + 1] == 5 {
                    if n - i <= 2 {
                        i = n;
                    } else {
                        self.current_fg = Color::AnsiValue(Self::low8_exec(ps[i + 2]));
                        i = i + 3;
                    }
                } else if ps[i + 1] == 2 {
                    if n - i <= 4 {
                        i = n;
                    } else {
                        self.current_fg = Color::Rgb {
                            r: Self::low8_exec(ps[i + 2]),
                            g: Self::low8_exec(ps[i + 3]),
                            b: Self::low8_exec(ps[i + 4]),
                        };
                        i = i + 5;
                    }
                } else {
                    i = i + 2;
                }
            } else if p == 48 {
                if n - i <= 1 {
                    i = n;
                } else if ps[i + 1] == 5 {
                    if n - i <= 2 {
                        i = n;
                    } else {
                        self.current_bg = Color::AnsiValue(Self::low8_exec(ps[i + 2]));
                        i = i + 3;
                    }
                } else if ps[i + 1] == 2 {
                    if n - i <= 4 {
                        i = n;
                    } else {
                        self.current_bg = Color::Rgb {
                            r: Self::low8_exec(ps[i + 2]),
                            g: Self::low8_exec(ps[i + 3]),
                            b: Self::low8_exec(ps[i + 4]),
                        };
                        i = i + 5;
                    }
                } else {
                    i = i + 2;
                }
            } else {
                i = i + 1;
            }
        }
    }

    fn execute(&mut self, b: u8)
        requires
            view_wf(old(self).view_state()),
        ensures
            final(self).view_state() == apply_control(old(self).view_state(), b),
            final(self).tok_view() == old(self).tok_view(),
    {
        if b == 0x08 {
            if self.cursor_x > 0 {
                self.cursor_x = self.cursor_x - 1;
            }
        } else if b == 0x09 {
            let t: u32 = ((self.cursor_x as u32) / 8 + 1) * 8;
            if t >= self.width as u32 {
                self.cursor_x = 0;
                self.feed_line();
            } else {
                self.cursor_x = t as u16;
            }
        } else if b == 0x0a {
            self.feed_line();
        } else if b == 0x0c {
            self.clear_screen_exec();
            self.cursor_x = 0;
            self.cursor_y = 0;
        } else if b == 0x0d {
            self.cursor_x = 0;
        }
    }

    fn csi_dispatch(&mut self, ps: &Vec<u16>, action: char)
        requires
            view_wf(old(self).view_state()),
        ensures
            final(self).view_state() == apply_csi(old(self).view_state(), ps@, action),
            final(self).tok_view() == old(self).tok_view(),
    {
        if action == 'H' || action == 'f' {
            let row: u16 = if ps.len() > 0 {
                ps[0]
            } else {
                1
            };
            let col: u16 = if ps.len() > 1 {
                ps[1]
            } else {
                1
            };
            let r0: u16 = if row > 0 {
                row - 1
            } else {
                0
            };
            let c0: u16 = if col > 0 {
                col - 1
            } else {
                0
            };
            let hm1 = self.height - 1;
            let wm1 = self.width - 1;
            self.cursor_y = if r0 < hm1 {
                r0
            } else {
                hm1
            };
            self.cursor_x = if c0 < wm1 {
                c0
            } else {
                wm1
            };
        } else if action == 'A' {
            let n: u16 = if ps.len() > 0 {
                ps[0]
            } else {
                1
            };
            self.cursor_y = if self.cursor_y > n {
                self.cursor_y - n
            } else {
                0
            };
        } else if action == 'B' {
            let n: u16 = if ps.len() > 0 {
                ps[0]
            } else {
                1
            };
            let t: u32 = self.cursor_y as u32 + n as u32;
            let hm1 = self.height - 1;
            self.cursor_y = if t < hm1 as u32 {
                t as u16
            } else {
                hm1
            };
        } else if action == 'C' {
            let n: u16 = if ps.len() > 0 {
                ps[0]
            } else {
                1
            };
            let t: u32 = self.cursor_x as u32 + n as u32;
            let wm1 = self.width - 1;
            self.cursor_x = if t < wm1 as u32 {
                t as u16
            } else {
                wm1
            };
        } else if action == 'D' {
            let n: u16 = if ps.len() > 0 {
                ps[0]
            } else {
                1
            };
            self.cursor_x = if self.cursor_x > n {
                self.cursor_x - n
            } else {
                0
            };
        } else if action == 'J' {
            let m: u16 = if ps.len() > 0 {
                ps[0]
            } else {
                0
            };
            if m == 0 {
                self.clear_to_end_exec();
            } else if m == 2 || m == 3 {
                self.clear_screen_exec();
                self.cursor_x = 0;
                self.cursor_y = 0;
            }
        } else if action == 'K' {
            let m: u16 = if ps.len() > 0 {
                ps[0]
            } else {
                0
            };
            if m == 0 {
                self.clear_line_to_end_exec();
            } else if m == 2 {
                self.clear_line_exec();
            }
        } else if action == 'm' {
            self.parse_sgr(ps);
        } else if action == 'h' {
            if ps.len() > 0 && ps[0] == 25 {
                self.cursor_visible = true;
            }
        } else if action == 'l' {
            if ps.len() > 0 && ps[0] == 25 {
                self.cursor_visible = false;
            }
        } else if action == 's' {
            self.saved_x = self.cursor_x;
            self.saved_y = self.cursor_y;
        } else if action == 'u' {
            self.cursor_x = self.saved_x;
            self.cursor_y = self.saved_y;
        }
    }

    fn apply_event(&mut self, ev: &VtEvent)
        requires
            view_wf(old(self).view_state()),
        ensures
            final(self).view_state() == apply_event_spec(old(self).view_state(), ev.view()),
            final(self).tok_view() == old(self).tok_view(),
    {
        match ev {
            VtEvent::Print(c) => self.print_char(*c),
            VtEvent::Control(b) => self.execute(*b),
            VtEvent::Csi { params, action } => self.csi_dispatch(params, *action),
        }
    }

    /// Feeds a chunk of the shell's raw output through the byte classifier
    /// and applies every recognized event to the grid.
    pub fn process_output(&mut self, data: &[u8])
        requires
            old(self).wf(),
        ensures
            final(self).wf(),
            ({
                let r = vt_process(old(self).view_state(), old(self).tok_view(), data@);
                final(self).view_state() == r.0 && final(self).tok_view() == r.1
            }),
            final(self).view_state().width == old(self).view_state().width,
            final(self).view_state().height == old(self).view_state().height,
    {
        let ghost v0 = self.view_state();
        let ghost t0 = self.tok_view();
        let n: usize = data.len();
        proof {
            assert(data@.subrange(0, n as int) =~= data@);
        }
        let mut i: usize = 0;
        while i < n
            invariant
                i <= n,
                n == data@.len(),
                self.wf(),
                vt_process(v0, t0, data@) == vt_process(
                    self.view_state(),
                    self.tok_view(),
                    data@.subrange(i as int, n as int),
                ),
            decreases n - i,
        {
            let ghost v_cur = self.view_state();
            let ghost t_cur = self.tok_view();
            let ghost rest = data@.subrange(i as int, n as int);
            let b = data[i];
            proof {
                assert(rest[0] == data@[i as int]);
                assert(rest.drop_first() =~= data@.subrange(i as int + 1, n as int));
            }
            let ev = self.tok.step(b);
            match ev {
                Some(e) => {
                    proof {
                        crate::vt::lemma_tok_step_wf(t_cur, b);
                    }
                    self.apply_event(&e);
                    proof {
                        lemma_apply_event_wf(v_cur, e.view());
                    }
                },
                None => {},
            }
            i = i + 1;
        }
        proof {
            assert(data@.subrange(n as int, n as int) =~= Seq::<u8>::empty());
            lemma_vt_process_wf(v0, t0, data@);
        }
    }

    /// Composes the overlay onto the screen buffer. A blank cell with a
    /// default background is transparent and leaves the buffer's cell
    /// alone; every other cell is drawn opaquely. Coordinates beyond the
    /// buffer are ignored by the buffer itself.
    pub fn render(&self, buf: &mut ScreenBuffer)
        requires
            view_wf(self.view_state()),
            old(buf).wf(),
        ensures
            final(buf).wf(),
            final(buf).spec_width() == old(buf).spec_width(),
            final(buf).spec_height() == old(buf).spec_height(),
            final(buf).prev() == old(buf).prev(),
            final(buf).cur().len() == old(buf).cur().len(),
            forall|bx: int, by: int|
                0 <= bx < final(buf).spec_width() && 0 <= by < final(buf).spec_height()
                    ==> final(buf).cur()[by * final(buf).spec_width() + bx] == composed_cell(
                    old(buf).cur(),
                    self.view_state(),
                    final(buf).spec_width() as int,
                    bx,
                    by,
                ),
    {
        let oh: usize = self.height as usize;
        let ow: usize = self.width as usize;
        let ghost v = self.view_state();
        let ghost cur0 = old(buf).cur();
        let ghost bw = old(buf).spec_width() as int;
        let ghost bh = old(buf).spec_height() as int;
        let mut y: usize = 0;
        while y < oh
            invariant
                y <= oh,
                oh == v.height,
                ow == v.width,
                view_wf(v),
                v == self.view_state(),
                buf.wf(),
                bw == buf.spec_width() as int,
                bh == buf.spec_height() as int,
                buf.prev() == old(buf).prev(),
                cur0 == old(buf).cur(),
                buf.cur().len() == cur0.len(),
                forall|bx: int, by: int|
                    0 <= bx < bw && 0 <= by < bh ==> buf.cur()[by * bw + bx] == composed_upto(
                        cur0,
                        v,
                        bw,
                        y as int,
                        0,
                        bx,
                        by,
                    ),
            decreases oh - y,
        {
            let mut x: usize = 0;
            while x < ow
                invariant
                    x <= ow,
                    y < oh,
                    oh == v.height,
                    ow == v.width,
                    view_wf(v),
                    v == self.view_state(),
                    buf.wf(),
                    bw == buf.spec_width() as int,
                    bh == buf.spec_height() as int,
                    buf.prev() == old(buf).prev(),
                    cur0 == old(buf).cur(),
                    buf.cur().len() == cur0.len(),
                    forall|bx: int, by: int|
                        0 <= bx < bw && 0 <= by < bh ==> buf.cur()[by * bw + bx] == composed_upto(
                            cur0,
                            v,
                            bw,
                            y as int,
                            x as int,
                            bx,
                            by,
                        ),
                decreases ow - x,
            {
                let ghost curp = buf.cur();
                let cell = self.cells[y][x];
                proof {
                    assert(cell == v.grid[y as int][x as int]);
                }
                if cell.character != ' ' || cell.bg != Color::Reset {
                    if cell.bg == Color::Reset {
                        buf.set(x as u16, y as u16, cell.character, cell.fg);
                    } else {
                        buf.set_with_bg(x as u16, y as u16, cell.character, cell.fg, cell.bg);
                    }
                }
                proof {
                    let ghost xn = x as int + 1;
                    assert forall|bx: int, by: int|
                        0 <= bx < bw && 0 <= by < bh implies buf.cur()[by * bw + bx]
                        == composed_upto(cur0, v, bw, y as int, xn, bx, by) by {
                        if (x as int) < bw && (y as int) < bh {
                            lemma_rowmajor(bw, bh, bx, by, x as int, y as int);
                        }
                        assert(curp[by * bw + bx] == composed_upto(
                            cur0,
                            v,
                            bw,
                            y as int,
                            x as int,
                            bx,
                            by,
                        ));
                    }
                }
                x = x + 1;
            }
            proof {
                let ghost yn = y as int + 1;
                assert forall|bx: int, by: int|
                    0 <= bx < bw && 0 <= by < bh implies buf.cur()[by * bw + bx] == composed_upto(
                    cur0,
                    v,
                    bw,
                    yn,
                    0,
                    bx,
                    by,
                ) by {
                    assert(buf.cur()[by * bw + bx] == composed_upto(
                        cur0,
                        v,
                        bw,
                        y as int,
                        ow as int,
                        bx,
                        by,
                    ));
                }
            }
            y = y + 1;
        }
        proof {
            assert forall|bx: int, by: int|
                0 <= bx < bw && 0 <= by < bh implies buf.cur()[by * bw + bx] == composed_cell(
                cur0,
                v,
                bw,
                bx,
                by,
            ) by {
                assert(buf.cur()[by * bw + bx] == composed_upto(cur0, v, bw, oh as int, 0, bx, by));
            }
        }
    }
}

} // verus!
