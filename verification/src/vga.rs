//! Text-mode display driver model.
//!
//! The display is a fixed grid of `VGA_WIDTH` x `VGA_HEIGHT` cells; each cell
//! is a 16-bit value whose low byte is the character code and whose high byte
//! is the color attribute. The driver owns the grid and the cursor and
//! exposes write, clear and scroll semantics; flushing the grid and the
//! cursor to real hardware is left to the caller.

use vstd::prelude::*;

verus! {

/// Grid width in character cells.
pub const VGA_WIDTH: usize = 80;

/// Grid height in rows.
pub const VGA_HEIGHT: usize = 25;

/// Default color attribute: light grey on black ("white").
pub const COLOR_WHITE: u8 = 0x0F;

/// A blank cell: a space with the default attribute.
pub const BLANK_CELL: u16 = 0x0F20;

/// Byte that moves the cursor to the start of the next row.
pub const NEWLINE: u8 = 0x0A;

/// Byte that erases the cell left of the cursor.
pub const BACKSPACE: u8 = 0x08;

/// Mathematical model of the display: the row-major grid and the cursor.
pub ghost struct DisplayView {
    pub grid: Seq<u16>,
    pub x: int,
    pub y: int,
}

impl DisplayView {
    /// The grid has exactly width x height cells and the cursor is inside it.
    pub open spec fn wf(self) -> bool {
        &&& self.grid.len() == VGA_WIDTH * VGA_HEIGHT
        &&& 0 <= self.x < VGA_WIDTH
        &&& 0 <= self.y < VGA_HEIGHT
    }

    /// The cell at a (row, column) pair.
    pub open spec fn cell(self, row: int, col: int) -> u16 {
        self.grid[row * VGA_WIDTH + col]
    }
}

/// The 16-bit cell holding character `c` with the default attribute.
pub open spec fn cell_of(c: u8) -> u16 {
    (0x0F00 + c) as u16
}

/// A fully blank grid.
pub open spec fn blank_grid() -> Seq<u16> {
    Seq::new((VGA_WIDTH * VGA_HEIGHT) as nat, |i: int| BLANK_CELL)
}

/// The grid after a one-row upward shift: row r takes the contents of row
/// r+1, and the last row becomes blank.
pub open spec fn scrolled_grid(g: Seq<u16>) -> Seq<u16> {
    Seq::new((VGA_WIDTH * VGA_HEIGHT) as nat, |i: int|
        if i < VGA_WIDTH * (VGA_HEIGHT - 1) {
            g[i + VGA_WIDTH]
        } else {
            BLANK_CELL
        })
}

/// Scrolling: only when the cursor has run past the last row does the grid
/// shift up one row; the cursor is then pinned to the last row.
pub open spec fn spec_scroll(v: DisplayView) -> DisplayView {
    if v.y >= VGA_HEIGHT {
        DisplayView { grid: scrolled_grid(v.grid), x: v.x, y: VGA_HEIGHT - 1 }
    } else {
        v
    }
}

/// The cursor/grid move of one written byte, before scrolling: newline moves
/// to the start of the next row; backspace blanks the cell to the left (a
/// no-op at column 0); a printable byte is stored at the cursor, which
/// advances and wraps; every other control byte is ignored.
pub open spec fn spec_advance(v: DisplayView, c: u8) -> DisplayView {
    if c == NEWLINE {
        DisplayView { grid: v.grid, x: 0, y: v.y + 1 }
    } else if c == BACKSPACE {
        if v.x > 0 {
            DisplayView {
                grid: v.grid.update(v.y * VGA_WIDTH + v.x - 1, BLANK_CELL),
                x: v.x - 1,
                y: v.y,
            }
        } else {
            v
        }
    } else if c >= 0x20 {
        let g = v.grid.update(v.y * VGA_WIDTH + v.x, cell_of(c));
        if v.x + 1 >= VGA_WIDTH {
            DisplayView { grid: g, x: 0, y: v.y + 1 }
        } else {
            DisplayView { grid: g, x: v.x + 1, y: v.y }
        }
    } else {
        v
    }
}

/// One full write: the move of the byte, then scrolling if needed.
pub open spec fn spec_putchar(v: DisplayView, c: u8) -> DisplayView {
    spec_scroll(spec_advance(v, c))
}

/// A sequence of writes, in order.
pub open spec fn spec_print(v: DisplayView, s: Seq<u8>) -> DisplayView
    decreases s.len(),
{
    if s.len() == 0 {
        v
    } else {
        spec_putchar(spec_print(v, s.drop_last()), s.last())
    }
}

/// The grid after the input line is redrawn on the cursor's row: from
/// column `p` on, the row shows `s` and then blanks to the row's end;
/// everything else, and the cursor, is untouched.
pub open spec fn spec_rewrite(v: DisplayView, p: int, s: Seq<u8>) -> DisplayView {
    DisplayView {
        grid: Seq::new(v.grid.len(), |i: int|
            if v.y * VGA_WIDTH + p <= i < v.y * VGA_WIDTH + VGA_WIDTH {
                if i - (v.y * VGA_WIDTH + p) < s.len() {
                    cell_of(s[i - (v.y * VGA_WIDTH + p)])
                } else {
                    BLANK_CELL
                }
            } else {
                v.grid[i]
            }),
        x: v.x,
        y: v.y,
    }
}

/// Printing a concatenation is printing the parts one after the other.
pub proof fn lemma_print_append(v: DisplayView, a: Seq<u8>, b: Seq<u8>)
    ensures
        spec_print(v, a + b) == spec_print(spec_print(v, a), b),
    decreases b.len(),
{
    if b.len() == 0 {
        assert(a + b =~= a);
    } else {
        lemma_print_append(v, a, b.drop_last());
        assert((a + b).drop_last() =~= a + b.drop_last());
        assert((a + b).last() == b.last());
    }
}

/// Writing a newline on the bottom row scrolls: every row takes exactly
/// the contents of the row below it, the last row becomes blank, and the
/// cursor stays pinned to the bottom row. This pins every cell of the
/// result, so no content is duplicated, and it is the only mechanism that
/// ever discards on-screen content.
pub proof fn lemma_scroll_shift(v: DisplayView)
    requires
        v.wf(),
        v.y == VGA_HEIGHT - 1,
    ensures
        spec_putchar(v, NEWLINE).y == VGA_HEIGHT - 1,
        spec_putchar(v, NEWLINE).x == 0,
        forall|r: int, c: int|
            0 <= r < VGA_HEIGHT - 1 && 0 <= c < VGA_WIDTH ==> #[trigger] spec_putchar(
                v,
                NEWLINE,
            ).cell(r, c) == v.cell(r + 1, c),
        forall|c: int|
            0 <= c < VGA_WIDTH ==> #[trigger] spec_putchar(v, NEWLINE).cell(
                VGA_HEIGHT - 1,
                c,
            ) == BLANK_CELL,
{
    let w = spec_putchar(v, NEWLINE);
    assert(w.grid == scrolled_grid(v.grid));
    assert forall|r: int, c: int|
        0 <= r < VGA_HEIGHT - 1 && 0 <= c < VGA_WIDTH implies #[trigger] w.cell(r, c) == v.cell(
        r + 1,
        c,
    ) by {
        assert(0 <= r * VGA_WIDTH + c < VGA_WIDTH * (VGA_HEIGHT - 1));
        assert(r * VGA_WIDTH + c + VGA_WIDTH == (r + 1) * VGA_WIDTH + c);
    }
    assert forall|c: int| 0 <= c < VGA_WIDTH implies #[trigger] w.cell(VGA_HEIGHT - 1, c)
        == BLANK_CELL by {
        assert((VGA_HEIGHT - 1) * VGA_WIDTH + c >= VGA_WIDTH * (VGA_HEIGHT - 1));
    }
}

/// The owned display state: grid cells in row-major order, plus the cursor.
pub struct Display {
    cells: Vec<u16>,
    cursor_x: usize,
    cursor_y: usize,
}

impl View for Display {
    type V = DisplayView;

    closed spec fn view(&self) -> DisplayView {
        DisplayView { grid: self.cells@, x: self.cursor_x as int, y: self.cursor_y as int }
    }
}

/// The cell value for byte `c` with the default attribute.
fn make_cell(c: u8) -> (r: u16)
    ensures
        r == cell_of(c),
{
    0x0F00u16 + c as u16
}

impl Display {
    /// The display invariant, stated over the model.
    pub open spec fn wf(&self) -> bool {
        self@.wf()
    }

    /// A fresh display: every cell blank, cursor at the top-left corner.
    pub fn new() -> (d: Display)
        ensures
            d.wf(),
            d@.grid == blank_grid(),
            d@.x == 0,
            d@.y == 0,
    {
        let mut cells: Vec<u16> = Vec::new();
        let mut i: usize = 0;
        while i < VGA_WIDTH * VGA_HEIGHT
            invariant
                i <= VGA_WIDTH * VGA_HEIGHT,
                cells@.len() == i,
                forall|j: int| 0 <= j < i ==> cells@[j] == BLANK_CELL,
            decreases VGA_WIDTH * VGA_HEIGHT - i,
        {
            cells.push(BLANK_CELL);
            i += 1;
        }
        proof {
            assert(cells@ =~= blank_grid());
        }
        Display { cells, cursor_x: 0, cursor_y: 0 }
    }

    /// Fills the whole grid with blanks and homes the cursor.
    pub fn clear(&mut self)
        requires
            old(self).wf(),
        ensures
            final(self).wf(),
            final(self)@.grid == blank_grid(),
            final(self)@.x == 0,
            final(self)@.y == 0,
    {
        let mut i: usize = 0;
        while i < VGA_WIDTH * VGA_HEIGHT
            invariant
                i <= VGA_WIDTH * VGA_HEIGHT,
                self.cells@.len() == VGA_WIDTH * VGA_HEIGHT,
                forall|j: int| 0 <= j < i ==> self.cells@[j] == BLANK_CELL,
            decreases VGA_WIDTH * VGA_HEIGHT - i,
        {
            self.cells.set(i, BLANK_CELL);
            i += 1;
        }
        self.cursor_x = 0;
        self.cursor_y = 0;
        proof {
            assert(self.cells@ =~= blank_grid());
        }
    }

    /// Shifts the grid up one row if the cursor has run past the bottom.
    fn scroll(&mut self)
        requires
            old(self)@.grid.len() == VGA_WIDTH * VGA_HEIGHT,
            0 <= old(self)@.x < VGA_WIDTH,
            0 <= old(self)@.y <= VGA_HEIGHT,
        ensures
            final(self).wf(),
            final(self)@ == spec_scroll(old(self)@),
    {
        if self.cursor_y >= VGA_HEIGHT {
            let mut i: usize = 0;
            while i < (VGA_HEIGHT - 1) * VGA_WIDTH
                invariant
                    i <= (VGA_HEIGHT - 1) * VGA_WIDTH,
                    self.cells@.len() == VGA_WIDTH * VGA_HEIGHT,
                    self.cursor_x == old(self)@.x,
                    self.cursor_y == old(self)@.y,
                    forall|j: int| 0 <= j < i ==> self.cells@[j] == old(self)@.grid[j + VGA_WIDTH],
                    forall|j: int| i <= j < VGA_WIDTH * VGA_HEIGHT ==> self.cells@[j] == old(self)@.grid[j],
                decreases (VGA_HEIGHT - 1) * VGA_WIDTH - i,
            {
                let c = self.cells[i + VGA_WIDTH];
                self.cells.set(i, c);
                i += 1;
            }
            let mut k: usize = (VGA_HEIGHT - 1) * VGA_WIDTH;
            while k < VGA_HEIGHT * VGA_WIDTH
                invariant
                    (VGA_HEIGHT - 1) * VGA_WIDTH <= k <= VGA_HEIGHT * VGA_WIDTH,
                    self.cells@.len() == VGA_WIDTH * VGA_HEIGHT,
                    self.cursor_x == old(self)@.x,
                    self.cursor_y == old(self)@.y,
                    forall|j: int| 0 <= j < (VGA_HEIGHT - 1) * VGA_WIDTH ==>
                        self.cells@[j] == old(self)@.grid[j + VGA_WIDTH],
                    forall|j: int| (VGA_HEIGHT - 1) * VGA_WIDTH <= j < k ==> self.cells@[j] == BLANK_CELL,
                    forall|j: int| k <= j < VGA_WIDTH * VGA_HEIGHT ==> self.cells@[j] == old(self)@.grid[j],
                decreases VGA_HEIGHT * VGA_WIDTH - k,
            {
                self.cells.set(k, BLANK_CELL);
                k += 1;
            }
            self.cursor_y = VGA_HEIGHT - 1;
            proof {
                assert(self.cells@ =~= scrolled_grid(old(self)@.grid));
            }
        }
    }

    /// Writes one byte at the cursor with newline/backspace/wrap/scroll
    /// semantics.
    pub fn putchar(&mut self, c: u8)
        requires
            old(self).wf(),
        ensures
            final(self).wf(),
            final(self)@ == spec_putchar(old(self)@, c),
    {
        if c == NEWLINE {
            self.cursor_x = 0;
            self.cursor_y = self.cursor_y + 1;
        } else if c == BACKSPACE {
            if self.cursor_x > 0 {
                self.cursor_x = self.cursor_x - 1;
                let offset = self.cursor_y * VGA_WIDTH + self.cursor_x;
                self.cells.set(offset, BLANK_CELL);
            }
        } else if c >= 0x20 {
            let offset = self.cursor_y * VGA_WIDTH + self.cursor_x;
            self.cells.set(offset, make_cell(c));
            self.cursor_x = self.cursor_x + 1;
            if self.cursor_x >= VGA_WIDTH {
                self.cursor_x = 0;
                self.cursor_y = self.cursor_y + 1;
            }
        }
        proof {
            assert(self@ == spec_advance(old(self)@, c));
        }
        self.scroll();
    }

    /// Writes a byte string, front to back.
    pub fn print(&mut self, s: &[u8])
        requires
            old(self).wf(),
        ensures
            final(self).wf(),
            final(self)@ == spec_print(old(self)@, s@),
    {
        let mut i: usize = 0;
        while i < s.len()
            invariant
                i <= s.len(),
                self.wf(),
                self@ == spec_print(old(self)@, s@.take(i as int)),
            decreases s.len() - i,
        {
            self.putchar(s[i]);
            proof {
                assert(s@.take(i + 1).drop_last() =~= s@.take(i as int));
                assert(s@.take(i + 1).last() == s@[i as int]);
            }
            i += 1;
        }
        proof {
            assert(s@.take(s@.len() as int) =~= s@);
        }
    }

    /// The (high, low) bytes of the linear cursor offset, as the hardware
    /// cursor's index/data port protocol wants them.
    pub fn update_cursor(&self) -> (r: (u8, u8))
        requires
            self.wf(),
        ensures
            r.0 == (self@.y * VGA_WIDTH + self@.x) / 256,
            r.1 == (self@.y * VGA_WIDTH + self@.x) % 256,
    {
        let pos = self.cursor_y * VGA_WIDTH + self.cursor_x;
        ((pos / 256) as u8, (pos % 256) as u8)
    }

    /// Moves the cursor to column `x` on the current row, clamped to the
    /// last column; the grid is untouched.
    pub fn set_cursor_x(&mut self, x: usize)
        requires
            old(self).wf(),
        ensures
            final(self).wf(),
            final(self)@.grid == old(self)@.grid,
            final(self)@.y == old(self)@.y,
            final(self)@.x == if x < VGA_WIDTH { x as int } else { VGA_WIDTH - 1 },
    {
        if x < VGA_WIDTH {
            self.cursor_x = x;
        } else {
            self.cursor_x = VGA_WIDTH - 1;
        }
    }

    /// Redraws the input line on the cursor's row: from column
    /// `prompt_len` on, the row shows `buf` (as far as it fits) and then
    /// blanks to the row's end. The cursor is untouched.
    pub fn rewrite_input(&mut self, prompt_len: usize, buf: &[u8])
        requires
            old(self).wf(),
        ensures
            final(self).wf(),
            final(self)@ == spec_rewrite(old(self)@, prompt_len as int, buf@),
    {
        let ghost target = spec_rewrite(old(self)@, prompt_len as int, buf@);
        if prompt_len >= VGA_WIDTH {
            proof {
                assert(self.cells@ =~= target.grid);
            }
            return;
        }
        let row_base = self.cursor_y * VGA_WIDTH;
        let mut col = prompt_len;
        while col < VGA_WIDTH
            invariant
                prompt_len <= col <= VGA_WIDTH,
                self.cells@.len() == VGA_WIDTH * VGA_HEIGHT,
                self.cursor_x == old(self)@.x,
                self.cursor_y == old(self)@.y,
                0 <= old(self)@.y < VGA_HEIGHT,
                row_base == old(self)@.y * VGA_WIDTH,
                target == spec_rewrite(old(self)@, prompt_len as int, buf@),
                target.grid.len() == VGA_WIDTH * VGA_HEIGHT,
                forall|i: int|
                    row_base + prompt_len <= i < row_base + col ==> self.cells@[i]
                        == target.grid[i],
                forall|i: int|
                    0 <= i < VGA_WIDTH * VGA_HEIGHT && !(row_base + prompt_len <= i < row_base
                        + col) ==> self.cells@[i] == old(self)@.grid[i],
            decreases VGA_WIDTH - col,
        {
            let idx = row_base + col;
            if col - prompt_len < buf.len() {
                self.cells.set(idx, make_cell(buf[col - prompt_len]));
            } else {
                self.cells.set(idx, BLANK_CELL);
            }
            col += 1;
        }
        proof {
            assert(self.cells@ =~= target.grid);
        }
    }

    /// The cell at (row, col), for inspection.
    pub fn cell_at(&self, row: usize, col: usize) -> (r: u16)
        requires
            self.wf(),
            row < VGA_HEIGHT,
            col < VGA_WIDTH,
        ensures
            r == self@.cell(row as int, col as int),
    {
        self.cells[row * VGA_WIDTH + col]
    }

    /// The cursor column.
    pub fn cursor_col(&self) -> (r: usize)
        ensures
            r == self@.x,
    {
        self.cursor_x
    }

    /// The cursor row.
    pub fn cursor_row(&self) -> (r: usize)
        ensures
            r == self@.y,
    {
        self.cursor_y
    }
}

} // verus!
