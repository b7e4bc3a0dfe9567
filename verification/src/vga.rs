//! Text console model: an owned 80x25 cell buffer with a cursor, mirroring a
//! memory-mapped text screen. Each cell is two bytes: the character byte and
//! the attribute byte (0x0f, white on black). A platform shell copies the
//! cells to the real screen.

use vstd::prelude::*;
use vstd::string::*;

verus! {

/// The abstract screen: the flat cell bytes plus the cursor position.
#[verifier::ext_equal]
pub struct VgaView {
    pub cells: Seq<u8>,
    pub col: int,
    pub row: int,
}

/// A fully blank screen: spaces with the default attribute in every cell.
pub open spec fn spec_blank_cells() -> Seq<u8> {
    Seq::new(4000, |i: int| if i % 2 == 0 { 32u8 } else { 15u8 })
}

/// The cells after scrolling one line: every row moves up, the last row is
/// blanked.
pub open spec fn spec_scrolled_cells(cells: Seq<u8>) -> Seq<u8> {
    Seq::new(
        4000,
        |i: int|
            if i < 3840 {
                cells[i + 160]
            } else if i % 2 == 0 {
                32u8
            } else {
                15u8
            },
    )
}

/// One scroll step: the cells shift up one row and the cursor row moves up by
/// one (staying at 0 if it already is 0).
pub open spec fn spec_scroll(v: VgaView) -> VgaView {
    VgaView {
        cells: spec_scrolled_cells(v.cells),
        col: v.col,
        row: if v.row > 0 {
            v.row - 1
        } else {
            v.row
        },
    }
}

/// One byte written at the cursor: a newline resets the column and advances
/// the row; any other byte lands in the current cell and advances the column,
/// wrapping to the next row at the right edge. Either advance past the bottom
/// row scrolls.
pub open spec fn spec_put_char(v: VgaView, c: u8) -> VgaView {
    if c == 10 {
        let moved = VgaView { cells: v.cells, col: 0, row: v.row + 1 };
        if moved.row >= 25 {
            spec_scroll(moved)
        } else {
            moved
        }
    } else {
        let pos = (v.row * 80 + v.col) * 2;
        let written = VgaView {
            cells: v.cells.update(pos, c).update(pos + 1, 15u8),
            col: v.col + 1,
            row: v.row,
        };
        if written.col >= 80 {
            let moved = VgaView { cells: written.cells, col: 0, row: written.row + 1 };
            if moved.row >= 25 {
                spec_scroll(moved)
            } else {
                moved
            }
        } else {
            written
        }
    }
}

/// The screen after printing a byte sequence, one byte at a time.
pub open spec fn spec_print(v: VgaView, bs: Seq<u8>) -> VgaView
    decreases bs.len(),
{
    if bs.len() == 0 {
        v
    } else {
        spec_print(spec_put_char(v, bs[0]), bs.drop_first())
    }
}

/// The owned console: 80x25 cells of two bytes each and the cursor.
pub struct Vga {
    cells: Vec<u8>,
    col: usize,
    row: usize,
}

impl View for Vga {
    type V = VgaView;

    closed spec fn view(&self) -> VgaView {
        VgaView { cells: self.cells@, col: self.col as int, row: self.row as int }
    }
}

impl Vga {
    /// The console is well formed: exactly 80x25 cells and the cursor inside
    /// the screen.
    pub closed spec fn wf(self) -> bool {
        self.cells@.len() == 4000 && self.col < 80 && self.row < 25
    }

    /// A fresh, blank console with the cursor at the top left corner.
    pub fn new() -> (r: Vga)
        ensures
            r.wf(),
            r@ == (VgaView { cells: spec_blank_cells(), col: 0, row: 0 }),
    {
        let mut cells: Vec<u8> = Vec::new();
        let mut i: usize = 0;
        while i < 2000
            invariant
                i <= 2000,
                cells@.len() == 2 * i,
                forall|j: int| 0 <= j < 2 * i ==> cells@[j] == (if j % 2 == 0 { 32u8 } else { 15u8 }),
            decreases 2000 - i,
        {
            cells.push(32u8);
            cells.push(15u8);
            i += 1;
        }
        let r = Vga { cells, col: 0, row: 0 };
        proof {
            assert(r@.cells =~= spec_blank_cells());
            assert(r@ =~= (VgaView { cells: spec_blank_cells(), col: 0, row: 0 }));
        }
        r
    }

    /// Blanks every cell and brings the cursor back to the top left corner.
    pub fn clear(&mut self)
        requires
            old(self).wf(),
        ensures
            final(self).wf(),
            final(self)@ == (VgaView { cells: spec_blank_cells(), col: 0, row: 0 }),
    {
        self.col = 0;
        self.row = 0;
        let mut i: usize = 0;
        while i < 2000
            invariant
                i <= 2000,
                self.cells@.len() == 4000,
                self.col == 0,
                self.row == 0,
                forall|j: int| 0 <= j < 2 * i ==> self.cells@[j] == (if j % 2 == 0 {
                    32u8
                } else {
                    15u8
                }),
            decreases 2000 - i,
        {
            self.cells[i * 2] = 32u8;
            self.cells[i * 2 + 1] = 15u8;
            i += 1;
        }
        proof {
            assert(self@.cells =~= spec_blank_cells());
            assert(self@ =~= (VgaView { cells: spec_blank_cells(), col: 0, row: 0 }));
        }
    }

    /// Scrolls the screen up one line and moves the cursor row up with it.
    /// Called when the cursor row has just advanced, so the row may equal 25
    /// on entry; it is back inside the screen on exit.
    fn scroll(&mut self)
        requires
            old(self).cells@.len() == 4000,
            old(self).col < 80,
            old(self).row <= 25,
        ensures
            final(self).wf(),
            final(self)@ == spec_scroll(old(self)@),
    {
        let mut r: usize = 1;
        while r < 25
            invariant
                1 <= r <= 25,
                self.cells@.len() == 4000,
                self.col == old(self).col,
                self.row == old(self).row,
                forall|j: int|
                    0 <= j < (r - 1) * 160 ==> self.cells@[j] == old(self).cells@[j + 160],
                forall|j: int|
                    (r - 1) * 160 <= j < 4000 ==> self.cells@[j] == old(self).cells@[j],
            decreases 25 - r,
        {
            let mut c: usize = 0;
            while c < 80
                invariant
                    1 <= r < 25,
                    c <= 80,
                    self.cells@.len() == 4000,
                    self.col == old(self).col,
                    self.row == old(self).row,
                    forall|j: int|
                        0 <= j < (r - 1) * 160 + 2 * c ==> self.cells@[j] == old(self).cells@[j
                            + 160],
                    forall|j: int|
                        (r - 1) * 160 + 2 * c <= j < 4000 ==> self.cells@[j] == old(
                            self,
                        ).cells@[j],
                decreases 80 - c,
            {
                let src = (r * 80 + c) * 2;
                let dst = ((r - 1) * 80 + c) * 2;
                let lo = self.cells[src];
                let hi = self.cells[src + 1];
                self.cells[dst] = lo;
                self.cells[dst + 1] = hi;
                c += 1;
            }
            r += 1;
        }
        let mut c: usize = 0;
        while c < 80
            invariant
                c <= 80,
                self.cells@.len() == 4000,
                self.col == old(self).col,
                self.row == old(self).row,
                forall|j: int| 0 <= j < 3840 ==> self.cells@[j] == old(self).cells@[j + 160],
                forall|j: int|
                    3840 <= j < 3840 + 2 * c ==> self.cells@[j] == (if j % 2 == 0 {
                        32u8
                    } else {
                        15u8
                    }),
            decreases 80 - c,
        {
            let pos = (24 * 80 + c) * 2;
            self.cells[pos] = 32u8;
            self.cells[pos + 1] = 15u8;
            c += 1;
        }
        if self.row > 0 {
            self.row -= 1;
        }
        proof {
            assert(self@.cells =~= spec_scrolled_cells(old(self)@.cells));
            assert(self@ =~= spec_scroll(old(self)@));
        }
    }

    /// Writes one byte at the cursor as `spec_put_char` describes.
    fn put_char(&mut self, c: u8)
        requires
            old(self).wf(),
        ensures
            final(self).wf(),
            final(self)@ == spec_put_char(old(self)@, c),
    {
        if c == 10u8 {
            self.col = 0;
            self.row = self.row + 1;
            if self.row >= 25 {
                self.scroll();
            }
            proof {
                assert(self@ =~= spec_put_char(old(self)@, c));
            }
        } else {
            let pos = (self.row * 80 + self.col) * 2;
            self.cells[pos] = c;
            self.cells[pos + 1] = 15u8;
            self.col += 1;
            if self.col >= 80 {
                self.col = 0;
                self.row += 1;
                if self.row >= 25 {
                    self.scroll();
                }
            }
            proof {
                assert(self@ =~= spec_put_char(old(self)@, c));
            }
        }
    }

    /// The two bytes (character, attribute) of the cell at the given
    /// position; the shell reads the screen through this.
    pub fn cell_at(&self, row: usize, col: usize) -> (r: (u8, u8))
        requires
            self.wf(),
            row < 25,
            col < 80,
        ensures
            r.0 == self@.cells[(row * 80 + col) * 2],
            r.1 == self@.cells[(row * 80 + col) * 2 + 1],
    {
        let pos = (row * 80 + col) * 2;
        (self.cells[pos], self.cells[pos + 1])
    }

    /// The cursor position, as (column, row).
    pub fn cursor(&self) -> (r: (usize, usize))
        ensures
            r.0 as int == self@.col,
            r.1 as int == self@.row,
    {
        (self.col, self.row)
    }

    /// Prints the UTF-8 bytes of the text, byte by byte, at the cursor.
    /// Diagnostics only: the controller's correctness never depends on it.
    pub fn print(&mut self, s: &str)
        requires
            old(self).wf(),
        ensures
            final(self).wf(),
            final(self)@ == spec_print(old(self)@, s.spec_bytes()),
    {
        let bytes = s.as_bytes();
        let ghost bs = bytes@;
        proof {
            assert(bs.subrange(0, bs.len() as int) =~= bs);
        }
        let mut i: usize = 0;
        while i < bytes.len()
            invariant
                i <= bs.len(),
                bytes@ == bs,
                self.wf(),
                spec_print(old(self)@, bs) == spec_print(self@, bs.subrange(i as int, bs.len() as int)),
            decreases bs.len() - i,
        {
            let ghost pre = self@;
            self.put_char(bytes[i]);
            proof {
                let sub = bs.subrange(i as int, bs.len() as int);
                assert(sub[0] == bs[i as int]);
                assert(sub.drop_first() =~= bs.subrange(i + 1, bs.len() as int));
                assert(spec_print(pre, sub) == spec_print(self@, sub.drop_first()));
            }
            i += 1;
        }
        proof {
            assert(bs.subrange(bs.len() as int, bs.len() as int) =~= Seq::<u8>::empty());
        }
    }
}

} // verus!
