//! The rasterizer: a dot-matrix character grid built fresh each frame from
//! the particle set. Each character cell holds a 2 (horizontal) by 4
//! (vertical) pattern of independently addressable sub-dots, rendered as the
//! braille glyph whose bits encode exactly which sub-dots are set.

use vstd::prelude::*;
use crate::point::{Point, SCALE};
use crate::particle::Particle;

verus! {

/// The braille codepoint block starts here: the glyph for a cell is
/// `BRAILLE_BASE + bits`, each bit one sub-dot.
pub const BRAILLE_BASE: u32 = 0x2800;

/// The braille bit for the sub-dot at column `bx` (0..2) and row `by` (0..4):
/// the standard braille dot layout (dots 1-3 and 7 in the left column, 4-6
/// and 8 in the right).
pub open spec fn dot_mask(bx: int, by: int) -> u8 {
    if by == 0 {
        if bx == 0 {
            0x01u8
        } else {
            0x08u8
        }
    } else if by == 1 {
        if bx == 0 {
            0x02u8
        } else {
            0x10u8
        }
    } else if by == 2 {
        if bx == 0 {
            0x04u8
        } else {
            0x20u8
        }
    } else {
        if bx == 0 {
            0x40u8
        } else {
            0x80u8
        }
    }
}

/// The grid after the point `l` is plotted: a point with a negative
/// coordinate, or one at or past the sub-cell bounds, is dropped; otherwise
/// its position is truncated to integer sub-cell coordinates `(x, y)` and the
/// sub-dot `(x % 2, y % 4)` of cell `(x / 2, y / 4)` is set.
pub open spec fn plot(grid: Seq<u8>, cols: int, rows: int, l: Point) -> Seq<u8> {
    if l.x < 0 || l.y < 0 {
        grid
    } else {
        let sx = l.x / SCALE;
        let sy = l.y / SCALE;
        if sx >= cols * 2 || sy >= rows * 4 {
            grid
        } else {
            let idx = (sy / 4) * cols + sx / 2;
            grid.update(idx, grid[idx] | dot_mask(sx % 2, sy % 4))
        }
    }
}

/// The grid after every particle of `s` is plotted, in order, on an
/// all-blank `cols` by `rows` grid.
pub open spec fn grid_of(s: Seq<Particle>, cols: int, rows: int) -> Seq<u8>
    decreases s.len(),
{
    if s.len() == 0 {
        Seq::new((cols * rows) as nat, |i: int| 0u8)
    } else {
        plot(grid_of(s.drop_last(), cols, rows), cols, rows, s.last().l)
    }
}

/// The character sequence `t` renders the grid: row-major, one braille glyph
/// per cell, rows separated (not terminated) by a newline.
pub open spec fn text_matches(t: Seq<char>, grid: Seq<u8>, cols: int, rows: int) -> bool {
    &&& t.len() == (if rows == 0 {
        0int
    } else {
        rows * (cols + 1) - 1
    })
    &&& forall|r: int, c: int|
        0 <= r < rows && 0 <= c < cols ==> (#[trigger] t[r * (cols + 1) + c]) as u32
            == BRAILLE_BASE + grid[r * cols + c]
    &&& forall|r: int| 0 <= r < rows - 1 ==> #[trigger] t[r * (cols + 1) + cols] == '\n'
}

/// A dot-matrix grid of `cols` by `rows` character cells; each byte holds one
/// cell's eight sub-dots.
pub struct Screen {
    /// The cells, row-major.
    pub cells: Vec<u8>,
    /// Width in character cells.
    pub cols: usize,
    /// Height in character cells.
    pub rows: usize,
}

impl Screen {
    /// One byte per cell, and dimensions small enough to index safely.
    pub open spec fn wf(self) -> bool {
        &&& self.cells@.len() == self.cols * self.rows
        &&& self.cols <= 0xFFFF
        &&& self.rows <= 0xFFFF
    }

    /// An all-blank grid of `cols` by `rows` cells.
    pub fn new(cols: usize, rows: usize) -> (r: Screen)
        requires
            cols <= 0xFFFF,
            rows <= 0xFFFF,
        ensures
            r.wf(),
            r.cols == cols && r.rows == rows,
            r.cells@ == Seq::new((cols * rows) as nat, |i: int| 0u8),
    {
        proof {
            assert(cols * rows <= 0xFFFF * 0xFFFF) by (nonlinear_arith)
                requires
                    cols <= 0xFFFF,
                    rows <= 0xFFFF,
            ;
        }
        let n: usize = cols * rows;
        let mut cells: Vec<u8> = Vec::new();
        let mut i: usize = 0;
        while i < n
            invariant
                0 <= i <= n,
                cells@.len() == i,
                forall|k: int| 0 <= k < i ==> cells@[k] == 0u8,
            decreases n - i,
        {
            cells.push(0u8);
            i = i + 1;
        }
        let r = Screen { cells, cols, rows };
        proof {
            assert(r.cells@ =~= Seq::new((cols * rows) as nat, |i: int| 0u8));
        }
        r
    }

    /// The sub-dot bits of the cell at `(col, row)`.
    pub fn cell_bits(&self, col: usize, row: usize) -> (r: u8)
        requires
            self.wf(),
            col < self.cols,
            row < self.rows,
        ensures
            r == self.cells@[row * self.cols + col],
    {
        proof {
            assert(row * self.cols + col < self.cols * self.rows && row * self.cols + col
                < 0x1_0000_0000) by (nonlinear_arith)
                requires
                    col < self.cols <= 0xFFFF,
                    row < self.rows <= 0xFFFF,
            ;
        }
        self.cells[row * self.cols + col]
    }

    /// Plot one point: set the sub-dot its truncated sub-cell coordinates
    /// fall on, or drop it when it lies outside the grid (see `plot`).
    pub fn add(&mut self, l: &Point)
        requires
            old(self).wf(),
        ensures
            final(self).cells@ == plot(
                old(self).cells@,
                old(self).cols as int,
                old(self).rows as int,
                *l,
            ),
            final(self).cols == old(self).cols && final(self).rows == old(self).rows,
            final(self).wf(),
    {
        if l.x < 0 || l.y < 0 {
            return ;
        }
        let sx: u64 = (l.x as u64) / (SCALE as u64);
        let sy: u64 = (l.y as u64) / (SCALE as u64);
        if sx >= 2 * (self.cols as u64) || sy >= 4 * (self.rows as u64) {
            return ;
        }
        let col: usize = (sx / 2) as usize;
        let row: usize = (sy / 4) as usize;
        let bx: u64 = sx % 2;
        let by: u64 = sy % 4;
        let mask: u8 = if by == 0 {
            if bx == 0 {
                0x01u8
            } else {
                0x08u8
            }
        } else if by == 1 {
            if bx == 0 {
                0x02u8
            } else {
                0x10u8
            }
        } else if by == 2 {
            if bx == 0 {
                0x04u8
            } else {
                0x20u8
            }
        } else {
            if bx == 0 {
                0x40u8
            } else {
                0x80u8
            }
        };
        proof {
            assert(row * self.cols + col < self.cols * self.rows && row * self.cols + col
                < 0x1_0000_0000) by (nonlinear_arith)
                requires
                    col < self.cols <= 0xFFFF,
                    row < self.rows <= 0xFFFF,
            ;
        }
        let idx: usize = row * self.cols + col;
        let cur: u8 = self.cells[idx];
        self.cells[idx] = cur | mask;
    }

    /// Serialize the grid: one braille glyph per cell, row-major, rows
    /// separated by newlines.
    pub fn to_text(&self) -> (r: String)
        requires
            self.wf(),
        ensures
            text_matches(r@, self.cells@, self.cols as int, self.rows as int),
    {
        let cols: usize = self.cols;
        let rows: usize = self.rows;
        let mut out: Vec<char> = Vec::new();
        let mut r: usize = 0;
        while r < rows
            invariant
                self.wf(),
                cols == self.cols && rows == self.rows,
                0 <= r <= rows,
                out@.len() == (if r < rows || rows == 0 {
                    r * (cols + 1)
                } else {
                    rows * (cols + 1) - 1
                }),
                forall|rr: int, cc: int|
                    0 <= rr < r && 0 <= cc < cols ==> (#[trigger] out@[rr * (cols + 1) + cc]) as u32
                        == BRAILLE_BASE + self.cells@[rr * cols + cc],
                forall|rr: int| 0 <= rr < r - 1 ==> #[trigger] out@[rr * (cols + 1) + cols] == '\n',
                r > 0 && r < rows ==> out@[(r - 1) * (cols + 1) + cols] == '\n',
            decreases rows - r,
        {
            proof {
                assert forall|rr: int| 0 <= rr < r implies #[trigger] (rr * ((cols + 1) as int))
                    + cols < r * ((cols + 1) as int) by {
                    assert((rr + 1) * ((cols + 1) as int) <= r * ((cols + 1) as int) && (rr + 1) * (
                    (cols + 1) as int) == rr * ((cols + 1) as int) + cols + 1) by (nonlinear_arith)
                        requires
                            0 <= rr,
                            rr + 1 <= r as int,
                            cols >= 0,
                    ;
                }
            }
            let mut c: usize = 0;
            while c < cols
                invariant
                    self.wf(),
                    cols == self.cols && rows == self.rows,
                    0 <= r < rows,
                    0 <= c <= cols,
                    out@.len() == r * (cols + 1) + c,
                    forall|rr: int, cc: int|
                        0 <= rr < r && 0 <= cc < cols ==> (#[trigger] out@[rr * (cols + 1)
                            + cc]) as u32 == BRAILLE_BASE + self.cells@[rr * cols + cc],
                    forall|rr: int|
                        0 <= rr < r - 1 ==> #[trigger] out@[rr * (cols + 1) + cols] == '\n',
                    r > 0 ==> out@[(r - 1) * (cols + 1) + cols] == '\n',
                    forall|cc: int|
                        0 <= cc < c ==> (#[trigger] out@[r * (cols + 1) + cc]) as u32
                            == BRAILLE_BASE + self.cells@[r * cols + cc],
                    forall|rr: int|
                        0 <= rr < r ==> #[trigger] (rr * ((cols + 1) as int)) + cols < r * ((cols
                            + 1) as int),
                decreases cols - c,
            {
                proof {
                    assert(r * cols + c < cols * rows && cols * rows <= 0xFFFF * 0xFFFF)
                        by (nonlinear_arith)
                        requires
                            0 <= c < cols <= 0xFFFF,
                            0 <= r < rows <= 0xFFFF,
                    ;
                }
                let bits: u8 = self.cells[r * cols + c];
                let glyph: char = char_of_scalar(BRAILLE_BASE + bits as u32);
                out.push(glyph);
                c = c + 1;
            }
            if r + 1 < rows {
                out.push('\n');
            }
            proof {
                assert((r + 1) * ((cols + 1) as int) == r * ((cols + 1) as int) + cols + 1)
                    by (nonlinear_arith);
            }
            r = r + 1;
        }
        string_from_chars(&out)
    }
}

/// Relies on char::from_u32: every value in the braille block is a Unicode
/// scalar value (no surrogates there), so the conversion succeeds and the
/// char converts back to the given value.
#[verifier::external_body]
fn char_of_scalar(u: u32) -> (r: char)
    requires
        0x2800 <= u <= 0x28FF,
    ensures
        r as u32 == u,
{
    char::from_u32(u).unwrap()
}

/// Relies on String's FromIterator over char: collecting characters yields
/// exactly that character sequence.
#[verifier::external_body]
fn string_from_chars(v: &Vec<char>) -> (r: String)
    ensures
        r@ == v@,
{
    v.iter().collect()
}

} // verus!
