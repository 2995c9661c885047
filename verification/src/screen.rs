//! The display buffer: a 64x32 one-bit-per-pixel grid, mutated only by XOR
//! sprite blits. Horizontal positions wrap around the 64-pixel width; rows
//! are clipped, not wrapped, at the 32-pixel height. Every pixel whose value
//! flips is reported once, and a flag says whether any set pixel was erased.

use vstd::prelude::*;

verus! {

/// Width of the display in pixels.
pub const SCREEN_WIDTH: usize = 64;

/// Height of the display in pixels.
pub const SCREEN_HEIGHT: usize = 32;

/// Number of pixels in the display.
pub const SCREEN_CELLS: usize = 2048;

/// The transition one pixel made during a draw.
#[derive(Clone, Copy, Debug, PartialEq, Eq, Structural)]
pub enum PixelState {
    /// The pixel was unset and became set.
    Drawn,
    /// The pixel was set and became unset.
    Erased,
}

/// One reported pixel transition: which pixel flipped, and which way.
#[derive(Clone, Copy, Debug)]
pub struct DrawMessage {
    /// The (x, y) position of the pixel.
    pub pos: (u8, u8),
    /// Whether the pixel was drawn or erased.
    pub state: PixelState,
}

/// Whether the sprite row byte has its pixel set at the given column;
/// column 0 is the leftmost pixel, held in the highest bit.
pub open spec fn sprite_bit(byte: u8, col: int) -> bool {
    ((byte >> ((7 - col) as u8)) & 1) == 1
}

/// The sprite column that covers screen column `x` when the sprite is drawn
/// at column `x0`, counting wrap-around at the 64-pixel width.
pub open spec fn col_offset(x0: int, x: int) -> int {
    if x >= x0 {
        x - x0
    } else {
        x - x0 + 64
    }
}

/// Whether blitting `sprite` at (x0, y0) flips the pixel at (x, y): the
/// pixel lies in a sprite row (rows below the screen are clipped), in one of
/// the eight columns counted with wrap-around, and the sprite bit there is
/// set.
pub open spec fn sprite_flips(sprite: Seq<u8>, x0: int, y0: int, x: int, y: int) -> bool {
    let row = y - y0;
    let col = col_offset(x0, x);
    0 <= row < sprite.len() && 0 <= col < 8 && sprite_bit(sprite[row], col)
}

/// As `sprite_flips`, restricted to the sprite cells that come before row
/// `rows`, or in row `rows` before column `cols`, in row-major order.
pub open spec fn sprite_flips_upto(
    sprite: Seq<u8>,
    x0: int,
    y0: int,
    x: int,
    y: int,
    rows: int,
    cols: int,
) -> bool {
    let row = y - y0;
    let col = col_offset(x0, x);
    &&& 0 <= row < sprite.len()
    &&& 0 <= col < 8
    &&& (row < rows || (row == rows && col < cols))
    &&& sprite_bit(sprite[row], col)
}

/// The grid after blitting `sprite` at (x0, y0): every covered pixel with a
/// set sprite bit is flipped, all others are unchanged.
pub open spec fn blit(grid: Seq<bool>, x0: int, y0: int, sprite: Seq<u8>) -> Seq<bool> {
    Seq::new(grid.len(), |i: int| grid[i] != sprite_flips(sprite, x0, y0, i % 64, i / 64))
}

/// Whether blitting `sprite` at (x0, y0) erases at least one set pixel of
/// `grid`: the collision condition.
pub open spec fn blit_erases(grid: Seq<bool>, x0: int, y0: int, sprite: Seq<u8>) -> bool {
    exists|i: int|
        0 <= i < grid.len() && grid[i] && sprite_flips(sprite, x0, y0, i % 64, i / 64)
}

/// Whether one reported transition is true of the draw: its pixel is on the
/// screen, the blit flips that pixel, and the direction matches the pixel's
/// prior value.
pub open spec fn msg_wf(
    grid: Seq<bool>,
    x0: int,
    y0: int,
    sprite: Seq<u8>,
    m: DrawMessage,
) -> bool {
    &&& m.pos.0 < 64
    &&& m.pos.1 < 32
    &&& sprite_flips(sprite, x0, y0, m.pos.0 as int, m.pos.1 as int)
    &&& m.state == if grid[m.pos.1 as int * 64 + m.pos.0 as int] {
        PixelState::Erased
    } else {
        PixelState::Drawn
    }
}

/// The 64x32 one-bit-per-pixel display buffer, row-major: the pixel at
/// (x, y) is cell y*64 + x.
pub struct Screen {
    /// The pixel grid, row-major.
    pub cells: Vec<bool>,
}

impl Screen {
    /// Well-formedness: one cell per pixel.
    pub open spec fn wf(&self) -> bool {
        self.cells@.len() == 2048
    }

    /// The pixel at (x, y) in the model of this screen.
    pub open spec fn pixel(&self, x: int, y: int) -> bool {
        self.cells@[y * 64 + x]
    }

    /// Create a screen with every pixel unset.
    pub fn new() -> (s: Screen)
        ensures
            s.wf(),
            forall|i: int| 0 <= i < 2048 ==> !s.cells@[i],
    {
        let mut cells: Vec<bool> = Vec::new();
        let mut i: usize = 0;
        while i < SCREEN_CELLS
            invariant
                i <= 2048,
                cells@.len() == i,
                forall|k: int| 0 <= k < i ==> !cells@[k],
            decreases 2048 - i,
        {
            cells.push(false);
            i = i + 1;
        }
        Screen { cells }
    }

    /// Reset every pixel to unset. No transitions are reported: the caller
    /// clears the external display independently.
    pub fn clear(&mut self)
        requires
            old(self).wf(),
        ensures
            final(self).wf(),
            forall|i: int| 0 <= i < 2048 ==> !final(self).cells@[i],
    {
        let mut i: usize = 0;
        while i < SCREEN_CELLS
            invariant
                i <= 2048,
                self.cells@.len() == 2048,
                forall|k: int| 0 <= k < i ==> !self.cells@[k],
            decreases 2048 - i,
        {
            self.cells.set(i, false);
            i = i + 1;
        }
    }

    /// The pixel at (x, y).
    pub fn is_set(&self, x: u8, y: u8) -> (r: bool)
        requires
            self.wf(),
            x < 64,
            y < 32,
        ensures
            r == self.pixel(x as int, y as int),
    {
        self.cells[y as usize * 64 + x as usize]
    }

    /// XOR-blit a sprite whose rows start at (pos.0 mod 64, pos.1 mod 32).
    /// Returns every pixel transition, each flipped pixel reported exactly
    /// once, and a flag that is true iff some previously-set pixel became
    /// unset — the new collision flag value.
    pub fn draw(&mut self, pos: (u8, u8), sprite: &Vec<u8>) -> (r: (Vec<DrawMessage>, bool))
        requires
            old(self).wf(),
        ensures
            final(self).wf(),
            final(self).cells@ == blit(
                old(self).cells@,
                (pos.0 % 64) as int,
                (pos.1 % 32) as int,
                sprite@,
            ),
            r.1 == blit_erases(
                old(self).cells@,
                (pos.0 % 64) as int,
                (pos.1 % 32) as int,
                sprite@,
            ),
            forall|k: int|
                0 <= k < r.0@.len() ==> msg_wf(
                    old(self).cells@,
                    (pos.0 % 64) as int,
                    (pos.1 % 32) as int,
                    sprite@,
                    r.0@[k],
                ),
            forall|x: int, y: int|
                0 <= x < 64 && 0 <= y < 32 && #[trigger] sprite_flips(
                    sprite@,
                    (pos.0 % 64) as int,
                    (pos.1 % 32) as int,
                    x,
                    y,
                ) ==> exists|k: int|
                    0 <= k < r.0@.len() && (#[trigger] r.0@[k]).pos == (x as u8, y as u8),
            forall|k1: int, k2: int|
                0 <= k1 < k2 < r.0@.len() ==> r.0@[k1].pos != r.0@[k2].pos,
    {
        let x0 = (pos.0 % 64) as usize;
        let y0 = (pos.1 % 32) as usize;
        let ghost gx0 = x0 as int;
        let ghost gy0 = y0 as int;
        let ghost g_old = self.cells@;
        let ghost s = sprite@;
        let mut msgs: Vec<DrawMessage> = Vec::new();
        let mut erased = false;
        let mut row: usize = 0;
        while row < sprite.len()
            invariant
                self.wf(),
                x0 < 64,
                y0 < 32,
                gx0 == x0 as int,
                gy0 == y0 as int,
                g_old.len() == 2048,
                s == sprite@,
                row <= s.len(),
                forall|i: int|
                    0 <= i < 2048 ==> self.cells@[i] == (g_old[i] != sprite_flips_upto(
                        s,
                        gx0,
                        gy0,
                        i % 64,
                        i / 64,
                        row as int,
                        0,
                    )),
                erased == exists|i: int|
                    0 <= i < 2048 && g_old[i] && sprite_flips_upto(
                        s,
                        gx0,
                        gy0,
                        i % 64,
                        i / 64,
                        row as int,
                        0,
                    ),
                forall|k: int| 0 <= k < msgs@.len() ==> msg_wf(g_old, gx0, gy0, s, msgs@[k]),
                forall|k: int|
                    0 <= k < msgs@.len() ==> sprite_flips_upto(
                        s,
                        gx0,
                        gy0,
                        msgs@[k].pos.0 as int,
                        msgs@[k].pos.1 as int,
                        row as int,
                        0,
                    ),
                forall|x: int, y: int|
                    0 <= x < 64 && 0 <= y < 32 && sprite_flips_upto(
                        s,
                        gx0,
                        gy0,
                        x,
                        y,
                        row as int,
                        0,
                    ) ==> exists|k: int|
                        0 <= k < msgs@.len() && (#[trigger] msgs@[k]).pos == (x as u8, y as u8),
                forall|k1: int, k2: int|
                    0 <= k1 < k2 < msgs@.len() ==> msgs@[k1].pos != msgs@[k2].pos,
            decreases s.len() - row,
        {
            let byte = sprite[row];
            if row < 32 && y0 + row < 32 {
                let py = y0 + row;
                let mut col: usize = 0;
                while col < 8
                    invariant
                        self.wf(),
                        x0 < 64,
                        y0 < 32,
                        gx0 == x0 as int,
                        gy0 == y0 as int,
                        g_old.len() == 2048,
                        s == sprite@,
                        row < s.len(),
                        py == y0 + row,
                        py < 32,
                        byte == s[row as int],
                        col <= 8,
                        forall|i: int|
                            0 <= i < 2048 ==> self.cells@[i] == (g_old[i] != sprite_flips_upto(
                                s,
                                gx0,
                                gy0,
                                i % 64,
                                i / 64,
                                row as int,
                                col as int,
                            )),
                        erased == exists|i: int|
                            0 <= i < 2048 && g_old[i] && sprite_flips_upto(
                                s,
                                gx0,
                                gy0,
                                i % 64,
                                i / 64,
                                row as int,
                                col as int,
                            ),
                        forall|k: int|
                            0 <= k < msgs@.len() ==> msg_wf(g_old, gx0, gy0, s, msgs@[k]),
                        forall|k: int|
                            0 <= k < msgs@.len() ==> sprite_flips_upto(
                                s,
                                gx0,
                                gy0,
                                msgs@[k].pos.0 as int,
                                msgs@[k].pos.1 as int,
                                row as int,
                                col as int,
                            ),
                        forall|x: int, y: int|
                            0 <= x < 64 && 0 <= y < 32 && sprite_flips_upto(
                                s,
                                gx0,
                                gy0,
                                x,
                                y,
                                row as int,
                                col as int,
                            ) ==> exists|k: int|
                                0 <= k < msgs@.len() && (#[trigger] msgs@[k]).pos == (
                                    x as u8,
                                    y as u8,
                                ),
                        forall|k1: int, k2: int|
                            0 <= k1 < k2 < msgs@.len() ==> msgs@[k1].pos != msgs@[k2].pos,
                    decreases 8 - col,
                {
                    let sh: u8 = (7 - col) as u8;
                    if ((byte >> sh) & 1) == 1 {
                        let px = (x0 + col) % 64;
                        let idx = py * 64 + px;
                        proof {
                            assert(idx % 64 == px && idx / 64 == py);
                            assert(col_offset(gx0, px as int) == col as int);
                        }
                        let was = self.cells[idx];
                        self.cells.set(idx, !was);
                        let ghost msgs_pre = msgs@;
                        let m = DrawMessage {
                            pos: (px as u8, py as u8),
                            state: if was {
                                PixelState::Erased
                            } else {
                                PixelState::Drawn
                            },
                        };
                        msgs.push(m);
                        if was {
                            erased = true;
                        }
                        proof {
                            assert forall|i: int| 0 <= i < 2048 && i != idx implies
                                #[trigger] sprite_flips_upto(s, gx0, gy0, i % 64, i / 64,
                                    row as int, col as int + 1) == sprite_flips_upto(s, gx0, gy0,
                                    i % 64, i / 64, row as int, col as int) by {
                                assert(i == 64 * (i / 64) + i % 64);
                            }
                            assert(sprite_flips_upto(s, gx0, gy0, px as int, py as int,
                                row as int, col as int + 1));
                            assert(!sprite_flips_upto(s, gx0, gy0, px as int, py as int,
                                row as int, col as int));
                            assert(g_old[idx as int] == was);
                            if was {
                                assert(g_old[idx as int] && sprite_flips_upto(s, gx0, gy0,
                                    idx as int % 64, idx as int / 64, row as int, col as int + 1));
                            }
                            if erased && !was {
                                let i0 = choose|i: int|
                                    0 <= i < 2048 && g_old[i] && sprite_flips_upto(s, gx0, gy0,
                                        i % 64, i / 64, row as int, col as int);
                                assert(g_old[i0] && sprite_flips_upto(s, gx0, gy0, i0 % 64,
                                    i0 / 64, row as int, col as int + 1));
                            }
                            assert(msg_wf(g_old, gx0, gy0, s, m));
                            assert forall|x: int, y: int|
                                0 <= x < 64 && 0 <= y < 32 && #[trigger] sprite_flips_upto(s, gx0,
                                    gy0, x, y, row as int, col as int + 1) implies exists|k: int|
                                    0 <= k < msgs@.len() && (#[trigger] msgs@[k]).pos == (
                                        x as u8,
                                        y as u8,
                                    ) by {
                                if x == px as int && y == py as int {
                                    assert(msgs@[msgs@.len() - 1].pos == (x as u8, y as u8));
                                } else {
                                    assert(sprite_flips_upto(s, gx0, gy0, x, y, row as int,
                                        col as int));
                                    let k0 = choose|k: int|
                                        0 <= k < msgs_pre.len() && (#[trigger] msgs_pre[k]).pos
                                            == (x as u8, y as u8);
                                    assert(msgs@[k0].pos == (x as u8, y as u8));
                                }
                            }
                        }
                    } else {
                        proof {
                            assert(!sprite_bit(s[row as int], col as int));
                            assert(forall|x: int, y: int|
                                #[trigger] sprite_flips_upto(s, gx0, gy0, x, y, row as int,
                                    col as int + 1) == sprite_flips_upto(s, gx0, gy0, x, y,
                                    row as int, col as int));
                        }
                    }
                    col = col + 1;
                }
                proof {
                    assert(forall|x: int, y: int|
                        #[trigger] sprite_flips_upto(s, gx0, gy0, x, y, row as int + 1, 0)
                            == sprite_flips_upto(s, gx0, gy0, x, y, row as int, 8));
                }
            } else {
                proof {
                    assert forall|x: int, y: int| 0 <= y < 32 implies
                        #[trigger] sprite_flips_upto(s, gx0, gy0, x, y, row as int + 1, 0)
                            == sprite_flips_upto(s, gx0, gy0, x, y, row as int, 0) by {}
                }
            }
            row = row + 1;
        }
        proof {
            assert(forall|x: int, y: int|
                #[trigger] sprite_flips(s, gx0, gy0, x, y) == sprite_flips_upto(
                    s,
                    gx0,
                    gy0,
                    x,
                    y,
                    s.len() as int,
                    0,
                ));
            assert(self.cells@ =~= blit(g_old, gx0, gy0, s));
        }
        (msgs, erased)
    }
}

/// Drawing the same sprite twice at the same position returns the buffer to
/// its prior state: the XOR blit is its own inverse. Moreover, the pixels
/// the second blit erases are exactly those the first blit set.
pub proof fn lemma_draw_self_inverse(grid: Seq<bool>, x0: int, y0: int, sprite: Seq<u8>)
    requires
        grid.len() == 2048,
    ensures
        blit(blit(grid, x0, y0, sprite), x0, y0, sprite) == grid,
        forall|x: int, y: int|
            0 <= x < 64 && 0 <= y < 32 ==> ((sprite_flips(sprite, x0, y0, x, y) && blit(
                grid,
                x0,
                y0,
                sprite,
            )[y * 64 + x]) <==> (sprite_flips(sprite, x0, y0, x, y) && !grid[y * 64 + x])),
{
    assert(blit(blit(grid, x0, y0, sprite), x0, y0, sprite) =~= grid);
    assert forall|x: int, y: int| 0 <= x < 64 && 0 <= y < 32 implies ((sprite_flips(
        sprite,
        x0,
        y0,
        x,
        y,
    ) && blit(grid, x0, y0, sprite)[y * 64 + x]) <==> (sprite_flips(sprite, x0, y0, x, y)
        && !grid[y * 64 + x])) by {
        let i = y * 64 + x;
        assert(0 <= i < 2048);
        assert(i % 64 == x && i / 64 == y);
    }
}

/// Horizontal wrap-around: a sprite column that passes the right edge lands
/// at the left edge. In particular, with the sprite at column 57 its
/// rightmost column wraps to x = 0.
pub proof fn lemma_draw_wraps(sprite: Seq<u8>, x0: int, y0: int, row: int, col: int)
    requires
        0 <= x0 < 64,
        0 <= y0 < 32,
        0 <= row < sprite.len(),
        y0 + row < 32,
        0 <= col < 8,
        x0 + col >= 64,
    ensures
        sprite_flips(sprite, x0, y0, x0 + col - 64, y0 + row) == sprite_bit(sprite[row], col),
{
    assert(col_offset(x0, x0 + col - 64) == col);
}

} // verus!
