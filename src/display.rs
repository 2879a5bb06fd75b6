use vstd::prelude::*;

verus! {

/// Width of the pixel grid.
pub const WIDTH: usize = 64;

/// Height of the pixel grid.
pub const HEIGHT: usize = 32;

/// Number of pixels in the grid.
pub const PIXELS: usize = 2048;

/// Bit `col` of a sprite row, counting from the most significant bit.
pub open spec fn bit_of(byte: u8, col: int) -> bool {
    (byte >> ((7 - col) as u8)) & 1u8 == 1u8
}

/// Column of pixel `p` in the row-major grid.
pub open spec fn col_of(p: int) -> int {
    p % (WIDTH as int)
}

/// Row of pixel `p` in the row-major grid.
pub open spec fn row_of(p: int) -> int {
    p / (WIDTH as int)
}

/// Whether an 8-pixel row `byte` drawn at `(x, y)` has a set bit on pixel `(px, py)`,
/// with both coordinates wrapping around the grid.
pub open spec fn row_bit(x: int, y: int, byte: u8, px: int, py: int) -> bool {
    &&& py == y % (HEIGHT as int)
    &&& (px - x) % (WIDTH as int) < 8
    &&& bit_of(byte, (px - x) % (WIDTH as int))
}

/// The screen after XOR-ing one row onto it.
pub open spec fn row_blit(s: Seq<bool>, x: int, y: int, byte: u8) -> Seq<bool> {
    Seq::new(s.len(), |p: int| s[p] != row_bit(x, y, byte, col_of(p), row_of(p)))
}

/// Whether XOR-ing one row onto the screen turns a set pixel off.
pub open spec fn row_collides(s: Seq<bool>, x: int, y: int, byte: u8) -> bool {
    exists|p: int| 0 <= p < s.len() && s[p] && row_bit(x, y, byte, col_of(p), row_of(p))
}

/// Whether a sprite of `rows` drawn at `(x, y)` has a set bit on pixel `(px, py)`.
/// Row `r` of the sprite lands on grid row `(y + r) % HEIGHT`, bit `c` of a row on
/// grid column `(x + c) % WIDTH`.
pub open spec fn sprite_bit(x: int, y: int, rows: Seq<u8>, px: int, py: int) -> bool {
    let r = (py - y) % (HEIGHT as int);
    let c = (px - x) % (WIDTH as int);
    &&& r < rows.len()
    &&& c < 8
    &&& bit_of(rows[r], c)
}

/// The screen after XOR-ing a whole sprite onto it.
pub open spec fn sprite_blit(s: Seq<bool>, x: int, y: int, rows: Seq<u8>) -> Seq<bool> {
    Seq::new(s.len(), |p: int| s[p] != sprite_bit(x, y, rows, col_of(p), row_of(p)))
}

/// Whether XOR-ing a sprite onto the screen turns a set pixel off.
pub open spec fn sprite_collides(s: Seq<bool>, x: int, y: int, rows: Seq<u8>) -> bool {
    exists|p: int| 0 <= p < s.len() && s[p] && sprite_bit(x, y, rows, col_of(p), row_of(p))
}

/// A screen with every pixel off.
pub open spec fn blank_screen() -> Seq<bool> {
    Seq::new(PIXELS as nat, |p: int| false)
}

/// Drawing the same sprite twice at the same place gives back the screen as it
/// was, and where the sprite has a set bit and all the pixels it covers were off,
/// the second drawing reports a collision.
pub proof fn lemma_draw_twice(s: Seq<bool>, x: int, y: int, rows: Seq<u8>)
    ensures
        sprite_blit(sprite_blit(s, x, y, rows), x, y, rows) == s,
        (exists|p: int| 0 <= p < s.len() && sprite_bit(x, y, rows, col_of(p), row_of(p)))
            && (forall|p: int|
            0 <= p < s.len() && sprite_bit(x, y, rows, col_of(p), row_of(p)) ==> !s[p])
            ==> sprite_collides(sprite_blit(s, x, y, rows), x, y, rows),
{
    assert(sprite_blit(sprite_blit(s, x, y, rows), x, y, rows) =~= s);
    if exists|p: int| 0 <= p < s.len() && sprite_bit(x, y, rows, col_of(p), row_of(p)) {
        let p = choose|p: int| 0 <= p < s.len() && sprite_bit(x, y, rows, col_of(p), row_of(p));
        assert(sprite_blit(s, x, y, rows)[p] == !s[p]);
    }
}

/// A monochrome pixel grid, stored row by row.
pub struct Display {
    pixels: Vec<bool>,
}

impl View for Display {
    type V = Seq<bool>;

    closed spec fn view(&self) -> Seq<bool> {
        self.pixels@
    }
}

impl Display {
    pub open spec fn wf(&self) -> bool {
        self@.len() == PIXELS
    }

    /// A blank screen.
    pub fn new() -> (d: Display)
        ensures
            d.wf(),
            d@ == Seq::new(PIXELS as nat, |p: int| false),
    {
        let d = Display { pixels: vec![false; PIXELS] };
        assert(d@ =~= Seq::new(PIXELS as nat, |p: int| false));
        d
    }

    /// XORs the eight bits of `byte` onto the row `y` starting at column `x`,
    /// most significant bit first, wrapping around the grid. Returns whether a
    /// set pixel was turned off.
    pub fn debug_draw_byte(&mut self, byte: u8, x: u8, y: u8) -> (flipped: bool)
        requires
            old(self).wf(),
        ensures
            final(self).wf(),
            final(self)@ == row_blit(old(self)@, x as int, y as int, byte),
            flipped == row_collides(old(self)@, x as int, y as int, byte),
    {
        let ghost s0 = self.pixels@;
        let mut flipped = false;
        let py: usize = y as usize % HEIGHT;
        let mut col: usize = 0;
        while col < 8
            invariant
                col <= 8,
                py == y as int % (HEIGHT as int),
                s0.len() == PIXELS,
                self.pixels@.len() == PIXELS,
                forall|p: int|
                    0 <= p < PIXELS ==> #[trigger] self.pixels@[p] == (s0[p] != (row_bit(
                        x as int,
                        y as int,
                        byte,
                        col_of(p),
                        row_of(p),
                    ) && (col_of(p) - x) % (WIDTH as int) < col)),
                flipped == exists|p: int|
                    0 <= p < PIXELS && s0[p] && row_bit(x as int, y as int, byte, col_of(p), row_of(p))
                        && (col_of(p) - x) % (WIDTH as int) < col,
            decreases 8 - col,
        {
            let px: usize = (x as usize + col) % WIDTH;
            let idx: usize = py * WIDTH + px;
            let bit: bool = (byte >> ((7 - col) as u8)) & 1u8 == 1u8;
            assert(col_of(idx as int) == px && row_of(idx as int) == py);
            assert((px - x) % (WIDTH as int) == col);
            if bit {
                let cur: bool = self.pixels[idx];
                if cur {
                    flipped = true;
                }
                self.pixels.set(idx, !cur);
            }
            col = col + 1;
        }
        proof {
            assert(self.pixels@ =~= row_blit(s0, x as int, y as int, byte));
        }
        flipped
    }

    /// Turns every pixel off.
    pub fn clear_screen(&mut self)
        requires
            old(self).wf(),
        ensures
            final(self).wf(),
            final(self)@ == blank_screen(),
    {
        self.pixels = vec![false; PIXELS];
        assert(self.pixels@ =~= blank_screen());
    }

    /// Whether the pixel at column `x`, row `y` is set.
    pub fn pixel(&self, x: usize, y: usize) -> (on: bool)
        requires
            self.wf(),
            x < WIDTH,
            y < HEIGHT,
        ensures
            on == self@[y * WIDTH + x],
    {
        self.pixels[y * WIDTH + x]
    }

    /// XORs a sprite of `rows` onto the screen at `(x, y)`, one row per grid
    /// row, wrapping around both edges. Returns whether a set pixel was turned off.
    pub fn draw_sprite(&mut self, x: u8, y: u8, rows: &[u8]) -> (flipped: bool)
        requires
            old(self).wf(),
            rows@.len() <= HEIGHT,
        ensures
            final(self).wf(),
            final(self)@ == sprite_blit(old(self)@, x as int, y as int, rows@),
            flipped == sprite_collides(old(self)@, x as int, y as int, rows@),
    {
        let ghost s0 = self@;
        let mut flipped = false;
        let mut r: usize = 0;
        while r < rows.len()
            invariant
                r <= rows@.len() <= HEIGHT,
                s0.len() == PIXELS,
                self.wf(),
                self@ == sprite_blit(s0, x as int, y as int, rows@.subrange(0, r as int)),
                flipped == sprite_collides(s0, x as int, y as int, rows@.subrange(0, r as int)),
            decreases rows@.len() - r,
        {
            let ry: u8 = ((y as usize + r) % HEIGHT) as u8;
            let ghost cur = self@;
            let ghost done = rows@.subrange(0, r as int);
            let ghost next = rows@.subrange(0, r as int + 1);
            let hit = self.debug_draw_byte(rows[r], x, ry);
            proof {
                assert forall|p: int| 0 <= p < PIXELS implies (#[trigger] row_bit(
                    x as int,
                    ry as int,
                    rows@[r as int],
                    col_of(p),
                    row_of(p),
                ) == (sprite_bit(x as int, y as int, next, col_of(p), row_of(p))
                    && (row_of(p) - y) % (HEIGHT as int) == r)) && (sprite_bit(
                    x as int,
                    y as int,
                    next,
                    col_of(p),
                    row_of(p),
                ) == (sprite_bit(x as int, y as int, done, col_of(p), row_of(p)) || ((row_of(p)
                    - y) % (HEIGHT as int) == r && sprite_bit(
                    x as int,
                    y as int,
                    next,
                    col_of(p),
                    row_of(p),
                )))) && ((row_of(p) - y) % (HEIGHT as int) == r ==> !sprite_bit(
                    x as int,
                    y as int,
                    done,
                    col_of(p),
                    row_of(p),
                )) by {
                    assert(0 <= row_of(p) < HEIGHT);
                }
                assert(self@ =~= sprite_blit(s0, x as int, y as int, next));
                if hit {
                    let q = choose|q: int|
                        0 <= q < cur.len() && cur[q] && row_bit(
                            x as int,
                            ry as int,
                            rows@[r as int],
                            col_of(q),
                            row_of(q),
                        );
                    assert(s0[q] && sprite_bit(x as int, y as int, next, col_of(q), row_of(q)));
                }
                if flipped {
                    let q = choose|q: int|
                        0 <= q < s0.len() && s0[q] && sprite_bit(
                            x as int,
                            y as int,
                            done,
                            col_of(q),
                            row_of(q),
                        );
                    assert(sprite_bit(x as int, y as int, next, col_of(q), row_of(q)));
                }
                if sprite_collides(s0, x as int, y as int, next) {
                    let q = choose|q: int|
                        0 <= q < s0.len() && s0[q] && sprite_bit(
                            x as int,
                            y as int,
                            next,
                            col_of(q),
                            row_of(q),
                        );
                    if (row_of(q) - y) % (HEIGHT as int) == r {
                        assert(cur[q]);
                    } else {
                        assert(sprite_bit(x as int, y as int, done, col_of(q), row_of(q)));
                    }
                }
            }
            flipped = flipped || hit;
            r = r + 1;
        }
        proof {
            assert(rows@.subrange(0, r as int) =~= rows@);
        }
        flipped
    }
}

} // verus!
