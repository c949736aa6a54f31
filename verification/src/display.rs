//! The 64 by 32 monochrome framebuffer and the sprite blit that draws on it.

use vstd::prelude::*;

verus! {

/// The number of pixels of the framebuffer.
pub const PIXELS: usize = 2048;

/// Where the pixel at column `x` and row `y` lives in the framebuffer:
/// coordinates wrap around at the right and bottom edges.
pub open spec fn pixel_index(x: int, y: int) -> int {
    x % 64 + 64 * (y % 32)
}

/// A framebuffer with every pixel off.
pub open spec fn blank_screen() -> Seq<bool> {
    Seq::new(PIXELS as nat, |p: int| false)
}

/// Whether pixel `k` of a sprite row, counted from the left, is lit: the
/// row's most significant bit is its leftmost pixel.
pub open spec fn sprite_bit(row: u8, k: int) -> bool {
    0 <= k < 8 && (row >> ((7 - k) as u8)) & 1 == 1
}

/// How many columns to the right of `x0` the framebuffer cell `p` lies,
/// going around the right edge.
pub open spec fn column_offset(x0: int, p: int) -> int {
    (p % 64 - x0) % 64
}

/// Whether drawing the sprite row `row` with its left end at column `x0` of
/// row `y` toggles the framebuffer cell `p`.
pub open spec fn row_hits(x0: int, y: int, row: u8, p: int) -> bool {
    p / 64 == y % 32 && sprite_bit(row, column_offset(x0, p))
}

/// The framebuffer after one sprite row was XOR-ed onto it.
pub open spec fn blit_row(d: Seq<bool>, x0: int, y: int, row: u8) -> Seq<bool> {
    Seq::new(d.len(), |p: int| d[p] != row_hits(x0, y, row, p))
}

/// Whether XOR-ing one sprite row onto the framebuffer turns a lit pixel off.
pub open spec fn row_collides(d: Seq<bool>, x0: int, y: int, row: u8) -> bool {
    exists|p: int| 0 <= p < d.len() && d[p] && #[trigger] row_hits(x0, y, row, p)
}

/// The framebuffer after a sprite was drawn with its top left corner at
/// `(x0, y0)`: row `r` of the sprite is XOR-ed onto row `y0 + r`.
pub open spec fn blit(d: Seq<bool>, x0: int, y0: int, rows: Seq<u8>) -> Seq<bool>
    decreases rows.len(),
{
    if rows.len() == 0 {
        d
    } else {
        blit_row(blit(d, x0, y0, rows.drop_last()), x0, y0 + rows.len() - 1, rows.last())
    }
}

/// Whether drawing a sprite turned a lit pixel off at any moment.
pub open spec fn blit_collides(d: Seq<bool>, x0: int, y0: int, rows: Seq<u8>) -> bool
    decreases rows.len(),
{
    if rows.len() == 0 {
        false
    } else {
        blit_collides(d, x0, y0, rows.drop_last()) || row_collides(
            blit(d, x0, y0, rows.drop_last()),
            x0,
            y0 + rows.len() - 1,
            rows.last(),
        )
    }
}

/// The framebuffer: 2048 pixels, row after row.
pub struct Display {
    buffer: [bool; 2048],
}

impl View for Display {
    type V = Seq<bool>;

    /// The pixels, row after row.
    closed spec fn view(&self) -> Seq<bool> {
        self.buffer@
    }
}

impl Display {
    pub const WIDTH: u8 = 64;

    pub const HEIGHT: u8 = 32;

    /// A framebuffer with every pixel off.
    pub fn new() -> (d: Self)
        ensures
            d@ == blank_screen(),
    {
        Display { buffer: [false; 2048] }
    }

    /// Every display has 2048 pixels.
    pub proof fn lemma_len(&self)
        ensures
            self@.len() == 2048,
    {
    }

    /// The pixels, row after row, for a renderer to read.
    pub fn buffer(&self) -> (pixels: &[bool; 2048])
        ensures
            pixels@ == self@,
    {
        &self.buffer
    }

    /// Turns every pixel off.
    pub fn clear(&mut self)
        ensures
            final(self)@ == blank_screen(),
    {
        self.buffer = [false; 2048];
    }

    /// The framebuffer cell of the pixel at `(x, y)`.
    pub fn i(x: u8, y: u8) -> (p: usize)
        ensures
            p == pixel_index(x as int, y as int),
            p < 2048,
    {
        ((x % Self::WIDTH) as usize) + (Self::WIDTH as usize) * ((y % Self::HEIGHT) as usize)
    }

    /// Sets the pixel at `(x, y)`.
    pub fn set(&mut self, x: u8, y: u8, b: bool)
        ensures
            final(self)@ == old(self)@.update(pixel_index(x as int, y as int), b),
    {
        let p: usize = Self::i(x, y);
        self.buffer[p] = b;
    }

    /// The pixel at `(x, y)`.
    pub fn get(&self, x: u8, y: u8) -> (b: bool)
        ensures
            b == self@[pixel_index(x as int, y as int)],
    {
        self.buffer[Self::i(x, y)]
    }

    /// The pixel at `(x, y)` as a number: 1 for on, 0 for off.
    pub fn get_u8(&self, x: u8, y: u8) -> (b: u8)
        ensures
            b == if self@[pixel_index(x as int, y as int)] { 1u8 } else { 0u8 },
    {
        if self.buffer[Self::i(x, y)] {
            1
        } else {
            0
        }
    }

    /// XOR-s one sprite row onto the framebuffer, its leftmost pixel at
    /// `(x0, y)`, and tells whether that turned a lit pixel off.
    pub fn blit_row(&mut self, x0: u8, y: u8, row: u8) -> (collision: bool)
        ensures
            final(self)@ == blit_row(old(self)@, x0 as int, y as int, row),
            collision == row_collides(old(self)@, x0 as int, y as int, row),
    {
        let mut collision = false;
        let mut k: u8 = 0;
        while k < 8
            invariant
                k <= 8,
                forall|p: int|
                    0 <= p < 2048 ==> self@[p] == (old(self)@[p] != (row_hits(
                        x0 as int,
                        y as int,
                        row,
                        p,
                    ) && column_offset(x0 as int, p) < k)),
                collision == (exists|p: int|
                    0 <= p < 2048 && old(self)@[p] && #[trigger] row_hits(
                        x0 as int,
                        y as int,
                        row,
                        p,
                    ) && column_offset(x0 as int, p) < k),
            decreases 8 - k,
        {
            let x: u8 = x0.wrapping_add(k);
            let ghost cell = pixel_index(x as int, y as int);
            assert(cell / 64 == y as int % 32 && column_offset(x0 as int, cell) == k);
            assert forall|p: int| 0 <= p < 2048 && p != cell implies !(p / 64 == y as int % 32
                && column_offset(x0 as int, p) == k) by {}
            let shift: u8 = 7 - k;
            let bit: u8 = (row >> shift) & 1;
            assert(bit == 0 || bit == 1) by (bit_vector)
                requires
                    bit == (row >> shift) & 1,
            ;
            if bit != 0 {
                assert(row_hits(x0 as int, y as int, row, cell));
                let prev = self.get(x, y);
                self.set(x, y, !prev);
                if prev {
                    collision = true;
                }
            } else {
                assert(!row_hits(x0 as int, y as int, row, cell));
            }
            k += 1;
        }
        collision
    }

    /// Draws a sprite with its top left corner at `(x0, y0)`: each byte of
    /// `rows` is one row of eight pixels, XOR-ed onto the framebuffer one row
    /// further down than the one before. Tells whether any lit pixel was
    /// turned off.
    pub fn blit_sprite(&mut self, x0: u8, y0: u8, rows: &[u8]) -> (collision: bool)
        ensures
            final(self)@ == blit(old(self)@, x0 as int, y0 as int, rows@),
            collision == blit_collides(old(self)@, x0 as int, y0 as int, rows@),
    {
        let mut collision = false;
        let mut y: u8 = y0;
        let mut r: usize = 0;
        while r < rows.len()
            invariant
                r <= rows.len(),
                y as int % 32 == (y0 + r) % 32,
                self@ == blit(old(self)@, x0 as int, y0 as int, rows@.take(r as int)),
                collision == blit_collides(old(self)@, x0 as int, y0 as int, rows@.take(r as int)),
            decreases rows.len() - r,
        {
            proof {
                assert(rows@.take(r + 1).drop_last() == rows@.take(r as int));
                assert(rows@.take(r + 1).last() == rows@[r as int]);
                lemma_row_wraps(self@, x0 as int, y as int, y0 + r, rows@[r as int]);
            }
            let hit = self.blit_row(x0, y, rows[r]);
            collision = collision || hit;
            y = y.wrapping_add(1);
            r += 1;
        }
        proof {
            assert(rows@.take(r as int) == rows@);
        }
        collision
    }
}

/// Coordinates wrap: a pixel 64 columns further right, or 32 rows further
/// down, is the same pixel, and every pixel has a cell in the framebuffer.
pub proof fn lemma_coordinates_wrap(x: int, y: int)
    ensures
        pixel_index(x + 64, y) == pixel_index(x, y),
        pixel_index(x, y + 32) == pixel_index(x, y),
        pixel_index(x, y) == pixel_index(x % 64, y % 32),
        0 <= pixel_index(x, y) < 2048,
{
}

/// Whether drawing a sprite toggles the framebuffer cell `p` an odd number
/// of times.
pub open spec fn toggles(x0: int, y0: int, rows: Seq<u8>, p: int) -> bool
    decreases rows.len(),
{
    if rows.len() == 0 {
        false
    } else {
        toggles(x0, y0, rows.drop_last(), p) != row_hits(
            x0,
            y0 + rows.len() - 1,
            rows.last(),
            p,
        )
    }
}

/// Drawing a sprite flips exactly the pixels that it toggles an odd number of
/// times.
pub proof fn lemma_blit_pixels(d: Seq<bool>, x0: int, y0: int, rows: Seq<u8>)
    ensures
        blit(d, x0, y0, rows).len() == d.len(),
        forall|p: int|
            0 <= p < d.len() ==> #[trigger] blit(d, x0, y0, rows)[p] == (d[p] != toggles(
                x0,
                y0,
                rows,
                p,
            )),
    decreases rows.len(),
{
    if rows.len() > 0 {
        lemma_blit_pixels(d, x0, y0, rows.drop_last());
    }
}

/// Drawing a sprite that flips a lit pixel reports a collision.
proof fn lemma_lit_toggle_collides(d: Seq<bool>, x0: int, y0: int, rows: Seq<u8>, p: int)
    requires
        0 <= p < d.len(),
        d[p],
        toggles(x0, y0, rows, p),
    ensures
        blit_collides(d, x0, y0, rows),
    decreases rows.len(),
{
    if rows.len() > 0 {
        let prefix = rows.drop_last();
        if toggles(x0, y0, prefix, p) {
            lemma_lit_toggle_collides(d, x0, y0, prefix, p);
        } else {
            lemma_blit_pixels(d, x0, y0, prefix);
            let before = blit(d, x0, y0, prefix);
            assert(before[p] && row_hits(x0, y0 + rows.len() - 1, rows.last(), p));
        }
    }
}

/// Drawing the same sprite twice at the same place restores the framebuffer,
/// and the second drawing reports a collision whenever the first one lit a
/// pixel.
pub proof fn lemma_blit_twice(d: Seq<bool>, x0: int, y0: int, rows: Seq<u8>)
    ensures
        blit(blit(d, x0, y0, rows), x0, y0, rows) == d,
        (exists|p: int| 0 <= p < d.len() && !d[p] && blit(d, x0, y0, rows)[p]) ==> blit_collides(
            blit(d, x0, y0, rows),
            x0,
            y0,
            rows,
        ),
{
    let once = blit(d, x0, y0, rows);
    lemma_blit_pixels(d, x0, y0, rows);
    lemma_blit_pixels(once, x0, y0, rows);
    assert(blit(once, x0, y0, rows) =~= d);
    if exists|p: int| 0 <= p < d.len() && !d[p] && once[p] {
        let p = choose|p: int| 0 <= p < d.len() && !d[p] && once[p];
        lemma_lit_toggle_collides(once, x0, y0, rows, p);
    }
}

/// A sprite row drawn 32 rows further down lands on the same pixels.
pub proof fn lemma_row_wraps(d: Seq<bool>, x0: int, y1: int, y2: int, row: u8)
    requires
        y1 % 32 == y2 % 32,
    ensures
        blit_row(d, x0, y1, row) == blit_row(d, x0, y2, row),
        row_collides(d, x0, y1, row) == row_collides(d, x0, y2, row),
{
    assert forall|p: int| row_hits(x0, y1, row, p) == row_hits(x0, y2, row, p) by {}
}

} // verus!
