//! The 64x32 one-bit framebuffer: each row is a 64-bit mask, bit 63 the
//! leftmost pixel. Sprites are drawn by XOR, so drawing a sprite twice at the
//! same position restores the prior buffer; a draw reports a collision when
//! it clears a pixel that was set.

use vstd::prelude::*;

verus! {

/// Pixels per row.
pub const DISPLAY_WIDTH: usize = 64;

/// Number of rows.
pub const DISPLAY_HEIGHT: usize = 32;

/// A sprite byte shifted into row position: its high bit lands on column `x`.
/// Columns run left to right from bit 63 down; bits pushed past column 63
/// are dropped, so sprites clip at the right edge instead of wrapping.
pub open spec fn spec_shifted_row(x: int, row: u8) -> u64
    recommends
        0 <= x < 64,
{
    if x <= 56 {
        (row as u64) << ((56 - x) as u64)
    } else {
        (row as u64) >> ((x - 56) as u64)
    }
}

/// The framebuffer after drawing `sprite` with its top-left at
/// `(x mod 64, y mod 32)`: each sprite byte is XORed into its row; rows past
/// the bottom edge are clipped.
pub open spec fn spec_draw_rows(pixels: Seq<u64>, x: u8, y: u8, sprite: Seq<u8>) -> Seq<u64> {
    let x0 = x as int % 64;
    let y0 = y as int % 32;
    Seq::new(
        pixels.len(),
        |i: int|
            if y0 <= i < y0 + sprite.len() {
                pixels[i] ^ spec_shifted_row(x0, sprite[i - y0])
            } else {
                pixels[i]
            },
    )
}

/// Whether drawing `sprite` at `(x mod 64, y mod 32)` clears any pixel that
/// was set: some drawn row overlaps a set bit of the old framebuffer.
pub open spec fn spec_draw_collision(pixels: Seq<u64>, x: u8, y: u8, sprite: Seq<u8>) -> bool {
    let x0 = x as int % 64;
    let y0 = y as int % 32;
    exists|i: int|
        0 <= i < pixels.len() && y0 <= i < y0 + sprite.len() && (spec_shifted_row(x0, sprite[i - y0])
            & pixels[i]) != 0
}

/// The monochrome framebuffer: one 64-bit mask per row.
#[derive(Debug)]
pub struct Display {
    pub pixels: Vec<u64>,
}

impl Display {
    /// The framebuffer is well formed when it has exactly one mask per row.
    pub open spec fn wf(self) -> bool {
        self.pixels@.len() == DISPLAY_HEIGHT
    }

    /// An all-dark framebuffer.
    pub fn new() -> (r: Self)
        ensures
            r.wf(),
            r.pixels@ == Seq::new(DISPLAY_HEIGHT as nat, |i: int| 0u64),
    {
        let mut pixels: Vec<u64> = Vec::new();
        let mut i: usize = 0;
        while i < DISPLAY_HEIGHT
            invariant
                i <= DISPLAY_HEIGHT,
                pixels@.len() == i,
                forall|j: int| 0 <= j < i ==> pixels@[j] == 0u64,
            decreases DISPLAY_HEIGHT - i,
        {
            pixels.push(0);
            i += 1;
        }
        proof {
            assert(pixels@ =~= Seq::new(DISPLAY_HEIGHT as nat, |i: int| 0u64));
        }
        Self { pixels }
    }

    /// Darkens every pixel.
    pub fn clear(&mut self)
        ensures
            final(self).wf(),
            final(self).pixels@ == Seq::new(DISPLAY_HEIGHT as nat, |i: int| 0u64),
    {
        let fresh = Display::new();
        self.pixels = fresh.pixels;
    }

    /// Draws `sprite` with its top-left at `(x_pos mod 64, y_pos mod 32)`,
    /// XORing each sprite byte into its row, and reports whether any set
    /// pixel was cleared.
    pub fn draw(&mut self, x_pos: u8, y_pos: u8, sprite: &[u8]) -> (collided: bool)
        requires
            old(self).wf(),
        ensures
            final(self).wf(),
            final(self).pixels@ == spec_draw_rows(old(self).pixels@, x_pos, y_pos, sprite@),
            collided == spec_draw_collision(old(self).pixels@, x_pos, y_pos, sprite@),
    {
        let x0 = (x_pos as usize) % DISPLAY_WIDTH;
        let y0 = (y_pos as usize) % DISPLAY_HEIGHT;
        let mut has_turned_off_any_pixel = false;
        let mut row_idx: usize = 0;
        while row_idx < sprite.len() && row_idx < DISPLAY_HEIGHT - y0
            invariant
                x0 == x_pos as int % 64,
                y0 == y_pos as int % 32,
                y0 < DISPLAY_HEIGHT,
                row_idx <= sprite@.len(),
                self.pixels@.len() == DISPLAY_HEIGHT,
                forall|i: int|
                    0 <= i < DISPLAY_HEIGHT && y0 <= i < y0 + row_idx ==> self.pixels@[i] == (
                    old(self).pixels@[i] ^ spec_shifted_row(x0 as int, sprite@[i - y0])),
                forall|i: int|
                    0 <= i < DISPLAY_HEIGHT && !(y0 <= i < y0 + row_idx) ==> self.pixels@[i] == old(
                        self,
                    ).pixels@[i],
                has_turned_off_any_pixel == exists|i: int|
                    0 <= i < DISPLAY_HEIGHT && y0 <= i < y0 + row_idx && (spec_shifted_row(
                        x0 as int,
                        sprite@[i - y0],
                    ) & old(self).pixels@[i]) != 0,
            decreases sprite@.len() - row_idx,
        {
            let current_y = y0 + row_idx;
            let shifted_sprite_row = self.shift_sprite_row(x0 as u64, sprite[row_idx] as u64);
            let ghost prior = self.pixels@;
            if (shifted_sprite_row & self.pixels[current_y]) > 0 {
                has_turned_off_any_pixel = true;
            }
            self.pixels[current_y] = self.pixels[current_y] ^ shifted_sprite_row;
            proof {
                assert(self.pixels@ =~= prior.update(
                    current_y as int,
                    prior[current_y as int] ^ shifted_sprite_row,
                ));
            }
            row_idx += 1;
        }
        proof {
            assert(self.pixels@ =~= spec_draw_rows(old(self).pixels@, x_pos, y_pos, sprite@));
            assert(has_turned_off_any_pixel == spec_draw_collision(
                old(self).pixels@,
                x_pos,
                y_pos,
                sprite@,
            ));
        }
        has_turned_off_any_pixel
    }

    /// Shifts a sprite byte so that its high bit lands on column `x_pos`.
    fn shift_sprite_row(&self, x_pos: u64, sprite_row: u64) -> (r: u64)
        requires
            x_pos < 64,
            sprite_row <= 255,
        ensures
            r == spec_shifted_row(x_pos as int, sprite_row as u8),
    {
        proof {
            assert(sprite_row <= 255 ==> ((sprite_row as u8) as u64) == sprite_row) by (bit_vector);
        }
        let pos = 64 - 8;
        if x_pos <= pos {
            return sprite_row << (pos - x_pos);
        }
        sprite_row >> (x_pos - pos)
    }
}

/// Drawing the same sprite twice at the same position restores the prior
/// framebuffer exactly, and the second draw reports a collision exactly when
/// the first draw turned any pixel on.
pub proof fn lemma_draw_self_inverse(pixels: Seq<u64>, x: u8, y: u8, sprite: Seq<u8>)
    requires
        pixels.len() == 32,
    ensures
        spec_draw_rows(spec_draw_rows(pixels, x, y, sprite), x, y, sprite) == pixels,
        spec_draw_collision(spec_draw_rows(pixels, x, y, sprite), x, y, sprite) == (exists|i: int|
            0 <= i < 32 && (y as int % 32) <= i < (y as int % 32) + sprite.len() && (
            spec_shifted_row(x as int % 64, sprite[i - (y as int % 32)]) & !pixels[i]) != 0),
{
    assert(forall|m: u64, p: u64| ((p ^ m) ^ m) == p) by (bit_vector);
    assert(forall|m: u64, p: u64| ((m & (p ^ m)) != 0) == ((m & !p) != 0)) by (bit_vector);
    assert(spec_draw_rows(spec_draw_rows(pixels, x, y, sprite), x, y, sprite) =~= pixels);
    let first = spec_draw_rows(pixels, x, y, sprite);
    let x0 = x as int % 64;
    let y0 = y as int % 32;
    assert forall|i: int|
        0 <= i < 32 && y0 <= i < y0 + sprite.len() implies ((spec_shifted_row(x0, sprite[i - y0])
        & first[i]) != 0) == ((spec_shifted_row(x0, sprite[i - y0]) & !pixels[i]) != 0) by {
        assert(first[i] == pixels[i] ^ spec_shifted_row(x0, sprite[i - y0]));
    }
}

} // verus!
