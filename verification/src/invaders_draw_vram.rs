//! The picture: from the video memory of the cabinet, one bit for each
//! pixel, to a buffer of one byte for each pixel.
//!
//! The monitor of the cabinet stands on its side. The bits of the video
//! memory run along its scan lines, which are the columns of the picture,
//! from the bottom of a column to its top and from the left column to the
//! right one.

use crate::config::Screen;
use vstd::prelude::*;

verus! {

/// The width of the picture, in pixels.
pub const WIDTH: usize = 224;

/// The height of the picture, in pixels.
pub const HEIGHT: usize = 256;

/// The number of bytes of video memory that are drawn.
pub const VRAM_SIZE: usize = 0x1BFF;

/// Whether bit `pos` of `byte` is set.
pub open spec fn bit_set(byte: u8, pos: u8) -> bool {
    byte & (1u8 << pos) > 0
}

/// The bits of a byte, from bit 0 up.
pub struct ByteBitIter {
    byte: u8,
    next_bit_pos: u8,
}

impl ByteBitIter {
    /// The byte whose bits are handed out.
    pub closed spec fn byte(&self) -> u8 {
        self.byte
    }

    /// The number of the bit that comes next; 8 when all have been handed
    /// out.
    pub closed spec fn position(&self) -> u8 {
        self.next_bit_pos
    }

    pub fn new(byte: u8) -> (bits: ByteBitIter)
        ensures
            bits.byte() == byte,
            bits.position() == 0,
    {
        ByteBitIter { byte, next_bit_pos: 0 }
    }

    /// The next bit, or `None` after the eighth.
    pub fn next(&mut self) -> (bit: Option<bool>)
        ensures
            final(self).byte() == old(self).byte(),
            old(self).position() < 8 ==> bit == Some(
                bit_set(old(self).byte(), old(self).position()),
            ) && final(self).position() == old(self).position() + 1,
            old(self).position() >= 8 ==> bit is None && final(self).position() == old(
                self,
            ).position(),
    {
        if self.next_bit_pos < 8 {
            let current_bit_pos = self.next_bit_pos;
            self.next_bit_pos += 1;
            Some(self.byte & (1u8 << current_bit_pos) > 0)
        } else {
            None
        }
    }
}

/// Whether the pixel with the number `p` is lit. Video memory numbers the
/// pixels bit by bit: bit 0 of the first byte is pixel 0.
pub open spec fn lit(vram: Seq<u8>, p: int) -> bool {
    bit_set(vram[p / 8], (p % 8) as u8)
}

/// The number of the pixel that lies at the place `i` of the buffer, which
/// holds the picture row by row from the top. The pixels of a column are
/// numbered from the bottom up, and the columns from the left.
pub open spec fn pixel_at(i: int) -> int {
    (i % 224) * 256 + (255 - i / 224)
}

/// The place of the buffer at which the pixel with the number `p` lies.
pub open spec fn place_of(p: int) -> int {
    (255 - p % 256) * 224 + p / 256
}

/// The buffer `before` after the picture has been drawn into it: a place
/// whose pixel lies in the video memory that is drawn has the colour of
/// that pixel, and every other place is as it was.
pub open spec fn drawn(before: Seq<u8>, vram: Seq<u8>, white: u8, black: u8) -> Seq<u8> {
    Seq::new(
        before.len(),
        |i: int|
            if i < WIDTH * HEIGHT && pixel_at(i) < 8 * vram.len() {
                if lit(vram, pixel_at(i)) {
                    white
                } else {
                    black
                }
            } else {
                before[i]
            },
    )
}

/// Draws the picture that `vram` holds into `buf`, in the two colours of
/// `screen`. `vram` is the video memory but for its last byte, and `buf`
/// has a byte for every pixel of the picture.
pub fn draw_space_invaders_vram(buf: &mut [u8], vram: &[u8], screen: &Screen)
    requires
        vram@.len() == VRAM_SIZE,
        old(buf)@.len() >= WIDTH * HEIGHT,
    ensures
        final(buf)@ == drawn(old(buf)@, vram@, screen.white_color, screen.black_color),
{
    let mut x: usize = 0;
    let mut y: usize = 255;
    let mut n: usize = 0;
    while n < vram.len()
        invariant
            vram@.len() == VRAM_SIZE,
            buf@.len() == old(buf)@.len(),
            buf@.len() >= WIDTH * HEIGHT,
            n <= vram@.len(),
            x == (8 * n) / 256,
            y == 255 - (8 * n) % 256,
            buf@ == drawn(
                old(buf)@,
                vram@.take(n as int),
                screen.white_color,
                screen.black_color,
            ),
        decreases vram@.len() - n,
    {
        let byte = vram[n];
        let mut bits = ByteBitIter::new(byte);
        let mut k: usize = 0;
        while k < 8
            invariant
                vram@.len() == VRAM_SIZE,
                buf@.len() == old(buf)@.len(),
                buf@.len() >= WIDTH * HEIGHT,
                n < vram@.len(),
                byte == vram@[n as int],
                k <= 8,
                bits.byte() == byte,
                bits.position() == k,
                x == (8 * n + k) / 256,
                y == 255 - (8 * n + k) % 256,
                forall|i: int|
                    0 <= i < buf@.len() ==> buf@[i] == (if i < WIDTH * HEIGHT && pixel_at(i) < 8
                        * n + k {
                        if lit(vram@, pixel_at(i)) {
                            screen.white_color
                        } else {
                            screen.black_color
                        }
                    } else {
                        old(buf)@[i]
                    }),
            decreases 8 - k,
        {
            let pixel_emit_light = bits.next().unwrap();
            proof {
                lemma_place(8 * n + k);
            }
            if pixel_emit_light {
                buf[y * 224 + x] = screen.white_color;
            } else {
                buf[y * 224 + x] = screen.black_color;
            }
            if y == 0 {
                x += 1;
                y = 255;
            } else {
                y -= 1;
            }
            k += 1;
        }
        n += 1;
    }
}

/// Every pixel has its place in the buffer, and no two pixels share one.
pub proof fn lemma_place(p: int)
    requires
        0 <= p < WIDTH * HEIGHT,
    ensures
        0 <= place_of(p) < WIDTH * HEIGHT,
        pixel_at(place_of(p)) == p,
        forall|i: int| 0 <= i < WIDTH * HEIGHT && pixel_at(i) == p ==> i == place_of(p),
{
}

} // verus!
