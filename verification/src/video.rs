//! The video decoder: turns the 1-bit-per-pixel video RAM (256 source rows
//! of 224 columns, stored column-major with 8 vertically stacked pixels per
//! byte) into a row-major RGBA8 image of 224x256 pixels. The pass performs
//! the 90-degree rotation and vertical flip that match the cabinet's
//! mounted CRT, and fully overwrites the output every call.
//!
//! For byte index `i` of the region and bit `b` of that byte, the source
//! coordinate is `((i*8) % 256, (i*8) / 256)` and the destination is
//! `x = (i*8) / 256`, `y = 255 - (i*8) % 256 - b`; a set bit is a lit
//! (white) pixel, a clear bit is black.

use vstd::arithmetic::div_mod::lemma_fundamental_div_mod;
use vstd::arithmetic::div_mod::lemma_fundamental_div_mod_converse;
use vstd::prelude::*;

verus! {

/// Width of the displayed image in pixels.
pub const PIXEL_WIDTH: usize = 224;

/// Height of the displayed image in pixels.
pub const PIXEL_HEIGHT: usize = 256;

/// Size of the video RAM region: one bit per pixel.
pub const VIDEO_RAM_LEN: usize = 7168;

/// Size of the decoded RGBA8 buffer.
pub const PIXEL_BUFFER_LEN: usize = 229376;

/// Whether bit `b` of video-RAM byte `i` is set, i.e. the pixel is lit.
pub open spec fn pixel_lit(vram: Seq<u8>, i: int, b: int) -> bool {
    ((vram[i] >> (b as u8)) & 1u8) == 1u8
}

/// Channel `c` of a pixel: opaque white when lit, opaque black when not.
pub open spec fn pixel_rgba(lit: bool, c: int) -> u8 {
    if c == 3 {
        255u8
    } else if lit {
        255u8
    } else {
        0u8
    }
}

/// The video-RAM byte that feeds destination column `x`, row `y`.
pub open spec fn src_index(x: int, y: int) -> int {
    32 * x + (255 - y) / 8
}

/// The bit within that byte that feeds destination row `y`.
pub open spec fn src_bit(y: int) -> int {
    (255 - y) % 8
}

/// The four buffer bytes of destination pixel `(x, y)` hold the RGBA value
/// of its source bit.
pub open spec fn pixel_at(vram: Seq<u8>, buf: Seq<u8>, x: int, y: int) -> bool {
    forall|c: int|
        0 <= c < 4 ==> buf[4 * (y * 224 + x) + c] == pixel_rgba(
            pixel_lit(vram, src_index(x, y), src_bit(y)),
            c,
        )
}

/// The four buffer bytes fed by bit `b` of video-RAM byte `i` hold its RGBA
/// value, at the rotated and flipped destination coordinate.
pub open spec fn pixel_ok(vram: Seq<u8>, buf: Seq<u8>, i: int, b: int) -> bool {
    forall|c: int|
        0 <= c < 4 ==> buf[4 * ((255 - (i * 8) % 256 - b) * 224 + (i * 8) / 256) + c]
            == pixel_rgba(pixel_lit(vram, i, b), c)
}

/// Source coordinate of a video-RAM byte index, column-major over a
/// 256-pixel-high column: `x = (index*8) % 256`, `y = (index*8) / 256`.
pub fn memory_buffer_index_to_coordinates(index: usize) -> (r: (u32, u32))
    requires
        index < VIDEO_RAM_LEN,
    ensures
        r.0 == (index * 8) % 256,
        r.1 == (index * 8) / 256,
{
    let x: u32 = (index as u32 * 8) % (PIXEL_HEIGHT as u32);
    let y: u32 = (index as u32 * 8) / (PIXEL_HEIGHT as u32);
    (x, y)
}

/// Decodes one full frame of video RAM into a fresh RGBA8 buffer in the
/// display's row-major orientation. Every byte of the result is pinned by
/// the postcondition: for each source byte and bit, the destination pixel
/// given by the rotation formula holds white for a set bit and black for a
/// clear bit, with full alpha.
pub fn decode_frame(vram: &[u8]) -> (buf: Vec<u8>)
    requires
        vram@.len() == VIDEO_RAM_LEN,
    ensures
        buf@.len() == PIXEL_BUFFER_LEN,
        forall|i: int, b: int|
            0 <= i < VIDEO_RAM_LEN && 0 <= b < 8 ==> #[trigger] pixel_ok(vram@, buf@, i, b),
        forall|x: int, y: int|
            0 <= x < PIXEL_WIDTH && 0 <= y < PIXEL_HEIGHT ==> #[trigger] pixel_at(
                vram@,
                buf@,
                x,
                y,
            ),
{
    let mut buf: Vec<u8> = Vec::new();
    let mut y: usize = 0;
    while y < PIXEL_HEIGHT
        invariant
            vram@.len() == VIDEO_RAM_LEN,
            y <= PIXEL_HEIGHT,
            buf@.len() == 4 * ((y as int) * 224),
            forall|yy: int, xx: int|
                0 <= yy < y && 0 <= xx < 224 ==> #[trigger] pixel_at(vram@, buf@, xx, yy),
        decreases PIXEL_HEIGHT - y,
    {
        let mut x: usize = 0;
        while x < PIXEL_WIDTH
            invariant
                vram@.len() == VIDEO_RAM_LEN,
                y < PIXEL_HEIGHT,
                x <= PIXEL_WIDTH,
                buf@.len() == 4 * ((y as int) * 224 + (x as int)),
                forall|yy: int, xx: int|
                    0 <= yy < y && 0 <= xx < 224 ==> #[trigger] pixel_at(vram@, buf@, xx, yy),
                forall|xx: int| 0 <= xx < x ==> #[trigger] pixel_at(vram@, buf@, xx, y as int),
            decreases PIXEL_WIDTH - x,
        {
            let flipped: usize = PIXEL_HEIGHT - 1 - y;
            let i: usize = 32 * x + flipped / 8;
            let b: usize = flipped % 8;
            let byte: u8 = vram[i];
            let lit: bool = ((byte >> (b as u8)) & 1) == 1;
            let body_val: u8 = if lit {
                255
            } else {
                0
            };
            let ghost prev = buf@;
            buf.push(body_val);
            buf.push(body_val);
            buf.push(body_val);
            buf.push(255);
            proof {
                assert forall|j: int| 0 <= j < prev.len() implies buf@[j] == prev[j] by {}
                assert(pixel_at(vram@, buf@, x as int, y as int));
                assert forall|yy: int, xx: int|
                    0 <= yy < y && 0 <= xx < 224 implies #[trigger] pixel_at(
                    vram@,
                    buf@,
                    xx,
                    yy,
                ) by {
                    assert(pixel_at(vram@, prev, xx, yy));
                }
                assert forall|xx: int| 0 <= xx < x implies #[trigger] pixel_at(
                    vram@,
                    buf@,
                    xx,
                    y as int,
                ) by {
                    assert(pixel_at(vram@, prev, xx, y as int));
                }
            }
            x += 1;
        }
        y += 1;
    }
    proof {
        assert forall|i: int, b: int|
            0 <= i < VIDEO_RAM_LEN && 0 <= b < 8 implies #[trigger] pixel_ok(
            vram@,
            buf@,
            i,
            b,
        ) by {
            let q = i / 32;
            let r = i % 32;
            lemma_fundamental_div_mod(i, 32);
            lemma_fundamental_div_mod_converse(i * 8, 256, q, 8 * r);
            lemma_fundamental_div_mod_converse(8 * r + b, 8, r, b);
            let yd = 255 - 8 * r - b;
            assert((i * 8) / 256 == q);
            assert((i * 8) % 256 == 8 * r);
            assert(0 <= yd < 256);
            assert(0 <= q < 224);
            assert(pixel_at(vram@, buf@, q, yd));
            assert(src_index(q, yd) == i);
            assert(src_bit(yd) == b);
        }
    }
    buf
}

} // verus!
