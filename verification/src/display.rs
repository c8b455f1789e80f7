//! The framebuffer as a picture: which pixels are lit, and the scaled
//! raster a window shows.

use vstd::prelude::*;
use vstd::arithmetic::div_mod::lemma_fundamental_div_mod_converse;
use crate::interpreter::Interpreter;
use crate::machine::DISPLAY_START;

verus! {

/// Colour of an unlit pixel: opaque black.
pub const BACKGROUND: u32 = 0xFF00_0000;

/// Colour of a lit pixel: white.
pub const FOREGROUND: u32 = 0xFFFF_FFFF;

/// Whether the display pixel in column `x` and row `y` is lit. Rows are
/// eight bytes long and the leftmost pixel of a byte is its highest bit.
pub open spec fn pixel_lit(memory: Seq<u8>, x: int, y: int) -> bool {
    (memory[DISPLAY_START + y * 8 + x / 8] >> ((7 - x % 8) as u8)) & 1 == 1
}

/// The colour of the raster pixel at (`px`, `py`) in a raster of `width` by
/// `height` pixels. Each display pixel covers a block of `width / 64` by
/// `height / 32` raster pixels; what the blocks do not cover is background.
pub open spec fn raster_color(memory: Seq<u8>, width: int, height: int, px: int, py: int) -> u32 {
    let scale_x = width / 64;
    let scale_y = height / 32;
    if scale_x > 0 && scale_y > 0 && px / scale_x < 64 && py / scale_y < 32 && pixel_lit(
        memory,
        px / scale_x,
        py / scale_y,
    ) {
        FOREGROUND
    } else {
        BACKGROUND
    }
}

/// The whole raster, row by row.
pub open spec fn raster(memory: Seq<u8>, width: int, height: int) -> Seq<u32> {
    Seq::new(
        (width * height) as nat,
        |i: int| raster_color(memory, width, height, i % width, i / width),
    )
}

/// Whether the display pixel in column `x` and row `y` is lit.
pub fn is_lit(memory: &[u8; 4096], x: u32, y: u32) -> (lit: bool)
    requires
        x < Interpreter::DISPLAY_WIDTH,
        y < Interpreter::DISPLAY_HEIGHT,
    ensures
        lit == pixel_lit(memory@, x as int, y as int),
{
    let byte = memory[0xF00 + (y as usize) * 8 + (x as usize) / 8];
    let bit: u8 = (x % 8) as u8;
    let pixel = (byte >> (7 - bit)) & 0x1;
    pixel == 1
}

/// The colour of one raster pixel.
fn color_at(memory: &[u8; 4096], width: u32, height: u32, px: u32, py: u32) -> (color: u32)
    ensures
        color == raster_color(memory@, width as int, height as int, px as int, py as int),
{
    let scale_x = width / 64;
    let scale_y = height / 32;
    if scale_x == 0 || scale_y == 0 {
        return BACKGROUND;
    }
    let x = px / scale_x;
    let y = py / scale_y;
    if x < 64 && y < 32 && is_lit(memory, x, y) {
        FOREGROUND
    } else {
        BACKGROUND
    }
}

/// Renders the framebuffer held in `memory` as a raster of `width` by
/// `height` pixels, one `u32` per pixel, row by row.
pub fn rasterize(memory: &[u8; 4096], width: u32, height: u32) -> (pixels: Vec<u32>)
    ensures
        pixels@ == raster(memory@, width as int, height as int),
{
    let mut pixels: Vec<u32> = Vec::new();
    let mut py: u32 = 0;
    while py < height
        invariant
            py <= height,
            pixels@.len() == py * width,
            forall|i: int|
                0 <= i < pixels@.len() ==> pixels@[i] == raster_color(
                    memory@,
                    width as int,
                    height as int,
                    i % (width as int),
                    i / (width as int),
                ),
        decreases height - py,
    {
        let mut px: u32 = 0;
        while px < width
            invariant
                py < height,
                px <= width,
                pixels@.len() == py * width + px,
                forall|i: int|
                    0 <= i < pixels@.len() ==> pixels@[i] == raster_color(
                        memory@,
                        width as int,
                        height as int,
                        i % (width as int),
                        i / (width as int),
                    ),
            decreases width - px,
        {
            let color = color_at(memory, width, height, px, py);
            proof {
                lemma_fundamental_div_mod_converse(
                    py * width + px,
                    width as int,
                    py as int,
                    px as int,
                );
            }
            pixels.push(color);
            px += 1;
        }
        assert(py * width + width == (py + 1) * width) by (nonlinear_arith);
        py += 1;
    }
    assert(py * width == width * height) by (nonlinear_arith)
        requires
            py == height,
    ;
    assert(pixels@ =~= raster(memory@, width as int, height as int));
    pixels
}

} // verus!
