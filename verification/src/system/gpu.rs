//! The video output: VRAM layout and the conversion of VRAM to screen pixels.

use vstd::prelude::*;

use crate::opcode::word_of;
use crate::system::{Machine, System};

verus! {

/// The number of tiles on the screen vertically.
pub const SCREEN_ROWS: usize = 32;

/// The number of tiles on the screen horizontally.
pub const SCREEN_COLUMNS: usize = 32;

/// The number of rows in a tile.
pub const TILE_ROWS: usize = 8;

/// The number of columns in a tile.
pub const TILE_COLUMNS: usize = 8;

/// The number of entries in the palette, 16 bits per entry.
pub const PALETTE_ENTRY_COUNT: usize = 256;

/// The number of tiles in the tileset.
pub const TILESET_ENTRY_COUNT: usize = 256;

/// The number of colors in each tileset entry.
pub const TILESET_ENTRY_COLORS: usize = 16;

/// The size of each tileset entry in bytes.
pub const TILESET_ENTRY_DATA_SIZE: usize = TILE_ROWS * TILE_COLUMNS / 2;

/// The size of the Video RAM in bytes.
pub const VRAM_SIZE: usize = 0x10000;

/// The interval at which V-Blanks occur, in cycles.
pub const VBLANK_INTERVAL: u64 = 2_000_000 / 60;


/// The width of the screen in pixels.
pub const SCREEN_WIDTH: usize = SCREEN_COLUMNS * TILE_COLUMNS;

/// The height of the screen in pixels.
pub const SCREEN_HEIGHT: usize = SCREEN_ROWS * TILE_ROWS;

/// The number of bytes of an RGB24 picture of the screen: three per pixel.
pub const SCREEN_BYTES: usize = SCREEN_WIDTH * SCREEN_HEIGHT * 3;

/// The address in VRAM of the tile shown at a tile row and column: the big-endian
/// entry of the tilemap, which starts at `0x0200`.
pub open spec fn tile_pointer(vram: Seq<u8>, row: int, col: int) -> u16 {
    let entry = 0x200 + 2 * (row * 32 + col);
    word_of(vram[entry], vram[entry + 1])
}

/// Entry `index` of the global palette: a big-endian RGB565 color at `2 * index`.
pub open spec fn palette_color(vram: Seq<u8>, index: u8) -> u16 {
    word_of(vram[2 * index], vram[2 * index + 1])
}

/// The RGB565 color of the screen pixel at column `x` and row `y`. The pixel is
/// `x % 8`, `y % 8` of its tile; its four bits of tile data (the high half of the
/// byte for an even column) select an entry of the tile palette, which selects an
/// entry of the global palette.
pub open spec fn pixel_color(vram: Seq<u8>, x: int, y: int) -> u16 {
    let tile = tile_pointer(vram, y / 8, x / 8);
    let tile_row = y % 8;
    let tile_col = x % 8;
    let data = vram[tile.wrapping_add((16 + (tile_row * 8 + tile_col) / 2) as u16) as int];
    let color_index = if tile_col % 2 == 0 {
        data / 16
    } else {
        data % 16
    };
    palette_color(vram, vram[tile.wrapping_add(color_index as u16) as int])
}

/// One channel (0 red, 1 green, 2 blue) of an RGB565 color, scaled to eight bits:
/// five-bit channels are multiplied by 8 and the six-bit green by 4.
pub open spec fn color_channel(color: u16, channel: int) -> u8 {
    if channel == 0 {
        ((color / 2048) * 8) as u8
    } else if channel == 1 {
        ((color / 32 % 64) * 4) as u8
    } else {
        ((color % 32) * 8) as u8
    }
}

/// Byte `i` of the RGB24 picture of the screen: pixels row by row, three bytes each.
pub open spec fn screen_byte(vram: Seq<u8>, i: int) -> u8 {
    let pixel = i / 3;
    color_channel(pixel_color(vram, pixel % 256, pixel / 256), i % 3)
}

impl System {
    /// The RGB565 color of the screen pixel at column `x` and row `y`.
    fn pixel_color(&self, x: usize, y: usize) -> (r: u16)
        requires
            x < SCREEN_WIDTH,
            y < SCREEN_HEIGHT,
        ensures
            r == pixel_color(self@.vram, x as int, y as int),
    {
        let entry = 0x200 + 2 * ((y / 8) * 32 + x / 8);
        let tile = self.vram[entry] as u16 * 256 + self.vram[entry + 1] as u16;
        let tile_row = y % 8;
        let tile_col = x % 8;
        let data = self.vram[tile.wrapping_add((16 + (tile_row * 8 + tile_col) / 2) as u16) as usize];
        let color_index = if tile_col % 2 == 0 {
            data / 16
        } else {
            data % 16
        };
        let palette_index = self.vram[tile.wrapping_add(color_index as u16) as usize] as usize;
        self.vram[2 * palette_index] as u16 * 256 + self.vram[2 * palette_index + 1] as u16
    }

    /// Renders the current state of VRAM as an RGB24 picture of the screen, 256 by
    /// 256 pixels, row by row.
    pub fn screen_pixels(&self) -> (r: Vec<u8>)
        ensures
            r@.len() == SCREEN_BYTES,
            forall|i: int| 0 <= i < SCREEN_BYTES ==> r@[i] == #[trigger] screen_byte(self@.vram, i),
    {
        let mut pixels: Vec<u8> = Vec::new();
        let pixel_count: usize = 0x10000;
        assert(pixel_count == SCREEN_WIDTH * SCREEN_HEIGHT && SCREEN_BYTES == 3 * pixel_count);
        let mut p: usize = 0;
        while p < pixel_count
            invariant
                pixel_count == 0x10000,
                p <= pixel_count,
                pixels@.len() == 3 * p,
                forall|i: int| 0 <= i < pixels@.len() ==> pixels@[i] == #[trigger] screen_byte(self@.vram, i),
            decreases pixel_count - p,
        {
            let color = self.pixel_color(p % 256, p / 256);
            let red = ((color / 2048) * 8) as u8;
            let green = ((color / 32 % 64) * 4) as u8;
            let blue = ((color % 32) * 8) as u8;
            proof {
                let base = 3 * p as int;
                assert(base / 3 == p && base % 3 == 0);
                assert((base + 1) / 3 == p && (base + 1) % 3 == 1);
                assert((base + 2) / 3 == p && (base + 2) % 3 == 2);
            }
            pixels.push(red);
            pixels.push(green);
            pixels.push(blue);
            p = p + 1;
        }
        pixels
    }

    /// Counts a frame that was shown: the frame counter goes up by one, wrapping around.
    pub fn count_frame(&mut self)
        ensures
            final(self)@ == (Machine { frames: old(self)@.frames.wrapping_add(1), ..old(self)@ }),
    {
        self.frames = self.frames.wrapping_add(1);
    }
}

} // verus!
