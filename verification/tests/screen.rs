use cpu3v2::system::gpu::SCREEN_BYTES;
use cpu3v2::system::System;

#[test]
fn an_empty_vram_is_black() {
    let s = System::new(vec![0xFF]).unwrap();
    let pixels = s.screen_pixels();
    assert_eq!(pixels.len(), SCREEN_BYTES);
    assert_eq!(SCREEN_BYTES, 256 * 256 * 3);
    assert!(pixels.iter().all(|&b| b == 0));
}

#[test]
fn tiles_select_palette_colors() {
    let mut s = System::new(vec![0xFF]).unwrap();
    let vram = s.vram_mut();
    // Global palette: entry 1 is pure red, entry 2 pure green, entry 3 white.
    vram[2] = 0xF8;
    vram[3] = 0x00;
    vram[4] = 0x07;
    vram[5] = 0xE0;
    vram[6] = 0xFF;
    vram[7] = 0xFF;
    // Tile (0, 1) points at a tile at 0x1000.
    vram[0x202] = 0x10;
    vram[0x203] = 0x00;
    // Tile palette: index 1 is red, index 2 green, index 3 white.
    vram[0x1001] = 1;
    vram[0x1002] = 2;
    vram[0x1003] = 3;
    // First row of tile data: red, green, white, black, ...
    vram[0x1010] = 0x12;
    vram[0x1011] = 0x30;
    // Second row: the last pixel is white.
    vram[0x1017] = 0x03;
    let pixels = s.screen_pixels();
    let at = |x: usize, y: usize| {
        let i = (y * 256 + x) * 3;
        [pixels[i], pixels[i + 1], pixels[i + 2]]
    };
    assert_eq!(at(8, 0), [248, 0, 0]);
    assert_eq!(at(9, 0), [0, 252, 0]);
    assert_eq!(at(10, 0), [248, 252, 248]);
    assert_eq!(at(11, 0), [0, 0, 0]);
    assert_eq!(at(15, 1), [248, 252, 248]);
    assert_eq!(at(14, 1), [0, 0, 0]);
    assert_eq!(at(0, 0), [0, 0, 0]);
}

#[test]
fn frames_are_counted() {
    let mut s = System::new(vec![0xFF]).unwrap();
    assert_eq!(s.frames(), 0);
    s.count_frame();
    assert_eq!(s.frames(), 1);
    *s.frames_mut() = u32::MAX;
    s.count_frame();
    assert_eq!(s.frames(), 0);
}
