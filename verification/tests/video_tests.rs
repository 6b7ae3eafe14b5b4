use space_invaders_core::video::decode_frame;
use space_invaders_core::video::memory_buffer_index_to_coordinates;
use space_invaders_core::video::PIXEL_BUFFER_LEN;
use space_invaders_core::video::VIDEO_RAM_LEN;

fn pixel(buf: &[u8], x: usize, y: usize) -> [u8; 4] {
    let base = 4 * (y * 224 + x);
    [buf[base], buf[base + 1], buf[base + 2], buf[base + 3]]
}

const WHITE: [u8; 4] = [255, 255, 255, 255];
const BLACK: [u8; 4] = [0, 0, 0, 255];

#[test]
fn first_byte_lands_rotated_at_the_bottom_left() {
    let mut vram = vec![0u8; VIDEO_RAM_LEN];
    vram[0] = 0xff;
    let buf = decode_frame(&vram);
    assert_eq!(buf.len(), PIXEL_BUFFER_LEN);
    // all eight bits of byte 0 land at x = 0, y in 248..=255, lit
    for bit in 0..8usize {
        assert_eq!(pixel(&buf, 0, 255 - bit), WHITE);
    }
    // the rest of that column is dark
    assert_eq!(pixel(&buf, 0, 247), BLACK);
    assert_eq!(pixel(&buf, 0, 0), BLACK);

    let zeros = vec![0u8; VIDEO_RAM_LEN];
    let dark = decode_frame(&zeros);
    for bit in 0..8usize {
        assert_eq!(pixel(&dark, 0, 255 - bit), BLACK);
    }
}

#[test]
fn single_bit_maps_to_single_pixel() {
    let mut vram = vec![0u8; VIDEO_RAM_LEN];
    // byte 33: source x = (33*8) % 256 = 8, source y = (33*8) / 256 = 1
    // bit 2 -> destination x = 1, y = 255 - 8 - 2 = 245
    vram[33] = 0b0000_0100;
    let buf = decode_frame(&vram);
    assert_eq!(pixel(&buf, 1, 245), WHITE);
    assert_eq!(pixel(&buf, 1, 244), BLACK);
    assert_eq!(pixel(&buf, 1, 246), BLACK);
    assert_eq!(pixel(&buf, 0, 245), BLACK);
    assert_eq!(pixel(&buf, 2, 245), BLACK);
}

#[test]
fn every_alpha_channel_is_opaque() {
    let mut vram = vec![0u8; VIDEO_RAM_LEN];
    vram[100] = 0xa5;
    vram[7167] = 0x81;
    let buf = decode_frame(&vram);
    for px in 0..(PIXEL_BUFFER_LEN / 4) {
        assert_eq!(buf[4 * px + 3], 255);
    }
}

#[test]
fn last_byte_lands_at_the_top_right() {
    let mut vram = vec![0u8; VIDEO_RAM_LEN];
    // byte 7167: source x = 248, source y = 223; bit 7 -> x = 223, y = 0
    vram[7167] = 0x80;
    let buf = decode_frame(&vram);
    assert_eq!(pixel(&buf, 223, 0), WHITE);
    assert_eq!(pixel(&buf, 223, 1), BLACK);
    assert_eq!(pixel(&buf, 222, 0), BLACK);
}

#[test]
fn index_to_coordinates_walks_column_major() {
    assert_eq!(memory_buffer_index_to_coordinates(0), (0, 0));
    assert_eq!(memory_buffer_index_to_coordinates(1), (8, 0));
    assert_eq!(memory_buffer_index_to_coordinates(31), (248, 0));
    assert_eq!(memory_buffer_index_to_coordinates(32), (0, 1));
    assert_eq!(memory_buffer_index_to_coordinates(33), (8, 1));
    assert_eq!(memory_buffer_index_to_coordinates(7167), (248, 223));
}
