use pack_overlay::pixel::{average_pixel, Pixel};
use pack_overlay::texture::{blend_texture, Texture};

fn px(red: u8, green: u8, blue: u8, alpha: u8) -> Pixel {
    Pixel { red, green, blue, alpha }
}

#[test]
fn average_pixel_exact_values() {
    let r = average_pixel(px(100, 40, 200, 255), px(200, 120, 40, 77));
    assert_eq!(r, px(125, 60, 160, 255));

    let r = average_pixel(px(0, 0, 0, 0), px(255, 255, 255, 255));
    assert_eq!(r, px(63, 63, 63, 0));

    let r = average_pixel(px(255, 255, 255, 255), px(0, 0, 0, 0));
    assert_eq!(r, px(191, 191, 191, 255));

    let r = average_pixel(px(7, 7, 7, 7), px(7, 7, 7, 7));
    assert_eq!(r, px(6, 6, 6, 7));
}

#[test]
fn average_pixel_floor_division_per_share() {
    // Each share is floored before the addition: 3/4 of 3 is 2, 1/4 of 3 is 0.
    let r = average_pixel(px(3, 3, 3, 1), px(3, 3, 3, 1));
    assert_eq!(r, px(2, 2, 2, 1));
}

#[test]
fn average_pixel_alpha_ignores_overlay() {
    for overlay_alpha in [0u8, 1, 128, 255] {
        let r = average_pixel(px(10, 20, 30, 200), px(50, 60, 70, overlay_alpha));
        assert_eq!(r.alpha, 200);
    }
    let r = average_pixel(px(10, 20, 30, 0), px(50, 60, 70, 255));
    assert_eq!(r.alpha, 0);
}

fn solid(side: u32, p: Pixel) -> Texture {
    let mut data = Vec::new();
    for _ in 0..side * side {
        data.push(p.red);
        data.push(p.green);
        data.push(p.blue);
        data.push(p.alpha);
    }
    Texture { width: side, height: side, data }
}

#[test]
fn blend_texture_blends_every_pixel() {
    let block = solid(128, px(100, 40, 200, 9));
    let overlay = solid(128, px(200, 120, 40, 200));
    let out = blend_texture(&block, &overlay);
    assert_eq!(out.width, 128);
    assert_eq!(out.height, 128);
    assert_eq!(out.data.len(), 128 * 128 * 4);
    for chunk in out.data.chunks(4) {
        assert_eq!(chunk, &[125, 60, 160, 9]);
    }
}

#[test]
fn blend_texture_varied_pixels() {
    let mut block = solid(128, px(0, 0, 0, 255));
    // One distinctive pixel at (1, 0): offset 4.
    block.data[4] = 255;
    block.data[5] = 8;
    block.data[6] = 16;
    block.data[7] = 0;
    let overlay = solid(128, px(40, 80, 120, 7));
    let out = blend_texture(&block, &overlay);
    assert_eq!(&out.data[0..4], &[10, 20, 30, 255]);
    assert_eq!(&out.data[4..8], &[201, 26, 42, 0]);
}
