use fabric_ui::color::concat_color;
use fabric_ui::color::muldiv255;
use fabric_ui::color::premultiply_color;
use fabric_ui::color::split_color;

#[test]
fn split_extracts_channels_in_rgba_order() {
    assert_eq!(split_color(0x11223344), (0x11, 0x22, 0x33, 0x44));
    assert_eq!(split_color(0x00000000), (0, 0, 0, 0));
    assert_eq!(split_color(0xFFFFFFFF), (0xFF, 0xFF, 0xFF, 0xFF));
}

#[test]
fn concat_packs_channels_back() {
    assert_eq!(concat_color(0x11, 0x22, 0x33, 0x44), 0x11223344);
    let c = 0xA1B2C3D4;
    let (r, g, b, a) = split_color(c);
    assert_eq!(concat_color(r, g, b, a), c);
}

#[test]
fn premultiply_scales_channels_by_alpha() {
    // 255, 128, 64 at alpha 128: floor(c * 128 / 255) per channel.
    assert_eq!(premultiply_color(0xFF804080), 0x80402080);
    // Alpha 255 leaves channels alone.
    assert_eq!(premultiply_color(0x102030FF), 0x102030FF);
    // Alpha 0 clears the channels.
    assert_eq!(premultiply_color(0xFFFFFF00), 0x00000000);
}

#[test]
fn muldiv255_rounds_channel_products() {
    assert_eq!(muldiv255(255, 255), 255);
    assert_eq!(muldiv255(128, 128), 64);
    assert_eq!(muldiv255(0, 200), 0);
    assert_eq!(muldiv255(255, 1), 1);
    // 100 * 100 / 255 = 39.2..., rounding to 39.
    assert_eq!(muldiv255(100, 100), 39);
    // 50 * 140 / 255 = 27.45..., rounding to 27.
    assert_eq!(muldiv255(50, 140), 27);
}
