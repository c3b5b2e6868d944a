use dandelions::color::Color;

#[test]
fn from_hex_ff8040_gives_expected_channels() {
    let c = Color::from_hex(0xFF8040);
    assert_eq!(c.r, 10_000);
    assert_eq!(c.g, 5_019);
    assert_eq!(c.b, 2_509);
    assert_eq!(c.a, 10_000);
    assert!((c.r as f32 / 10_000.0 - 1.0).abs() < 1e-6);
    assert!((c.g as f32 / 10_000.0 - 0.5019).abs() < 1e-6);
    assert!((c.b as f32 / 10_000.0 - 0.2509).abs() < 1e-6);
}

#[test]
fn from_hex_str_matches_from_hex() {
    let a = Color::from_hex_str("#FF8040");
    let b = Color::from_hex(0xFF8040);
    assert_eq!(a, b);
    let c = Color::from_hex_str("ff8040");
    assert_eq!(c, b);
    let d = Color::from_hex_str("##00a1FF");
    let e = Color::from_hex(0x00A1FF);
    assert_eq!(d, e);
}

#[test]
fn from_gray_fills_three_channels() {
    let c = Color::from_gray(4_200, 10_000);
    assert_eq!((c.r, c.g, c.b, c.a), (4_200, 4_200, 4_200, 10_000));
}

#[test]
fn from_rgb_float_is_opaque() {
    let c = Color::from_rgb_float(10_000, 8_500, 4_500);
    assert_eq!((c.r, c.g, c.b, c.a), (10_000, 8_500, 4_500, 10_000));
}

#[test]
fn scale_fades_colour_channels_only() {
    let mut c = Color::from_rgb_float(10_000, 8_500, 4_500);
    c.scale(5_000);
    assert_eq!((c.r, c.g, c.b, c.a), (5_000, 4_250, 2_250, 10_000));
    c.scale(0);
    assert_eq!((c.r, c.g, c.b, c.a), (0, 0, 0, 10_000));
}

#[test]
fn hue_angle_primaries() {
    // 0, 120 and 240 degrees are the pure primaries.
    let red = Color::hue_angle_to_rgb(0);
    assert_eq!((red.r, red.g, red.b, red.a), (10_000, 0, 0, 10_000));
    let green = Color::hue_angle_to_rgb(1_200_000);
    assert_eq!((green.r, green.g, green.b, green.a), (0, 10_000, 0, 10_000));
    let blue = Color::hue_angle_to_rgb(2_400_000);
    assert_eq!((blue.r, blue.g, blue.b, blue.a), (0, 0, 10_000, 10_000));
}

#[test]
fn hue_angle_secondaries() {
    // 60, 180 and 300 degrees are yellow, cyan and magenta.
    let yellow = Color::hue_angle_to_rgb(600_000);
    assert_eq!((yellow.r, yellow.g, yellow.b), (10_000, 10_000, 0));
    let cyan = Color::hue_angle_to_rgb(1_800_000);
    assert_eq!((cyan.r, cyan.g, cyan.b), (0, 10_000, 10_000));
    let magenta = Color::hue_angle_to_rgb(3_000_000);
    assert_eq!((magenta.r, magenta.g, magenta.b), (10_000, 0, 10_000));
}

#[test]
fn hue_angle_interpolates_within_a_sector() {
    // 30 degrees: halfway from red to yellow, green rises to one half.
    let c = Color::hue_angle_to_rgb(300_000);
    assert_eq!((c.r, c.g, c.b), (10_000, 5_000, 0));
}

#[test]
fn channel_indexes_in_rgba_order() {
    let c = Color::from_rgb_float(1, 2, 3);
    assert_eq!(c.channel(0), 1);
    assert_eq!(c.channel(1), 2);
    assert_eq!(c.channel(2), 3);
    assert_eq!(c.channel(3), 10_000);
}
