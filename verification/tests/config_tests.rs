use wcpopup::config::{
    default_dark_color_scheme, default_light_color_scheme, has_alpha, hex_from_rgb, hex_from_rgba_byte, rgba_bytes_from_hex,
    to_font_weight, to_font_weight_string, to_hex_string, to_rgba_string, FontWeight, IconSettings, MenuConfig, MenuSize,
    RgbaBytes, Theme, Corner, ThemeColor,
};

#[test]
fn hex_from_rgb_packs_bytes() {
    assert_eq!(hex_from_rgb(0x12, 0x34, 0x56), 0x123456);
    assert_eq!(hex_from_rgb(0, 0, 0), 0);
    assert_eq!(hex_from_rgb(255, 255, 255), 0xFFFFFF);
}

#[test]
fn hex_from_rgba_byte_packs_bytes() {
    assert_eq!(hex_from_rgba_byte(0xe7, 0xe0, 0xe0, 0x8c), 0xe7e0e08c);
}

#[test]
fn has_alpha_above_24_bits() {
    assert!(!has_alpha(0xFFFFFF));
    assert!(has_alpha(0x1000000));
    assert!(has_alpha(0xe7e0e08c));
}

#[test]
fn rgba_bytes_with_and_without_alpha() {
    assert_eq!(rgba_bytes_from_hex(0x12345678), RgbaBytes { r: 0x12, g: 0x34, b: 0x56, a: 0x78 });
    assert_eq!(rgba_bytes_from_hex(0x123456), RgbaBytes { r: 0x12, g: 0x34, b: 0x56, a: 255 });
    assert_eq!(rgba_bytes_from_hex(0), RgbaBytes { r: 0, g: 0, b: 0, a: 255 });
}

#[test]
fn rgb_round_trip_law_on_values() {
    let hex = hex_from_rgb(0xab, 0xcd, 0xef);
    assert_eq!(rgba_bytes_from_hex(hex), RgbaBytes { r: 0xab, g: 0xcd, b: 0xef, a: 255 });
}

#[test]
fn rgba_round_trip_law_on_values() {
    let hex = hex_from_rgba_byte(0x01, 0x02, 0x03, 0x04);
    assert_eq!(rgba_bytes_from_hex(hex), RgbaBytes { r: 1, g: 2, b: 3, a: 4 });
    // A zero red byte reads as a color without alpha.
    let hex = hex_from_rgba_byte(0, 0x02, 0x03, 0x04);
    assert_eq!(rgba_bytes_from_hex(hex), RgbaBytes { r: 2, g: 3, b: 4, a: 255 });
}

#[test]
fn to_hex_string_formats() {
    assert_eq!(to_hex_string(0xe7e0e08c), "#e7e0e08c");
    assert_eq!(to_hex_string(0x252526), "#252526");
    assert_eq!(to_hex_string(0x0000ff), "#0000ff");
    assert_eq!(to_hex_string(0), "#000000");
}

#[test]
fn to_rgba_string_formats() {
    assert_eq!(to_rgba_string(0x4947478c), "rgba(73, 71, 71, 0.55)");
    assert_eq!(to_rgba_string(0xFFFFFF), "rgba(255, 255, 255, 1.00)");
    assert_eq!(to_rgba_string(0x01020300), "rgba(1, 2, 3, 0.00)");
}

#[test]
fn to_rgba_string_alpha_matches_float_formatting() {
    for a in 0u32..=255 {
        let color = 0x10203000 | a;
        let expected = format!("rgba(16, 32, 48, {:.2})", a as f32 / 255.0);
        assert_eq!(to_rgba_string(color), expected);
    }
}

#[test]
fn font_weights() {
    assert_eq!(to_font_weight(FontWeight::Thin), 100);
    assert_eq!(to_font_weight(FontWeight::Light), 300);
    assert_eq!(to_font_weight(FontWeight::Normal), 400);
    assert_eq!(to_font_weight(FontWeight::Medium), 500);
    assert_eq!(to_font_weight(FontWeight::Bold), 700);
    assert_eq!(to_font_weight_string(100), "Thin");
    assert_eq!(to_font_weight_string(300), "Light");
    assert_eq!(to_font_weight_string(400), "Regular");
    assert_eq!(to_font_weight_string(500), "Medium");
    assert_eq!(to_font_weight_string(700), "Bold");
    assert_eq!(to_font_weight_string(600), "Regular");
}

#[test]
fn defaults() {
    let size = MenuSize::default();
    assert_eq!(size.border_size, 0);
    assert_eq!(size.item_vertical_padding, 8);
    assert_eq!(size.submenu_offset, -3);
    assert_eq!(size.separator_size, 1);
    let dark = default_dark_color_scheme();
    assert_eq!(dark.color, 0xe7e0e0);
    assert_eq!(dark.accelerator, 0xe7e0e08c);
    assert_eq!(dark.background_color, 0x252526);
    let light = default_light_color_scheme();
    assert_eq!(light.accelerator, 0x635e5e);
    assert_eq!(light.background_color, 0xFFFFFF);
    let colors = ThemeColor::default();
    assert_eq!(colors.dark, dark);
    assert_eq!(colors.light, light);
    let icon = IconSettings::default();
    assert!(icon.check_svg.is_none() && icon.arrow_svg.is_none() && !icon.reserve_icon_size);
    let config = MenuConfig::default();
    assert_eq!(config.theme, Theme::Light);
    assert_eq!(config.corner, Corner::Round);
}
