use ue_types::color::Color;

#[test]
fn color_test_color_hex_conversion() {
    let red = Color::from_hex(0xFF0000);
    assert_eq!(red, Color::red());
    assert_eq!(red.to_hex(), 0xFF0000);
}

#[test]
fn color_test_color_display() {
    let color = Color::new(255, 128, 64, 255);
    let display_str = color.to_display_string();
    assert!(display_str.contains("R=255"));
    assert!(display_str.contains("G=128"));
    assert!(display_str.contains("B=64"));
    assert!(display_str.contains("#FF8040FF"));
}

#[test]
fn test_color_constructors() {
    assert_eq!(Color::rgb(1, 2, 3), Color::new(1, 2, 3, 255));
    assert_eq!(Color::gray(9), Color::new(9, 9, 9, 255));
    assert_eq!(Color::white(), Color::new(255, 255, 255, 255));
    assert_eq!(Color::black(), Color::new(0, 0, 0, 255));
}

#[test]
fn test_color_rgba_round_trip() {
    let c = Color::from_hex_rgba(0x11223344);
    assert_eq!(c, Color::new(0x11, 0x22, 0x33, 0x44));
    assert_eq!(c.to_hex_rgba(), 0x11223344);
    assert_eq!(Color::from_hex_rgba(Color::new(4, 8, 15, 16).to_hex_rgba()), Color::new(4, 8, 15, 16));
}

#[test]
fn test_color_display_exact() {
    let color = Color::new(255, 128, 64, 255);
    assert_eq!(
        color.to_display_string(),
        "Color(R=255, G=128, B=64, A=255) [#FF8040FF]"
    );
    assert_eq!(
        Color::new(0, 0, 0, 0).to_display_string(),
        "Color(R=0, G=0, B=0, A=0) [#00000000]"
    );
}
