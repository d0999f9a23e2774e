use vga_text::color::Color;
use vga_text::color::ColorCode;

#[test]
fn palette_indices_are_fixed() {
    assert_eq!(Color::Black.code(), 0);
    assert_eq!(Color::Blue.code(), 1);
    assert_eq!(Color::Green.code(), 2);
    assert_eq!(Color::Cyan.code(), 3);
    assert_eq!(Color::Red.code(), 4);
    assert_eq!(Color::Magenta.code(), 5);
    assert_eq!(Color::Brown.code(), 6);
    assert_eq!(Color::LightGrey.code(), 7);
    assert_eq!(Color::DarkGrey.code(), 8);
    assert_eq!(Color::LightBlue.code(), 9);
    assert_eq!(Color::LightGreen.code(), 10);
    assert_eq!(Color::LightCyan.code(), 11);
    assert_eq!(Color::LightRed.code(), 12);
    assert_eq!(Color::Pink.code(), 13);
    assert_eq!(Color::Yellow.code(), 14);
    assert_eq!(Color::White.code(), 15);
}

#[test]
fn green_on_black_packs_to_two() {
    assert_eq!(ColorCode::new(Color::Green, Color::Black).value(), (0 << 4) | 2);
    assert_eq!(ColorCode::new(Color::Green, Color::Black).value(), 2);
}

#[test]
fn white_on_blue_packs_to_thirty_one() {
    assert_eq!(ColorCode::new(Color::White, Color::Blue).value(), (1 << 4) | 15);
    assert_eq!(ColorCode::new(Color::White, Color::Blue).value(), 31);
}

#[test]
fn background_fills_high_nibble() {
    assert_eq!(ColorCode::new(Color::Black, Color::White).value(), 0xf0);
    assert_eq!(ColorCode::new(Color::Yellow, Color::LightRed).value(), (12 << 4) | 14);
}
