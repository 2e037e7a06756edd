use webboy::palette::{get_palette, Color};

#[test]
fn test_get_palette() {
    assert_eq!(Color::from_bits(0), Color::White);
    assert_eq!(Color::from_bits(1), Color::LightGray);
    assert_eq!(Color::from_bits(2), Color::DarkGray);
    assert_eq!(Color::from_bits(3), Color::Black);

    let palette = get_palette(0b1101_1000);

    assert_eq!(palette.id_zero, Color::White);
    assert_eq!(palette.id_one, Color::DarkGray);
    assert_eq!(palette.id_two, Color::LightGray);
    assert_eq!(palette.id_three, Color::Black);
}
