use chat_relay::palette::get_random_color;
use crossterm::style::Color;

#[test]
fn random_color_is_of_the_palette() {
    let palette = [
        Color::Blue,
        Color::Cyan,
        Color::Green,
        Color::Magenta,
        Color::Red,
        Color::Yellow,
        Color::White,
    ];
    let mut seen = Vec::new();
    for _ in 0..500 {
        let color = get_random_color();
        assert!(palette.contains(&color));
        if !seen.contains(&color) {
            seen.push(color);
        }
    }
    assert!(seen.len() > 1);
}
