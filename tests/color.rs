use osmium_engine::{Color, Style};

#[test]
fn named_color_numbers() {
    assert_eq!(Color::Black.ansi_number(true), "30");
    assert_eq!(Color::Red.ansi_number(true), "31");
    assert_eq!(Color::White.ansi_number(false), "47");
    assert_eq!(Color::BrightBlack.ansi_number(true), "90");
    assert_eq!(Color::BrightBlue.ansi_number(false), "104");
    assert_eq!(Color::BrightWhite.ansi_number(true), "97");
}

#[test]
fn rgb_color_numbers() {
    assert_eq!(Color::Rgb(1, 2, 3).ansi_number(true), "38;2;1;2;3");
    assert_eq!(Color::Rgb(255, 0, 128).ansi_number(false), "48;2;255;0;128");
}

#[test]
fn no_color_is_empty() {
    assert_eq!(Color::NoColor.ansi_number(true), "");
    assert_eq!(Color::NoColor.to_ansi(false), "");
    assert_eq!(Color::default(), Color::NoColor);
}

#[test]
fn color_escapes() {
    assert_eq!(Color::Red.to_ansi(true), "\x1b[31m");
    assert_eq!(Color::Cyan.to_ansi(false), "\x1b[46m");
    assert_eq!(Color::BrightBlack.to_ansi(true), "\x1b[90m");
    assert_eq!(Color::BrightRed.to_ansi(false), "\x1b[101m");
    assert_eq!(Color::Rgb(10, 20, 30).to_ansi(false), "\x1b[48;2;10;20;30m");
}

#[test]
fn style_escape_combines_colors() {
    let both = Style { color: Color::Red, background: Color::Blue, px: 0, py: 0 };
    assert_eq!(both.to_ansi(), "\x1b[31;44m");
    let bg = Style { background: Color::Rgb(1, 2, 3), ..Style::default() };
    assert_eq!(bg.to_ansi(), "\x1b[48;2;1;2;3m");
    let fg = Style { color: Color::BrightGreen, ..Style::default() };
    assert_eq!(fg.to_ansi(), "\x1b[92m");
    assert_eq!(Style::default().to_ansi(), "");
}
