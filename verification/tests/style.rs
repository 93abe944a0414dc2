use lscolors::style::{parse_codes, Color, FontStyle, Style};

fn assert_style(
    code: &str,
    foreground: Option<Color>,
    background: Option<Color>,
    font_style: FontStyle,
) {
    let style = Style::from_ansi_sequence(code).unwrap();
    assert_eq!(foreground, style.foreground);
    assert_eq!(background, style.background);
    assert_eq!(font_style, style.font_style);
}

#[test]
fn parse_simple() {
    assert_style("31", Some(Color::Red), None, FontStyle::default());
    assert_style("47", None, Some(Color::White), FontStyle::default());
    assert_style(
        "32;40",
        Some(Color::Green),
        Some(Color::Black),
        FontStyle::default(),
    );
}

#[test]
fn parse_font_style() {
    assert_style("00;31", Some(Color::Red), None, FontStyle::default());
    assert_style("03;34", Some(Color::Blue), None, FontStyle::italic());
    assert_style("01;36", Some(Color::Cyan), None, FontStyle::bold());
    let italic_and_bold = FontStyle {
        bold: true,
        italic: true,
        underline: false,
    };
    assert_style("01;03", None, None, italic_and_bold);
}

#[test]
fn parse_font_style_backwards() {
    assert_style("34;03", Some(Color::Blue), None, FontStyle::italic());
    assert_style("36;01", Some(Color::Cyan), None, FontStyle::bold());
    assert_style("31;00", Some(Color::Red), None, FontStyle::default());
}

#[test]
fn parse_8_bit_colors() {
    assert_style(
        "38;5;115",
        Some(Color::Fixed(115)),
        None,
        FontStyle::default(),
    );
    assert_style(
        "00;38;5;115",
        Some(Color::Fixed(115)),
        None,
        FontStyle::default(),
    );
    assert_style(
        "01;38;5;119",
        Some(Color::Fixed(119)),
        None,
        FontStyle::bold(),
    );
    assert_style(
        "38;5;119;01",
        Some(Color::Fixed(119)),
        None,
        FontStyle::bold(),
    );
}

#[test]
fn parse_24_bit_colors() {
    assert_style(
        "38;2;115;3;100",
        Some(Color::RGB(115, 3, 100)),
        None,
        FontStyle::default(),
    );
    assert_style(
        "38;2;115;3;100;3",
        Some(Color::RGB(115, 3, 100)),
        None,
        FontStyle::italic(),
    );
}

#[test]
fn font_style_constructors() {
    assert_eq!(
        FontStyle {
            bold: false,
            italic: false,
            underline: false
        },
        FontStyle::default()
    );
    assert_eq!(
        FontStyle {
            bold: true,
            italic: false,
            underline: false
        },
        FontStyle::bold()
    );
    assert_eq!(
        FontStyle {
            bold: false,
            italic: true,
            underline: false
        },
        FontStyle::italic()
    );
    assert_eq!(
        FontStyle {
            bold: false,
            italic: false,
            underline: true
        },
        FontStyle::underline()
    );
}

#[test]
fn parse_every_named_color() {
    let names = [
        Color::Black,
        Color::Red,
        Color::Green,
        Color::Yellow,
        Color::Blue,
        Color::Purple,
        Color::Cyan,
        Color::White,
    ];
    for (n, color) in names.iter().enumerate() {
        let foreground = format!("{}", 30 + n);
        assert_style(&foreground, Some(*color), None, FontStyle::default());
        let background = format!("{}", 40 + n);
        assert_style(&background, None, Some(*color), FontStyle::default());
    }
}

#[test]
fn parse_underline_and_all_attributes() {
    assert_style("4", None, None, FontStyle::underline());
    assert_style(
        "1;3;4",
        None,
        None,
        FontStyle {
            bold: true,
            italic: true,
            underline: true,
        },
    );
}

#[test]
fn parse_reset_clears_attributes_and_keeps_colors() {
    assert_style(
        "1;3;4;31;42;0",
        Some(Color::Red),
        Some(Color::Green),
        FontStyle::default(),
    );
    assert_style("1;0;3", None, None, FontStyle::italic());
}

#[test]
fn parse_default_colors() {
    assert_style("31;39", None, None, FontStyle::default());
    assert_style("41;49", None, None, FontStyle::default());
    assert_style("31;41;39", None, Some(Color::Red), FontStyle::default());
    assert_style("31;41;49", Some(Color::Red), None, FontStyle::default());
}

#[test]
fn parse_extended_background() {
    assert_style("48;5;200", None, Some(Color::Fixed(200)), FontStyle::default());
    assert_style(
        "48;2;1;2;3",
        None,
        Some(Color::RGB(1, 2, 3)),
        FontStyle::default(),
    );
    assert_style(
        "38;2;255;0;100;1;4",
        Some(Color::RGB(255, 0, 100)),
        None,
        FontStyle {
            bold: true,
            italic: false,
            underline: true,
        },
    );
    assert_style(
        "38;5;0;48;5;255",
        Some(Color::Fixed(0)),
        Some(Color::Fixed(255)),
        FontStyle::default(),
    );
}

#[test]
fn parse_stops_at_cut_extended_color() {
    // what came before the cut sequence stays, what comes after is not read
    assert_style("1;38", None, None, FontStyle::bold());
    assert_style("1;38;5", None, None, FontStyle::bold());
    assert_style("31;38;2;10", Some(Color::Red), None, FontStyle::default());
    assert_style("31;38;2;10;20", Some(Color::Red), None, FontStyle::default());
    assert_style("3;48;2;10;20", None, None, FontStyle::italic());
    assert_style("3;48;7;1;4", None, None, FontStyle::italic());
    assert_style("38;9;1", None, None, FontStyle::default());
}

#[test]
fn parse_stops_at_unknown_code() {
    assert_style("1;99;31", None, None, FontStyle::bold());
    assert_style("2;31", None, None, FontStyle::default());
    assert_style("31;5;1", Some(Color::Red), None, FontStyle::default());
    assert_style("255", None, None, FontStyle::default());
}

#[test]
fn parse_zero_is_a_style() {
    assert_eq!(
        Some(Style {
            foreground: None,
            background: None,
            font_style: FontStyle::default()
        }),
        Style::from_ansi_sequence("0")
    );
    assert_eq!(
        Some(Style {
            foreground: None,
            background: None,
            font_style: FontStyle::default()
        }),
        Style::from_ansi_sequence("00")
    );
}

#[test]
fn parse_fails_on_what_is_no_byte() {
    assert_eq!(None, Style::from_ansi_sequence(""));
    assert_eq!(None, Style::from_ansi_sequence("x"));
    assert_eq!(None, Style::from_ansi_sequence("31;"));
    assert_eq!(None, Style::from_ansi_sequence(";31"));
    assert_eq!(None, Style::from_ansi_sequence("31;;1"));
    assert_eq!(None, Style::from_ansi_sequence("256"));
    assert_eq!(None, Style::from_ansi_sequence("1000000000000000000000000"));
    assert_eq!(None, Style::from_ansi_sequence("-1"));
    assert_eq!(None, Style::from_ansi_sequence(" 1"));
    assert_eq!(None, Style::from_ansi_sequence("1 "));
    assert_eq!(None, Style::from_ansi_sequence("0x1f"));
    assert_eq!(None, Style::from_ansi_sequence("+"));
    assert_eq!(None, Style::from_ansi_sequence("++1"));
    assert_eq!(None, Style::from_ansi_sequence("1;99;x"));
    assert_eq!(None, Style::from_ansi_sequence("٣"));
}

#[test]
fn parse_accepts_sign_and_leading_zeros() {
    assert_style("+31", Some(Color::Red), None, FontStyle::default());
    assert_style("0000031", Some(Color::Red), None, FontStyle::default());
    assert_style("+001;+38;+5;+255", Some(Color::Fixed(255)), None, FontStyle::bold());
}

#[test]
fn parse_codes_lists_bytes() {
    let code: Vec<char> = "01;38;5;119".chars().collect();
    assert_eq!(Some(vec![1u8, 38, 5, 119]), parse_codes(&code));
    let code: Vec<char> = "0;255".chars().collect();
    assert_eq!(Some(vec![0u8, 255]), parse_codes(&code));
    let code: Vec<char> = "0;256".chars().collect();
    assert_eq!(None, parse_codes(&code));
}

#[test]
fn from_ansi_chars_agrees_with_from_ansi_sequence() {
    for code in ["01;34", "38;2;1;2;3;4", "", "x;1", "48;5", "1;3;4;0;31"] {
        let chars: Vec<char> = code.chars().collect();
        assert_eq!(
            Style::from_ansi_sequence(code),
            Style::from_ansi_chars(&chars)
        );
    }
}

#[test]
fn attributes_stay_until_reset() {
    for code in ["1;31;42;3;4;38;5;7;39;49", "1;48;2;1;2;3;35"] {
        assert!(Style::from_ansi_sequence(code).unwrap().font_style.bold);
    }
    assert!(!Style::from_ansi_sequence("1;31;0;42").unwrap().font_style.bold);
}

#[test]
fn color_and_attribute_in_any_order() {
    for color in (30..=37).chain(40..=47) {
        for attribute in [1, 3, 4] {
            assert_eq!(
                Style::from_ansi_sequence(&format!("{};{}", color, attribute)),
                Style::from_ansi_sequence(&format!("{};{}", attribute, color))
            );
        }
    }
}
