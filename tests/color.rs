use std::str::FromStr;

use qrtool::color::{parse_color, Color, FromHexError, Rgba};

#[test]
fn display() {
    assert_eq!(
        Color {
            red: 18,
            green: 58,
            blue: 188,
            alpha: None
        }
        .to_string(),
        "#123abc"
    );
    assert_eq!(
        Color {
            red: 18,
            green: 52,
            blue: 171,
            alpha: Some(205)
        }
        .to_string(),
        "#1234abcd"
    );
}

#[test]
fn from_str_of_rgb() {
    assert_eq!(
        Color::from_str("#123abc").unwrap(),
        Color {
            red: 18,
            green: 58,
            blue: 188,
            alpha: None
        }
    );
    assert_eq!(
        Color::from_str("123abc").unwrap(),
        Color {
            red: 18,
            green: 58,
            blue: 188,
            alpha: None
        }
    );
    assert_eq!(
        Color::from_str("#000000").unwrap(),
        Color {
            red: u8::MIN,
            green: u8::MIN,
            blue: u8::MIN,
            alpha: None
        }
    );
    assert_eq!(
        Color::from_str("#ffffff").unwrap(),
        Color {
            red: u8::MAX,
            green: u8::MAX,
            blue: u8::MAX,
            alpha: None
        }
    );
    assert!(Color::from_str("#gggggg").is_err());
    assert_eq!(
        Color::from_str("#123").unwrap(),
        Color {
            red: 17,
            green: 34,
            blue: 51,
            alpha: None
        }
    );
    assert_eq!(
        Color::from_str("abc").unwrap(),
        Color {
            red: 170,
            green: 187,
            blue: 204,
            alpha: None
        }
    );
    assert_eq!(
        Color::from_str("#000").unwrap(),
        Color {
            red: u8::MIN,
            green: u8::MIN,
            blue: u8::MIN,
            alpha: None
        }
    );
    assert_eq!(
        Color::from_str("#fff").unwrap(),
        Color {
            red: u8::MAX,
            green: u8::MAX,
            blue: u8::MAX,
            alpha: None
        }
    );
    assert!(Color::from_str("#ggg").is_err());
}

#[test]
fn from_str_of_rgba() {
    assert_eq!(
        Color::from_str("#1234abcd").unwrap(),
        Color {
            red: 18,
            green: 52,
            blue: 171,
            alpha: Some(205)
        }
    );
    assert_eq!(
        Color::from_str("1234abcd").unwrap(),
        Color {
            red: 18,
            green: 52,
            blue: 171,
            alpha: Some(205)
        }
    );
    assert_eq!(
        Color::from_str("#00000000").unwrap(),
        Color {
            red: u8::MIN,
            green: u8::MIN,
            blue: u8::MIN,
            alpha: Some(u8::MIN)
        }
    );
    assert_eq!(
        Color::from_str("#ffffffff").unwrap(),
        Color {
            red: u8::MAX,
            green: u8::MAX,
            blue: u8::MAX,
            alpha: Some(u8::MAX)
        }
    );
    assert!(Color::from_str("#gggggggg").is_err());
    assert_eq!(
        Color::from_str("#1234").unwrap(),
        Color {
            red: 17,
            green: 34,
            blue: 51,
            alpha: Some(68)
        }
    );
    assert_eq!(
        Color::from_str("abcd").unwrap(),
        Color {
            red: 170,
            green: 187,
            blue: 204,
            alpha: Some(221)
        }
    );
    assert_eq!(
        Color::from_str("#0000").unwrap(),
        Color {
            red: u8::MIN,
            green: u8::MIN,
            blue: u8::MIN,
            alpha: Some(u8::MIN)
        }
    );
    assert_eq!(
        Color::from_str("#ffff").unwrap(),
        Color {
            red: u8::MAX,
            green: u8::MAX,
            blue: u8::MAX,
            alpha: Some(u8::MAX)
        }
    );
    assert!(Color::from_str("#gggg").is_err());
}

#[test]
fn from_str_of_invalid_hexadecimal_notation() {
    assert!(Color::from_str("#1").is_err());
    assert!(Color::from_str("1").is_err());
    assert!(Color::from_str("#12").is_err());
    assert!(Color::from_str("12").is_err());
    assert!(Color::from_str("#1234a").is_err());
    assert!(Color::from_str("1234a").is_err());
    assert!(Color::from_str("#1234abc").is_err());
    assert!(Color::from_str("1234abc").is_err());

    assert!(Color::from_str("#").is_err());
    assert!(Color::from_str("").is_err());
}

#[test]
fn lower_hex() {
    assert_eq!(
        Color {
            red: 18,
            green: 58,
            blue: 188,
            alpha: None
        }
        .to_hex_string(),
        "123abc"
    );
    assert_eq!(
        Color {
            red: 18,
            green: 52,
            blue: 171,
            alpha: Some(205)
        }
        .to_hex_string(),
        "1234abcd"
    );
}

#[test]
fn hex_errors_name_their_cause() {
    assert!(matches!(
        Color::parse_hex("#12345"),
        Err(FromHexError::HexFormatError)
    ));
    assert!(matches!(
        Color::parse_hex("#12g"),
        Err(FromHexError::ParseIntError(_))
    ));
    assert!(matches!(
        Color::parse_hex("#éé"),
        Err(FromHexError::HexFormatError)
    ));
    assert!(matches!(
        Color::parse_hex("ééé"),
        Err(FromHexError::ParseIntError(_))
    ));
}

#[test]
fn hex_round_trip() {
    for h in ["#abc", "#ABCD", "12Ab5f", "#deadbeef", "#0000"] {
        let c = Color::parse_hex(h).unwrap();
        let again = Color::parse_hex(&c.to_hex_string()).unwrap();
        assert_eq!(c, again);
        assert_eq!(c.alpha.is_some(), again.alpha.is_some());
    }
}

#[test]
fn shorthand_expansion() {
    assert_eq!(
        Color::parse_hex("#abc").unwrap(),
        Color::parse_hex("#aabbcc").unwrap()
    );
    assert_eq!(
        Color::parse_hex("#abcd").unwrap(),
        Color::parse_hex("#aabbccdd").unwrap()
    );
}

#[test]
fn channels_fill_missing_alpha() {
    let c = Color::parse_hex("#123").unwrap();
    assert_eq!(c.channels(), [17, 34, 51, 255]);
    assert_eq!(c.to_rgba(), Rgba::from_rgba8(17, 34, 51, 255));
}

#[test]
fn parse_color_grammars() {
    assert_eq!(
        parse_color("#a52a2a").unwrap(),
        Rgba::from_rgba8(165, 42, 42, 255)
    );
    assert_eq!(
        parse_color("brown").unwrap(),
        Rgba::from_rgba8(165, 42, 42, 255)
    );
    assert_eq!(
        parse_color("lightslategray").unwrap(),
        Rgba::from_rgba8(119, 136, 153, 255)
    );
    assert_eq!(
        parse_color("rgb(255 0 0 / 50%)").unwrap(),
        Rgba::from_rgba8(255, 0, 0, 128)
    );
    assert_eq!(
        parse_color("hsl(120, 100%, 50%)").unwrap(),
        Rgba::from_rgba8(0, 255, 0, 255)
    );
    assert!(parse_color("rgb(a, b, c)").is_err());
    assert!(parse_color("nosuchcolor").is_err());
}

#[test]
fn css_hex_of_colors() {
    assert_eq!(Rgba::from_rgba8(165, 42, 42, 255).to_css_hex(), "#a52a2a");
    assert_eq!(Rgba::from_rgba8(165, 42, 42, 127).to_css_hex(), "#a52a2a7f");
}

#[test]
fn hex_error_messages() {
    assert_eq!(
        Color::parse_hex("#12").unwrap_err().message(),
        "Invalid hexadecimal notation"
    );
    assert_eq!(
        Color::parse_hex("#12g").unwrap_err().message(),
        "invalid digit found in string"
    );
}

#[test]
fn signs_are_not_digits() {
    assert!(matches!(
        Color::parse_hex("#+1+1+1"),
        Err(FromHexError::ParseIntError(_))
    ));
    assert!(Color::from_str("+f+f+f").is_err());
    assert!(Color::from_str("#-1-1-1").is_err());
}
