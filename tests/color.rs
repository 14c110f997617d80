use termcad::color::{parse_hex_color, Rgb};

#[test]
fn parses_with_and_without_hash() {
    assert_eq!(parse_hex_color("#00ff41"), Some(Rgb { r: 0, g: 255, b: 65 }));
    assert_eq!(parse_hex_color("0A0b0C"), Some(Rgb { r: 10, g: 11, b: 12 }));
}

#[test]
fn rejects_malformed_colours() {
    assert_eq!(parse_hex_color(""), None);
    assert_eq!(parse_hex_color("#"), None);
    assert_eq!(parse_hex_color("##000000"), None);
    assert_eq!(parse_hex_color("#+f+f+f"), None);
    assert_eq!(parse_hex_color("#00ff4g"), None);
    assert_eq!(parse_hex_color("#00ff411"), None);
}
