use termcad::scene::Canvas;
use termcad::validate::{validate_canvas, validate_color, ValidationError};

fn make_canvas(width: u32, height: u32, background: &str) -> Canvas {
    Canvas {
        width,
        height,
        background: background.to_string(),
    }
}

#[test]
fn test_validate_color_valid() {
    assert!(validate_color("#000000").is_ok());
    assert!(validate_color("#FFFFFF").is_ok());
    assert!(validate_color("#00ff41").is_ok());
    assert!(validate_color("#aAbBcC").is_ok());
}

#[test]
fn test_validate_color_invalid_short() {
    let result = validate_color("#FFF");
    assert!(result.is_err());
    match result {
        Err(ValidationError::InvalidColor(_)) => {}
        _ => panic!("Expected InvalidColor error"),
    }
}

#[test]
fn test_validate_color_invalid_char() {
    let result = validate_color("#12345G");
    assert!(result.is_err());
    match result {
        Err(ValidationError::InvalidColor(_)) => {}
        _ => panic!("Expected InvalidColor error"),
    }
}

#[test]
fn test_validate_color_without_hash_valid() {
    assert!(validate_color("000000").is_ok());
    assert!(validate_color("FFFFFF").is_ok());
}

#[test]
fn test_validate_color_wrong_length_no_hash() {
    let result = validate_color("12345");
    assert!(result.is_err());
    match result {
        Err(ValidationError::InvalidColor(_)) => {}
        _ => panic!("Expected InvalidColor error"),
    }
}

#[test]
fn test_validate_color_too_long() {
    let result = validate_color("#1234567");
    assert!(result.is_err());
    match result {
        Err(ValidationError::InvalidColor(_)) => {}
        _ => panic!("Expected InvalidColor error"),
    }
}

#[test]
fn test_validate_canvas_min_dimensions() {
    let canvas = make_canvas(1, 1, "#000000");
    assert!(validate_canvas(&canvas).is_ok());
}

#[test]
fn test_validate_canvas_max_dimensions() {
    let canvas = make_canvas(4096, 4096, "#000000");
    assert!(validate_canvas(&canvas).is_ok());
}

#[test]
fn test_validate_canvas_zero_width() {
    let canvas = make_canvas(0, 600, "#000000");
    let result = validate_canvas(&canvas);
    assert!(result.is_err());
    match result {
        Err(ValidationError::InvalidDimensions(_)) => {}
        _ => panic!("Expected InvalidDimensions error"),
    }
}

#[test]
fn test_validate_canvas_zero_height() {
    let canvas = make_canvas(800, 0, "#000000");
    let result = validate_canvas(&canvas);
    assert!(result.is_err());
    match result {
        Err(ValidationError::InvalidDimensions(_)) => {}
        _ => panic!("Expected InvalidDimensions error"),
    }
}

#[test]
fn test_validate_canvas_exceeds_max() {
    let canvas = make_canvas(4097, 600, "#000000");
    let result = validate_canvas(&canvas);
    assert!(result.is_err());
    match result {
        Err(ValidationError::InvalidDimensions(_)) => {}
        _ => panic!("Expected InvalidDimensions error"),
    }
}

#[test]
fn test_validate_canvas_invalid_color() {
    let canvas = make_canvas(800, 600, "invalid");
    let result = validate_canvas(&canvas);
    assert!(result.is_err());
    match result {
        Err(ValidationError::InvalidColor(_)) => {}
        _ => panic!("Expected InvalidColor error"),
    }
}

#[test]
fn color_error_message_names_the_colour() {
    match validate_color("bad") {
        Err(ValidationError::InvalidColor(m)) => {
            assert_eq!(m, "'bad' is not a valid hex color (expected #RRGGBB)")
        }
        _ => panic!("Expected InvalidColor error"),
    }
}

#[test]
fn canvas_height_checked_after_width() {
    match validate_canvas(&make_canvas(0, 0, "bad")) {
        Err(ValidationError::InvalidDimensions(m)) => {
            assert_eq!(m, "width must be between 1 and 4096")
        }
        _ => panic!("Expected InvalidDimensions error"),
    }
    match validate_canvas(&make_canvas(10, 4097, "bad")) {
        Err(ValidationError::InvalidDimensions(m)) => {
            assert_eq!(m, "height must be between 1 and 4096")
        }
        _ => panic!("Expected InvalidDimensions error"),
    }
}

#[test]
fn validation_message_has_kind_prefix() {
    let e = ValidationError::InvalidValue("fps must be between 1 and 120".to_string());
    assert_eq!(e.message(), "Invalid value: fps must be between 1 and 120");
    let e = ValidationError::InvalidElement("Element 0: x".to_string());
    assert_eq!(e.message(), "Invalid element configuration: Element 0: x");
}
