//! Checks on the integer and colour fields of a scene.
use vstd::prelude::*;

use crate::color::{is_hex_color, parse_hex_color};
use crate::scene::Canvas;

verus! {

/// Why a scene was rejected; each variant carries a human-readable message.
#[derive(Debug)]
pub enum ValidationError {
    InvalidColor(String),
    InvalidDimensions(String),
    InvalidElement(String),
    InvalidExpression(String),
    InvalidValue(String),
}

impl ValidationError {
    pub open spec fn message_spec(&self) -> Seq<char> {
        match self {
            ValidationError::InvalidColor(m) => "Invalid color format: "@ + m@,
            ValidationError::InvalidDimensions(m) => "Invalid canvas dimensions: "@ + m@,
            ValidationError::InvalidElement(m) => "Invalid element configuration: "@ + m@,
            ValidationError::InvalidExpression(m) => "Invalid expression: "@ + m@,
            ValidationError::InvalidValue(m) => "Invalid value: "@ + m@,
        }
    }

    /// The error as a sentence: what kind of problem, then the detail.
    pub fn message(&self) -> (r: String)
        ensures
            r@ == self.message_spec(),
    {
        match self {
            ValidationError::InvalidColor(m) => String::from_str("Invalid color format: ").concat(m.as_str()),
            ValidationError::InvalidDimensions(m) => String::from_str("Invalid canvas dimensions: ").concat(
                m.as_str(),
            ),
            ValidationError::InvalidElement(m) => String::from_str("Invalid element configuration: ").concat(
                m.as_str(),
            ),
            ValidationError::InvalidExpression(m) => String::from_str("Invalid expression: ").concat(m.as_str()),
            ValidationError::InvalidValue(m) => String::from_str("Invalid value: ").concat(m.as_str()),
        }
    }
}

/// The largest canvas width and height.
pub const MAX_CANVAS_SIZE: u32 = 4096;

pub open spec fn color_message(color: Seq<char>) -> Seq<char> {
    "'"@ + color + "' is not a valid hex color (expected #RRGGBB)"@
}

/// Accepts `#RRGGBB` and bare `RRGGBB`; anything else is an invalid colour.
pub fn validate_color(color: &str) -> (r: Result<(), ValidationError>)
    ensures
        r is Ok <==> is_hex_color(color@),
        r matches Err(e) ==> e matches ValidationError::InvalidColor(m) && m@ == color_message(color@),
{
    if parse_hex_color(color).is_none() {
        let m = String::from_str("'").concat(color).concat("' is not a valid hex color (expected #RRGGBB)");
        return Err(ValidationError::InvalidColor(m));
    }
    Ok(())
}

pub open spec fn size_in_range(v: u32) -> bool {
    1 <= v && v <= MAX_CANVAS_SIZE
}

/// Width and height must lie in `1 ..= 4096`, checked in that order, and the
/// background must be a hex colour.
pub fn validate_canvas(canvas: &Canvas) -> (r: Result<(), ValidationError>)
    ensures
        r is Ok <==> size_in_range(canvas.width) && size_in_range(canvas.height) && is_hex_color(
            canvas.background@,
        ),
        !size_in_range(canvas.width) ==> (r matches Err(ValidationError::InvalidDimensions(m))
            && m@ == "width must be between 1 and 4096"@),
        size_in_range(canvas.width) && !size_in_range(canvas.height) ==> (r matches Err(
            ValidationError::InvalidDimensions(m),
        ) && m@ == "height must be between 1 and 4096"@),
        size_in_range(canvas.width) && size_in_range(canvas.height) && !is_hex_color(
            canvas.background@,
        ) ==> (r matches Err(ValidationError::InvalidColor(m)) && m@ == color_message(
            canvas.background@,
        )),
{
    if canvas.width == 0 || canvas.width > MAX_CANVAS_SIZE {
        return Err(ValidationError::InvalidDimensions(String::from_str("width must be between 1 and 4096")));
    }
    if canvas.height == 0 || canvas.height > MAX_CANVAS_SIZE {
        return Err(ValidationError::InvalidDimensions(String::from_str("height must be between 1 and 4096")));
    }
    validate_color(canvas.background.as_str())
}

} // verus!
