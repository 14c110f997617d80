//! A vector stroke font for ASCII text.
//!
//! Coordinates are whole hundredths of a character cell: `x` runs from the
//! left edge (0) to the right edge (100), `y` from the baseline (0) to the
//! cap height (100). The renderer scales them to the font size.
use vstd::prelude::*;

use crate::scene::{ExpressionContext, GlyphAnimation};

verus! {

/// One straight line of a glyph, from `(x0, y0)` to `(x1, y1)`.
#[derive(Clone, Copy, Debug, PartialEq, Eq, Structural)]
pub struct Stroke {
    pub x0: u8,
    pub y0: u8,
    pub x1: u8,
    pub y1: u8,
}

pub open spec fn stroke(x0: u8, y0: u8, x1: u8, y1: u8) -> Stroke {
    Stroke { x0, y0, x1, y1 }
}

/// Both ends of the stroke lie inside the character cell.
pub open spec fn in_cell(s: Stroke) -> bool {
    s.x0 <= 100 && s.y0 <= 100 && s.x1 <= 100 && s.y1 <= 100
}

/// ASCII upper-casing: `a`..`z` become `A`..`Z`, every other character stays.
pub open spec fn ascii_upper(c: char) -> char {
    if 'a' <= c && c <= 'z' {
        ((c as u32) - 32) as char
    } else {
        c
    }
}

/// The outline of a box filling the cell, drawn for characters the font lacks.
pub open spec fn box_outline() -> Seq<Stroke> {
    seq![stroke(0, 0, 100, 0), stroke(100, 0, 100, 100), stroke(100, 100, 0, 100), stroke(0, 100, 0, 0)]
}

/// The strokes of the glyph for `c`, which is looked up as given (callers
/// upper-case it first).
pub open spec fn glyph_outline(c: char) -> Seq<Stroke> {
    match c {
        'A' => seq![
            stroke(0, 0, 50, 100),
            stroke(50, 100, 100, 0),
            stroke(20, 50, 80, 50),
        ],
        'B' => seq![
            stroke(0, 0, 0, 100),
            stroke(0, 100, 70, 100),
            stroke(70, 100, 100, 80),
            stroke(100, 80, 100, 60),
            stroke(100, 60, 70, 50),
            stroke(0, 50, 70, 50),
            stroke(70, 50, 100, 40),
            stroke(100, 40, 100, 20),
            stroke(100, 20, 70, 0),
            stroke(70, 0, 0, 0),
        ],
        'C' => seq![
            stroke(100, 80, 50, 100),
            stroke(50, 100, 0, 70),
            stroke(0, 70, 0, 30),
            stroke(0, 30, 50, 0),
            stroke(50, 0, 100, 20),
        ],
        'D' => seq![
            stroke(0, 0, 0, 100),
            stroke(0, 100, 60, 100),
            stroke(60, 100, 100, 70),
            stroke(100, 70, 100, 30),
            stroke(100, 30, 60, 0),
            stroke(60, 0, 0, 0),
        ],
        'E' => seq![
            stroke(100, 100, 0, 100),
            stroke(0, 100, 0, 0),
            stroke(0, 0, 100, 0),
            stroke(0, 50, 70, 50),
        ],
        'F' => seq![
            stroke(100, 100, 0, 100),
            stroke(0, 100, 0, 0),
            stroke(0, 50, 70, 50),
        ],
        'G' => seq![
            stroke(100, 80, 50, 100),
            stroke(50, 100, 0, 70),
            stroke(0, 70, 0, 30),
            stroke(0, 30, 50, 0),
            stroke(50, 0, 100, 30),
            stroke(100, 30, 100, 50),
            stroke(100, 50, 50, 50),
        ],
        'H' => seq![
            stroke(0, 0, 0, 100),
            stroke(100, 0, 100, 100),
            stroke(0, 50, 100, 50),
        ],
        'I' => seq![
            stroke(30, 0, 70, 0),
            stroke(50, 0, 50, 100),
            stroke(30, 100, 70, 100),
        ],
        'J' => seq![
            stroke(30, 100, 70, 100),
            stroke(50, 100, 50, 20),
            stroke(50, 20, 30, 0),
            stroke(30, 0, 0, 20),
        ],
        'K' => seq![
            stroke(0, 0, 0, 100),
            stroke(100, 100, 0, 50),
            stroke(0, 50, 100, 0),
        ],
        'L' => seq![stroke(0, 100, 0, 0), stroke(0, 0, 100, 0)],
        'M' => seq![
            stroke(0, 0, 0, 100),
            stroke(0, 100, 50, 50),
            stroke(50, 50, 100, 100),
            stroke(100, 100, 100, 0),
        ],
        'N' => seq![
            stroke(0, 0, 0, 100),
            stroke(0, 100, 100, 0),
            stroke(100, 0, 100, 100),
        ],
        'O' => seq![
            stroke(30, 0, 70, 0),
            stroke(70, 0, 100, 30),
            stroke(100, 30, 100, 70),
            stroke(100, 70, 70, 100),
            stroke(70, 100, 30, 100),
            stroke(30, 100, 0, 70),
            stroke(0, 70, 0, 30),
            stroke(0, 30, 30, 0),
        ],
        'P' => seq![
            stroke(0, 0, 0, 100),
            stroke(0, 100, 70, 100),
            stroke(70, 100, 100, 80),
            stroke(100, 80, 100, 60),
            stroke(100, 60, 70, 50),
            stroke(70, 50, 0, 50),
        ],
        'Q' => seq![
            stroke(30, 0, 70, 0),
            stroke(70, 0, 100, 30),
            stroke(100, 30, 100, 70),
            stroke(100, 70, 70, 100),
            stroke(70, 100, 30, 100),
            stroke(30, 100, 0, 70),
            stroke(0, 70, 0, 30),
            stroke(0, 30, 30, 0),
            stroke(50, 30, 100, 0),
        ],
        'R' => seq![
            stroke(0, 0, 0, 100),
            stroke(0, 100, 70, 100),
            stroke(70, 100, 100, 80),
            stroke(100, 80, 100, 60),
            stroke(100, 60, 70, 50),
            stroke(70, 50, 0, 50),
            stroke(50, 50, 100, 0),
        ],
        'S' => seq![
            stroke(100, 80, 50, 100),
            stroke(50, 100, 0, 70),
            stroke(0, 70, 30, 50),
            stroke(30, 50, 70, 50),
            stroke(70, 50, 100, 30),
            stroke(100, 30, 50, 0),
            stroke(50, 0, 0, 20),
        ],
        'T' => seq![stroke(0, 100, 100, 100), stroke(50, 100, 50, 0)],
        'U' => seq![
            stroke(0, 100, 0, 30),
            stroke(0, 30, 30, 0),
            stroke(30, 0, 70, 0),
            stroke(70, 0, 100, 30),
            stroke(100, 30, 100, 100),
        ],
        'V' => seq![stroke(0, 100, 50, 0), stroke(50, 0, 100, 100)],
        'W' => seq![
            stroke(0, 100, 25, 0),
            stroke(25, 0, 50, 50),
            stroke(50, 50, 75, 0),
            stroke(75, 0, 100, 100),
        ],
        'X' => seq![stroke(0, 100, 100, 0), stroke(100, 100, 0, 0)],
        'Y' => seq![
            stroke(0, 100, 50, 50),
            stroke(100, 100, 50, 50),
            stroke(50, 50, 50, 0),
        ],
        'Z' => seq![
            stroke(0, 100, 100, 100),
            stroke(100, 100, 0, 0),
            stroke(0, 0, 100, 0),
        ],
        '0' => seq![
            stroke(30, 0, 70, 0),
            stroke(70, 0, 100, 30),
            stroke(100, 30, 100, 70),
            stroke(100, 70, 70, 100),
            stroke(70, 100, 30, 100),
            stroke(30, 100, 0, 70),
            stroke(0, 70, 0, 30),
            stroke(0, 30, 30, 0),
            stroke(20, 20, 80, 80),
        ],
        '1' => seq![
            stroke(30, 80, 50, 100),
            stroke(50, 100, 50, 0),
            stroke(30, 0, 70, 0),
        ],
        '2' => seq![
            stroke(0, 80, 30, 100),
            stroke(30, 100, 70, 100),
            stroke(70, 100, 100, 70),
            stroke(100, 70, 100, 50),
            stroke(100, 50, 0, 0),
            stroke(0, 0, 100, 0),
        ],
        '3' => seq![
            stroke(0, 100, 100, 100),
            stroke(100, 100, 50, 50),
            stroke(50, 50, 100, 30),
            stroke(100, 30, 70, 0),
            stroke(70, 0, 0, 0),
        ],
        '4' => seq![
            stroke(70, 0, 70, 100),
            stroke(70, 100, 0, 30),
            stroke(0, 30, 100, 30),
        ],
        '5' => seq![
            stroke(100, 100, 0, 100),
            stroke(0, 100, 0, 50),
            stroke(0, 50, 70, 50),
            stroke(70, 50, 100, 30),
            stroke(100, 30, 70, 0),
            stroke(70, 0, 0, 0),
        ],
        '6' => seq![
            stroke(100, 80, 50, 100),
            stroke(50, 100, 0, 50),
            stroke(0, 50, 0, 30),
            stroke(0, 30, 30, 0),
            stroke(30, 0, 70, 0),
            stroke(70, 0, 100, 20),
            stroke(100, 20, 100, 40),
            stroke(100, 40, 70, 50),
            stroke(70, 50, 0, 50),
        ],
        '7' => seq![stroke(0, 100, 100, 100), stroke(100, 100, 30, 0)],
        '8' => seq![
            stroke(30, 50, 0, 70),
            stroke(0, 70, 30, 100),
            stroke(30, 100, 70, 100),
            stroke(70, 100, 100, 70),
            stroke(100, 70, 70, 50),
            stroke(70, 50, 30, 50),
            stroke(30, 50, 0, 30),
            stroke(0, 30, 30, 0),
            stroke(30, 0, 70, 0),
            stroke(70, 0, 100, 30),
            stroke(100, 30, 70, 50),
        ],
        '9' => seq![
            stroke(0, 20, 50, 0),
            stroke(50, 0, 100, 50),
            stroke(100, 50, 100, 70),
            stroke(100, 70, 70, 100),
            stroke(70, 100, 30, 100),
            stroke(30, 100, 0, 80),
            stroke(0, 80, 0, 60),
            stroke(0, 60, 30, 50),
            stroke(30, 50, 100, 50),
        ],
        ' ' => Seq::empty(),
        '-' => seq![stroke(20, 50, 80, 50)],
        '_' => seq![stroke(0, 0, 100, 0)],
        '.' => seq![
            stroke(40, 0, 60, 0),
            stroke(60, 0, 60, 10),
            stroke(60, 10, 40, 10),
            stroke(40, 10, 40, 0),
        ],
        ':' => seq![
            stroke(40, 20, 60, 20),
            stroke(60, 20, 60, 30),
            stroke(60, 30, 40, 30),
            stroke(40, 30, 40, 20),
            stroke(40, 70, 60, 70),
            stroke(60, 70, 60, 80),
            stroke(60, 80, 40, 80),
            stroke(40, 80, 40, 70),
        ],
        '>' => seq![stroke(0, 100, 100, 50), stroke(100, 50, 0, 0)],
        '<' => seq![stroke(100, 100, 0, 50), stroke(0, 50, 100, 0)],
        '/' => seq![stroke(0, 0, 100, 100)],
        '\\' => seq![stroke(0, 100, 100, 0)],
        '=' => seq![stroke(10, 60, 90, 60), stroke(10, 40, 90, 40)],
        '+' => seq![stroke(10, 50, 90, 50), stroke(50, 20, 50, 80)],
        '*' => seq![
            stroke(10, 50, 90, 50),
            stroke(20, 20, 80, 80),
            stroke(20, 80, 80, 20),
        ],
        '[' => seq![
            stroke(70, 100, 30, 100),
            stroke(30, 100, 30, 0),
            stroke(30, 0, 70, 0),
        ],
        ']' => seq![
            stroke(30, 100, 70, 100),
            stroke(70, 100, 70, 0),
            stroke(70, 0, 30, 0),
        ],
        '(' => seq![
            stroke(70, 100, 30, 70),
            stroke(30, 70, 30, 30),
            stroke(30, 30, 70, 0),
        ],
        ')' => seq![
            stroke(30, 100, 70, 70),
            stroke(70, 70, 70, 30),
            stroke(70, 30, 30, 0),
        ],
        _ => box_outline(),
    }
}

fn upper(c: char) -> (r: char)
    ensures
        r == ascii_upper(c),
{
    if 'a' <= c && c <= 'z' {
        ((c as u8) - 32) as char
    } else {
        c
    }
}

fn st(x0: u8, y0: u8, x1: u8, y1: u8) -> (r: Stroke)
    ensures
        r == stroke(x0, y0, x1, y1),
{
    Stroke { x0, y0, x1, y1 }
}

/// The strokes that draw `ch`. Lookup ignores ASCII case; a character the
/// font lacks is drawn as the outline of its cell.
#[verifier::rlimit(50)]
pub fn char_strokes(ch: char) -> (r: Vec<Stroke>)
    ensures
        r@ == glyph_outline(ascii_upper(ch)),
        forall|i: int| 0 <= i < r@.len() ==> in_cell(#[trigger] r@[i]),
{
    match upper(ch) {
        'A' => vec![
            st(0, 0, 50, 100),
            st(50, 100, 100, 0),
            st(20, 50, 80, 50),
        ],
        'B' => vec![
            st(0, 0, 0, 100),
            st(0, 100, 70, 100),
            st(70, 100, 100, 80),
            st(100, 80, 100, 60),
            st(100, 60, 70, 50),
            st(0, 50, 70, 50),
            st(70, 50, 100, 40),
            st(100, 40, 100, 20),
            st(100, 20, 70, 0),
            st(70, 0, 0, 0),
        ],
        'C' => vec![
            st(100, 80, 50, 100),
            st(50, 100, 0, 70),
            st(0, 70, 0, 30),
            st(0, 30, 50, 0),
            st(50, 0, 100, 20),
        ],
        'D' => vec![
            st(0, 0, 0, 100),
            st(0, 100, 60, 100),
            st(60, 100, 100, 70),
            st(100, 70, 100, 30),
            st(100, 30, 60, 0),
            st(60, 0, 0, 0),
        ],
        'E' => vec![
            st(100, 100, 0, 100),
            st(0, 100, 0, 0),
            st(0, 0, 100, 0),
            st(0, 50, 70, 50),
        ],
        'F' => vec![
            st(100, 100, 0, 100),
            st(0, 100, 0, 0),
            st(0, 50, 70, 50),
        ],
        'G' => vec![
            st(100, 80, 50, 100),
            st(50, 100, 0, 70),
            st(0, 70, 0, 30),
            st(0, 30, 50, 0),
            st(50, 0, 100, 30),
            st(100, 30, 100, 50),
            st(100, 50, 50, 50),
        ],
        'H' => vec![
            st(0, 0, 0, 100),
            st(100, 0, 100, 100),
            st(0, 50, 100, 50),
        ],
        'I' => vec![
            st(30, 0, 70, 0),
            st(50, 0, 50, 100),
            st(30, 100, 70, 100),
        ],
        'J' => vec![
            st(30, 100, 70, 100),
            st(50, 100, 50, 20),
            st(50, 20, 30, 0),
            st(30, 0, 0, 20),
        ],
        'K' => vec![
            st(0, 0, 0, 100),
            st(100, 100, 0, 50),
            st(0, 50, 100, 0),
        ],
        'L' => vec![st(0, 100, 0, 0), st(0, 0, 100, 0)],
        'M' => vec![
            st(0, 0, 0, 100),
            st(0, 100, 50, 50),
            st(50, 50, 100, 100),
            st(100, 100, 100, 0),
        ],
        'N' => vec![
            st(0, 0, 0, 100),
            st(0, 100, 100, 0),
            st(100, 0, 100, 100),
        ],
        'O' => vec![
            st(30, 0, 70, 0),
            st(70, 0, 100, 30),
            st(100, 30, 100, 70),
            st(100, 70, 70, 100),
            st(70, 100, 30, 100),
            st(30, 100, 0, 70),
            st(0, 70, 0, 30),
            st(0, 30, 30, 0),
        ],
        'P' => vec![
            st(0, 0, 0, 100),
            st(0, 100, 70, 100),
            st(70, 100, 100, 80),
            st(100, 80, 100, 60),
            st(100, 60, 70, 50),
            st(70, 50, 0, 50),
        ],
        'Q' => vec![
            st(30, 0, 70, 0),
            st(70, 0, 100, 30),
            st(100, 30, 100, 70),
            st(100, 70, 70, 100),
            st(70, 100, 30, 100),
            st(30, 100, 0, 70),
            st(0, 70, 0, 30),
            st(0, 30, 30, 0),
            st(50, 30, 100, 0),
        ],
        'R' => vec![
            st(0, 0, 0, 100),
            st(0, 100, 70, 100),
            st(70, 100, 100, 80),
            st(100, 80, 100, 60),
            st(100, 60, 70, 50),
            st(70, 50, 0, 50),
            st(50, 50, 100, 0),
        ],
        'S' => vec![
            st(100, 80, 50, 100),
            st(50, 100, 0, 70),
            st(0, 70, 30, 50),
            st(30, 50, 70, 50),
            st(70, 50, 100, 30),
            st(100, 30, 50, 0),
            st(50, 0, 0, 20),
        ],
        'T' => vec![st(0, 100, 100, 100), st(50, 100, 50, 0)],
        'U' => vec![
            st(0, 100, 0, 30),
            st(0, 30, 30, 0),
            st(30, 0, 70, 0),
            st(70, 0, 100, 30),
            st(100, 30, 100, 100),
        ],
        'V' => vec![st(0, 100, 50, 0), st(50, 0, 100, 100)],
        'W' => vec![
            st(0, 100, 25, 0),
            st(25, 0, 50, 50),
            st(50, 50, 75, 0),
            st(75, 0, 100, 100),
        ],
        'X' => vec![st(0, 100, 100, 0), st(100, 100, 0, 0)],
        'Y' => vec![
            st(0, 100, 50, 50),
            st(100, 100, 50, 50),
            st(50, 50, 50, 0),
        ],
        'Z' => vec![
            st(0, 100, 100, 100),
            st(100, 100, 0, 0),
            st(0, 0, 100, 0),
        ],
        '0' => vec![
            st(30, 0, 70, 0),
            st(70, 0, 100, 30),
            st(100, 30, 100, 70),
            st(100, 70, 70, 100),
            st(70, 100, 30, 100),
            st(30, 100, 0, 70),
            st(0, 70, 0, 30),
            st(0, 30, 30, 0),
            st(20, 20, 80, 80),
        ],
        '1' => vec![
            st(30, 80, 50, 100),
            st(50, 100, 50, 0),
            st(30, 0, 70, 0),
        ],
        '2' => vec![
            st(0, 80, 30, 100),
            st(30, 100, 70, 100),
            st(70, 100, 100, 70),
            st(100, 70, 100, 50),
            st(100, 50, 0, 0),
            st(0, 0, 100, 0),
        ],
        '3' => vec![
            st(0, 100, 100, 100),
            st(100, 100, 50, 50),
            st(50, 50, 100, 30),
            st(100, 30, 70, 0),
            st(70, 0, 0, 0),
        ],
        '4' => vec![
            st(70, 0, 70, 100),
            st(70, 100, 0, 30),
            st(0, 30, 100, 30),
        ],
        '5' => vec![
            st(100, 100, 0, 100),
            st(0, 100, 0, 50),
            st(0, 50, 70, 50),
            st(70, 50, 100, 30),
            st(100, 30, 70, 0),
            st(70, 0, 0, 0),
        ],
        '6' => vec![
            st(100, 80, 50, 100),
            st(50, 100, 0, 50),
            st(0, 50, 0, 30),
            st(0, 30, 30, 0),
            st(30, 0, 70, 0),
            st(70, 0, 100, 20),
            st(100, 20, 100, 40),
            st(100, 40, 70, 50),
            st(70, 50, 0, 50),
        ],
        '7' => vec![st(0, 100, 100, 100), st(100, 100, 30, 0)],
        '8' => vec![
            st(30, 50, 0, 70),
            st(0, 70, 30, 100),
            st(30, 100, 70, 100),
            st(70, 100, 100, 70),
            st(100, 70, 70, 50),
            st(70, 50, 30, 50),
            st(30, 50, 0, 30),
            st(0, 30, 30, 0),
            st(30, 0, 70, 0),
            st(70, 0, 100, 30),
            st(100, 30, 70, 50),
        ],
        '9' => vec![
            st(0, 20, 50, 0),
            st(50, 0, 100, 50),
            st(100, 50, 100, 70),
            st(100, 70, 70, 100),
            st(70, 100, 30, 100),
            st(30, 100, 0, 80),
            st(0, 80, 0, 60),
            st(0, 60, 30, 50),
            st(30, 50, 100, 50),
        ],
        ' ' => Vec::new(),
        '-' => vec![st(20, 50, 80, 50)],
        '_' => vec![st(0, 0, 100, 0)],
        '.' => vec![
            st(40, 0, 60, 0),
            st(60, 0, 60, 10),
            st(60, 10, 40, 10),
            st(40, 10, 40, 0),
        ],
        ':' => vec![
            st(40, 20, 60, 20),
            st(60, 20, 60, 30),
            st(60, 30, 40, 30),
            st(40, 30, 40, 20),
            st(40, 70, 60, 70),
            st(60, 70, 60, 80),
            st(60, 80, 40, 80),
            st(40, 80, 40, 70),
        ],
        '>' => vec![st(0, 100, 100, 50), st(100, 50, 0, 0)],
        '<' => vec![st(100, 100, 0, 50), st(0, 50, 100, 0)],
        '/' => vec![st(0, 0, 100, 100)],
        '\\' => vec![st(0, 100, 100, 0)],
        '=' => vec![st(10, 60, 90, 60), st(10, 40, 90, 40)],
        '+' => vec![st(10, 50, 90, 50), st(50, 20, 50, 80)],
        '*' => vec![
            st(10, 50, 90, 50),
            st(20, 20, 80, 80),
            st(20, 80, 80, 20),
        ],
        '[' => vec![
            st(70, 100, 30, 100),
            st(30, 100, 30, 0),
            st(30, 0, 70, 0),
        ],
        ']' => vec![
            st(30, 100, 70, 100),
            st(70, 100, 70, 0),
            st(70, 0, 30, 0),
        ],
        '(' => vec![
            st(70, 100, 30, 70),
            st(30, 70, 30, 30),
            st(30, 30, 70, 0),
        ],
        ')' => vec![
            st(30, 100, 70, 70),
            st(70, 70, 70, 30),
            st(70, 30, 30, 0),
        ],
        _ => vec![
            st(0, 0, 100, 0),
            st(100, 0, 100, 100),
            st(100, 100, 0, 100),
            st(0, 100, 0, 0),
        ],
    }
}

/// A stroke placed in the `cell`-th character cell of a line of text.
#[derive(Clone, Copy, Debug, PartialEq, Eq, Structural)]
pub struct PlacedStroke {
    pub cell: usize,
    pub stroke: Stroke,
}

/// The strokes of the characters of `chars`, in order, each tagged with the
/// position of its character.
pub open spec fn text_layout(chars: Seq<char>) -> Seq<PlacedStroke>
    decreases chars.len(),
{
    if chars.len() == 0 {
        Seq::empty()
    } else {
        let i = (chars.len() - 1) as int;
        text_layout(chars.take(i)) + glyph_outline(ascii_upper(chars[i])).map_values(
            |s: Stroke| PlacedStroke { cell: i as usize, stroke: s },
        )
    }
}

/// The number of characters of a `len`-character text that are shown at
/// `ctx`: all of them, except while typing, where `floor(t * len)` are.
pub open spec fn visible_count(animation: GlyphAnimation, len: nat, ctx: ExpressionContext) -> nat {
    match animation {
        GlyphAnimation::Type => {
            let n = ctx.t_num() * len / ctx.t_den();
            if n < len {
                n
            } else {
                len
            }
        },
        _ => len,
    }
}

pub fn visible_char_count(animation: GlyphAnimation, len: usize, ctx: &ExpressionContext) -> (r: usize)
    ensures
        r == visible_count(animation, len as nat, *ctx),
        r <= len,
{
    match animation {
        GlyphAnimation::Type => {
            let (num, den) = ctx.t_fraction();
            proof {
                let a = num as int;
                let b = len as int;
                assert(0 <= a * b <= 0xffff_ffff * 0xffff_ffff_ffff_ffff) by (nonlinear_arith)
                    requires
                        0 <= a <= 0xffff_ffff,
                        0 <= b <= 0xffff_ffff_ffff_ffff,
                ;
            }
            let n: u128 = (num as u128) * (len as u128) / (den as u128);
            if n < len as u128 {
                n as usize
            } else {
                len
            }
        },
        _ => len,
    }
}

/// The strokes that draw the first `count` characters of `text`, character
/// by character, each tagged with its character's position.
pub fn text_strokes(text: &str, count: usize) -> (r: Vec<PlacedStroke>)
    requires
        count <= text@.len(),
    ensures
        r@ == text_layout(text@.take(count as int)),
{
    let mut r: Vec<PlacedStroke> = Vec::new();
    let mut i: usize = 0;
    while i < count
        invariant
            i <= count,
            count <= text@.len(),
            r@ == text_layout(text@.take(i as int)),
        decreases count - i,
    {
        let ch = text.get_char(i);
        let strokes = char_strokes(ch);
        let ghost before = r@;
        let mut j: usize = 0;
        while j < strokes.len()
            invariant
                j <= strokes@.len(),
                strokes@ == glyph_outline(ascii_upper(ch)),
                r@ == before + strokes@.take(j as int).map_values(
                    |s: Stroke| PlacedStroke { cell: i, stroke: s },
                ),
            decreases strokes.len() - j,
        {
            r.push(PlacedStroke { cell: i, stroke: strokes[j] });
            proof {
                assert(strokes@.take(j + 1) =~= strokes@.take(j as int).push(strokes@[j as int]));
                assert(r@ =~= before + strokes@.take(j + 1).map_values(
                    |s: Stroke| PlacedStroke { cell: i, stroke: s },
                ));
            }
            j = j + 1;
        }
        proof {
            let next = text@.take(i + 1);
            assert(next.take(i as int) =~= text@.take(i as int));
            assert(next[i as int] == ch);
            assert(strokes@.take(strokes@.len() as int) =~= strokes@);
        }
        i = i + 1;
    }
    r
}

} // verus!
