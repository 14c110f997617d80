use termcad::glyph::{char_strokes, text_strokes, visible_char_count, PlacedStroke, Stroke};
use termcad::scene::{ExpressionContext, GlyphAnimation};

fn s(x0: u8, y0: u8, x1: u8, y1: u8) -> Stroke {
    Stroke { x0, y0, x1, y1 }
}

#[test]
fn letter_a() {
    assert_eq!(
        char_strokes('A'),
        vec![s(0, 0, 50, 100), s(50, 100, 100, 0), s(20, 50, 80, 50)]
    );
}

#[test]
fn lookup_ignores_case() {
    assert_eq!(char_strokes('q'), char_strokes('Q'));
    assert_eq!(char_strokes('z'), char_strokes('Z'));
}

#[test]
fn unknown_characters_are_boxes() {
    let outline = vec![s(0, 0, 100, 0), s(100, 0, 100, 100), s(100, 100, 0, 100), s(0, 100, 0, 0)];
    assert_eq!(char_strokes('?'), outline);
    assert_eq!(char_strokes('\u{e9}'), outline);
}

#[test]
fn space_draws_nothing_and_dash_one_stroke() {
    assert!(char_strokes(' ').is_empty());
    assert_eq!(char_strokes('-'), vec![s(20, 50, 80, 50)]);
    assert_eq!(char_strokes('W')[0], s(0, 100, 25, 0));
}

#[test]
fn strokes_stay_inside_the_cell() {
    for b in 0u8..128 {
        for st in char_strokes(b as char) {
            assert!(st.x0 <= 100 && st.y0 <= 100 && st.x1 <= 100 && st.y1 <= 100);
        }
    }
}

#[test]
fn text_strokes_are_tagged_by_cell() {
    let placed = text_strokes("L-", 2);
    assert_eq!(
        placed,
        vec![
            PlacedStroke { cell: 0, stroke: s(0, 100, 0, 0) },
            PlacedStroke { cell: 0, stroke: s(0, 0, 100, 0) },
            PlacedStroke { cell: 1, stroke: s(20, 50, 80, 50) },
        ]
    );
    assert_eq!(text_strokes("L-", 1).len(), 2);
    assert!(text_strokes("HELLO", 0).is_empty());
}

#[test]
fn typing_reveals_floor_t_len() {
    let len = 10;
    let at = |frame| visible_char_count(GlyphAnimation::Type, len, &ExpressionContext::new(frame, 31));
    assert_eq!(at(0), 0);
    assert_eq!(at(15), 5);
    assert_eq!(at(14), 4);
    assert_eq!(at(30), 10);
    assert_eq!(visible_char_count(GlyphAnimation::Type, 5, &ExpressionContext::new(0, 1)), 0);
    assert_eq!(visible_char_count(GlyphAnimation::Type, 5, &ExpressionContext::new(9, 3)), 5);
}

#[test]
fn other_modes_show_everything() {
    let ctx = ExpressionContext::new(0, 30);
    assert_eq!(visible_char_count(GlyphAnimation::Plain, 7, &ctx), 7);
    assert_eq!(visible_char_count(GlyphAnimation::Flicker, 7, &ctx), 7);
}
