use termcad::expression::{contains_str, preprocess_expression, replace_str};

#[test]
fn expands_easing_shorthands() {
    assert_eq!(
        preprocess_expression("ease_in_out(t)"),
        "(3.0 * t * t - 2.0 * t * t * t)"
    );
    assert_eq!(preprocess_expression("ease_in(t) * 2"), "(t * t) * 2");
    assert_eq!(
        preprocess_expression("ease_out(t)"),
        "(1.0 - (1.0 - t) * (1.0 - t))"
    );
}

#[test]
fn easing_matches_only_the_literal_argument() {
    assert_eq!(preprocess_expression("ease_in_out(t*2)"), "ease_in_out(t*2)");
}

#[test]
fn qualifies_math_calls() {
    assert_eq!(preprocess_expression("sin(t * PI)"), "math::sin(t * PI)");
    assert_eq!(
        preprocess_expression("1 + sqrt(t) + floor(t)"),
        "1 + math::sqrt(t) + math::floor(t)"
    );
}

#[test]
fn leaves_already_qualified_calls() {
    assert_eq!(preprocess_expression("math::sin(t)"), "math::sin(t)");
    assert_eq!(
        preprocess_expression("math::sin(t) + sin(t)"),
        "math::sin(t) + sin(t)"
    );
    assert_eq!(
        preprocess_expression("math::sin(t) + cos(t)"),
        "math::sin(t) + math::cos(t)"
    );
}

#[test]
fn plain_expressions_are_unchanged() {
    assert_eq!(preprocess_expression("t * 360"), "t * 360");
    assert_eq!(preprocess_expression(""), "");
}

#[test]
fn preprocessing_is_deterministic() {
    let a = preprocess_expression("ease_in(t) + cos(frame)");
    let b = preprocess_expression("ease_in(t) + cos(frame)");
    assert_eq!(a, b);
    assert_eq!(a, "(t * t) + math::cos(frame)");
}

#[test]
fn replace_and_contains() {
    assert_eq!(replace_str("aaaa", "aa", "b"), "bb");
    assert_eq!(replace_str("abcabc", "bc", "X"), "aXaX");
    assert_eq!(replace_str("abc", "zz", "X"), "abc");
    assert!(contains_str("hello", "ll"));
    assert!(!contains_str("hello", "lo!"));
    assert!(contains_str("x", ""));
}
