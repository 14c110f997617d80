use termcad::grid::{grid_fades, Fade};
use termcad::line::line_segments;

#[test]
fn line_with_too_few_points_draws_nothing() {
    assert!(line_segments(0, false).is_empty());
    assert!(line_segments(1, true).is_empty());
}

#[test]
fn open_two_point_line_is_one_segment() {
    assert_eq!(line_segments(2, false), vec![(0, 1)]);
    assert_eq!(line_segments(2, true), vec![(0, 1)]);
}

#[test]
fn closed_line_returns_to_start() {
    assert_eq!(line_segments(3, true), vec![(0, 1), (1, 2), (2, 0)]);
    assert_eq!(line_segments(3, false), vec![(0, 1), (1, 2)]);
}

#[test]
fn grid_fade_profile() {
    let f = grid_fades(20);
    assert_eq!(f.len(), 21);
    assert_eq!(f[10], Fade { num: 400, den: 400 });
    assert_eq!(f[0].num, 0);
    assert_eq!(f[20].num, 0);
    assert_eq!(f[5], Fade { num: 300, den: 400 });
    assert!(f.iter().all(|x| x.num <= x.den));
}

#[test]
fn grid_with_one_division() {
    assert_eq!(grid_fades(1), vec![Fade { num: 0, den: 1 }, Fade { num: 0, den: 1 }]);
}
