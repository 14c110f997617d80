use termcad::frames::{frame_contexts, frame_file_name, frame_number_width, progress_of, FrameProgress};
use termcad::scene::{
    default_background, default_color, default_fps, default_geometry, default_grid_divisions,
    default_height, default_loop, default_particle_count, default_scanline_count, default_width,
    default_x_color, default_y_color, default_z_color, default_depth_fade, AxisColors, Canvas,
    ExpressionContext, GeometryType, GlyphAnimation,
};

#[test]
fn defaults() {
    assert_eq!(default_fps(), 30);
    assert!(default_loop());
    assert_eq!((default_width(), default_height()), (800, 600));
    assert_eq!(default_background(), "#0a0a0a");
    assert_eq!(default_grid_divisions(), 20);
    assert_eq!(default_color(), "#00ff41");
    assert_eq!(default_geometry(), GeometryType::Cube);
    assert_eq!(default_particle_count(), 100);
    assert!(default_depth_fade());
    assert_eq!(default_x_color(), "#ff0000");
    assert_eq!(default_y_color(), "#00ff00");
    assert_eq!(default_z_color(), "#0000ff");
    assert_eq!(default_scanline_count(), 300);
    assert_eq!(GlyphAnimation::default(), GlyphAnimation::Plain);
    assert_eq!(GeometryType::default(), GeometryType::Cube);
    let c = Canvas::default();
    assert_eq!((c.width, c.height, c.background.as_str()), (800, 600, "#0a0a0a"));
    let a = AxisColors::default();
    assert_eq!((a.x.as_str(), a.y.as_str(), a.z.as_str()), ("#ff0000", "#00ff00", "#0000ff"));
}

#[test]
fn time_runs_from_zero_to_one() {
    assert_eq!(ExpressionContext::new(0, 30).t_fraction(), (0, 29));
    assert_eq!(ExpressionContext::new(15, 30).t_fraction(), (15, 29));
    assert_eq!(ExpressionContext::new(29, 30).t_fraction(), (29, 29));
    assert_eq!(ExpressionContext::new(0, 1).t_fraction(), (0, 1));
    assert_eq!(ExpressionContext::new(0, 0).t_fraction(), (0, 1));
}

#[test]
fn frames_come_in_order() {
    let frames = frame_contexts(60);
    assert_eq!(frames.len(), 60);
    for (i, ctx) in frames.iter().enumerate() {
        assert_eq!(ctx.frame as usize, i);
        assert_eq!(ctx.total_frames, 60);
    }
    assert!(frame_contexts(0).is_empty());
}

#[test]
fn progress_is_one_based() {
    let p = progress_of(&ExpressionContext::new(0, 4));
    assert_eq!(p, FrameProgress { frame: 1, total: 4 });
    assert_eq!(progress_of(&ExpressionContext::new(3, 4)).frame, 4);
}

#[test]
fn frame_names_are_zero_padded() {
    assert_eq!(frame_number_width(0), 0);
    assert_eq!(frame_number_width(1), 0);
    assert_eq!(frame_number_width(9), 1);
    assert_eq!(frame_number_width(10), 1);
    assert_eq!(frame_number_width(11), 2);
    assert_eq!(frame_number_width(60), 2);
    assert_eq!(frame_number_width(100), 2);
    assert_eq!(frame_number_width(101), 3);
    assert_eq!(frame_file_name(7, 3), "frame_007.png");
    assert_eq!(frame_file_name(42, 2), "frame_42.png");
    assert_eq!(frame_file_name(1234, 2), "frame_1234.png");
    assert_eq!(frame_file_name(0, 0), "frame_0.png");
}
