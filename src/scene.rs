//! The plain parts of a scene description: canvas, axis colours, the kinds of
//! solids and text animations, the per-frame time context and the defaults
//! that a scene file may leave out.
use vstd::prelude::*;

verus! {

/// Output size in pixels and the background colour (`#RRGGBB`).
#[derive(Debug)]
pub struct Canvas {
    pub width: u32,
    pub height: u32,
    pub background: String,
}

impl Default for Canvas {
    fn default() -> (r: Canvas)
        ensures
            r.width == 800,
            r.height == 600,
            r.background@ == "#0a0a0a"@,
    {
        Canvas { width: default_width(), height: default_height(), background: default_background() }
    }
}

/// The colours of the three axes of an axes element.
#[derive(Debug)]
pub struct AxisColors {
    pub x: String,
    pub y: String,
    pub z: String,
}

impl Default for AxisColors {
    fn default() -> (r: AxisColors)
        ensures
            r.x@ == "#ff0000"@,
            r.y@ == "#00ff00"@,
            r.z@ == "#0000ff"@,
    {
        AxisColors { x: default_x_color(), y: default_y_color(), z: default_z_color() }
    }
}

/// The parametric solids a wireframe element can draw.
#[derive(Clone, Copy, Debug, PartialEq, Eq, Structural)]
pub enum GeometryType {
    Cube,
    Sphere,
    Torus,
    Ico,
    Cylinder,
}

impl Default for GeometryType {
    fn default() -> (r: GeometryType)
        ensures
            r == GeometryType::Cube,
    {
        GeometryType::Cube
    }
}

/// How the text of a glyph element appears over the animation.
#[derive(Clone, Copy, Debug, PartialEq, Eq, Structural)]
pub enum GlyphAnimation {
    /// The whole text is always shown.
    Plain,
    /// The text is revealed one character at a time.
    Type,
    /// The whole text is shown with a flickering opacity.
    Flicker,
}

impl Default for GlyphAnimation {
    fn default() -> (r: GlyphAnimation)
        ensures
            r == GlyphAnimation::Plain,
    {
        GlyphAnimation::Plain
    }
}

/// The position of one frame in the animation. The normalised time `t` is
/// the fraction `t_num() / t_den()`: `frame / (total_frames - 1)` when there
/// is more than one frame, else 0.
#[derive(Clone, Copy, Debug, PartialEq, Eq, Structural)]
pub struct ExpressionContext {
    pub frame: u32,
    pub total_frames: u32,
}

impl ExpressionContext {
    pub open spec fn t_num(self) -> nat {
        if self.total_frames > 1 {
            self.frame as nat
        } else {
            0
        }
    }

    pub open spec fn t_den(self) -> nat {
        if self.total_frames > 1 {
            (self.total_frames - 1) as nat
        } else {
            1
        }
    }

    pub fn new(frame: u32, total_frames: u32) -> (r: ExpressionContext)
        ensures
            r.frame == frame,
            r.total_frames == total_frames,
    {
        ExpressionContext { frame, total_frames }
    }

    /// The normalised time as a fraction `(numerator, denominator)`.
    pub fn t_fraction(&self) -> (r: (u32, u32))
        ensures
            r.0 == self.t_num(),
            r.1 == self.t_den(),
            r.1 > 0,
    {
        if self.total_frames > 1 {
            (self.frame, self.total_frames - 1)
        } else {
            (0, 1)
        }
    }
}

/// For every frame of an animation, `t` lies in `[0, 1]`; it is 0 at the
/// first frame, 1 at the last one when there are several frames, and 0
/// throughout when there is at most one frame.
pub proof fn lemma_time_in_unit_interval(frame: u32, total_frames: u32)
    requires
        frame < total_frames || (frame == 0 && total_frames == 0),
    ensures
        ({
            let ctx = ExpressionContext { frame, total_frames };
            &&& ctx.t_den() > 0
            &&& ctx.t_num() <= ctx.t_den()
            &&& frame == 0 ==> ctx.t_num() == 0
            &&& total_frames > 1 && frame == total_frames - 1 ==> ctx.t_num() == ctx.t_den()
            &&& total_frames <= 1 ==> ctx.t_num() == 0
        }),
{
}

pub fn default_fps() -> (r: u32)
    ensures
        r == 30,
{
    30
}

pub fn default_loop() -> (r: bool)
    ensures
        r,
{
    true
}

pub fn default_width() -> (r: u32)
    ensures
        r == 800,
{
    800
}

pub fn default_height() -> (r: u32)
    ensures
        r == 600,
{
    600
}

pub fn default_background() -> (r: String)
    ensures
        r@ == "#0a0a0a"@,
{
    String::from_str("#0a0a0a")
}

pub fn default_grid_divisions() -> (r: u32)
    ensures
        r == 20,
{
    20
}

/// The phosphor green that elements are drawn in unless told otherwise.
pub fn default_color() -> (r: String)
    ensures
        r@ == "#00ff41"@,
{
    String::from_str("#00ff41")
}

pub fn default_geometry() -> (r: GeometryType)
    ensures
        r == GeometryType::Cube,
{
    GeometryType::Cube
}

pub fn default_particle_count() -> (r: u32)
    ensures
        r == 100,
{
    100
}

pub fn default_depth_fade() -> (r: bool)
    ensures
        r,
{
    true
}

pub fn default_x_color() -> (r: String)
    ensures
        r@ == "#ff0000"@,
{
    String::from_str("#ff0000")
}

pub fn default_y_color() -> (r: String)
    ensures
        r@ == "#00ff00"@,
{
    String::from_str("#00ff00")
}

pub fn default_z_color() -> (r: String)
    ensures
        r@ == "#0000ff"@,
{
    String::from_str("#0000ff")
}

pub fn default_scanline_count() -> (r: u32)
    ensures
        r == 300,
{
    300
}

} // verus!
