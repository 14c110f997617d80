//! The fading floor grid.
//!
//! A grid of `d` divisions draws `d + 1` lines along each axis, evenly
//! spaced across a square centred on the origin. Line `i` sits at
//! `(2i / d - 1)` half-widths from the centre, and its opacity is scaled by
//! the fade factor `1 - (2i / d - 1)^2 = 4i(d - i) / d^2`: 1 on the
//! centre line, 0 on the border.
use vstd::prelude::*;

verus! {

/// A fade factor, the fraction `num / den`.
#[derive(Clone, Copy, Debug, PartialEq, Eq, Structural)]
pub struct Fade {
    pub num: u64,
    pub den: u64,
}

pub open spec fn fade_of(i: int, divisions: int) -> Fade {
    Fade { num: (4 * i * (divisions - i)) as u64, den: (divisions * divisions) as u64 }
}

proof fn lemma_fade_bounds(i: int, d: int)
    requires
        0 <= i <= d,
    ensures
        0 <= 4 * i * (d - i) <= d * d,
{
    assert(0 <= 4 * i * (d - i)) by (nonlinear_arith)
        requires
            0 <= i <= d,
    ;
    assert(4 * i * (d - i) <= d * d) by (nonlinear_arith)
        requires
            0 <= i <= d,
    ;
}

/// The fade factor of each of the `divisions + 1` lines along one axis.
pub fn grid_fades(divisions: u32) -> (r: Vec<Fade>)
    requires
        divisions > 0,
    ensures
        r@ == Seq::new(divisions as nat + 1, |i: int| fade_of(i, divisions as int)),
{
    let d = divisions as u64;
    proof {
        assert(d * d <= 0xffff_ffff * 0xffff_ffff) by (nonlinear_arith)
            requires
                d <= 0xffff_ffff,
        ;
    }
    let den = d * d;
    let mut r: Vec<Fade> = Vec::new();
    let mut i: u64 = 0;
    while i <= d
        invariant
            d == divisions,
            den == d * d,
            i <= d + 1,
            r@ =~= Seq::new(i as nat, |k: int| fade_of(k, divisions as int)),
        decreases d + 1 - i,
    {
        proof {
            lemma_fade_bounds(i as int, d as int);
            assert(0 <= i * (d - i) && 4 * (i * (d - i)) == 4 * i * (d - i)) by (nonlinear_arith)
                requires
                    i <= d,
            ;
            assert(d * d <= 0xffff_ffff * 0xffff_ffff) by (nonlinear_arith)
                requires
                    d <= 0xffff_ffff,
            ;
        }
        let num = 4 * (i * (d - i));
        assert(num == 4 * i * (d - i)) by (nonlinear_arith)
            requires
                num == 4 * (i * (d - i)),
        ;
        r.push(Fade { num, den });
        i = i + 1;
    }
    r
}

/// Every fade factor lies in `[0, 1]`; the border lines have factor 0 and,
/// for an even number of divisions, the centre line has factor 1.
pub proof fn lemma_grid_fade(i: int, divisions: int)
    requires
        0 < divisions <= u32::MAX,
        0 <= i <= divisions,
    ensures
        fade_of(i, divisions).den > 0,
        fade_of(i, divisions).num <= fade_of(i, divisions).den,
        i == 0 || i == divisions ==> fade_of(i, divisions).num == 0,
        2 * i == divisions ==> fade_of(i, divisions).num == fade_of(i, divisions).den,
{
    lemma_fade_bounds(i, divisions);
    assert(0 < divisions * divisions <= 0xffff_ffff * 0xffff_ffff) by (nonlinear_arith)
        requires
            0 < divisions <= 0xffff_ffff,
    ;
    if 2 * i == divisions {
        assert(4 * i * (divisions - i) == divisions * divisions) by (nonlinear_arith)
            requires
                2 * i == divisions,
        ;
    }
    if i == 0 || i == divisions {
        assert(4 * i * (divisions - i) == 0) by (nonlinear_arith)
            requires
                i == 0 || i == divisions,
        ;
    }
}

} // verus!
