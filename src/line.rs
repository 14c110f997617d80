//! Which points of a polyline element are joined.
use vstd::prelude::*;

verus! {

/// The segments of a polyline through `n` points, as pairs of point
/// indices: each point to the next, then, for a closed line of three or more
/// points, the last point back to the first. Fewer than two points draw
/// nothing.
pub open spec fn polyline_segments(n: nat, closed: bool) -> Seq<(usize, usize)> {
    if n < 2 {
        Seq::empty()
    } else {
        Seq::new((n - 1) as nat, |i: int| (i as usize, (i + 1) as usize)) + if closed && n > 2 {
            seq![((n - 1) as usize, 0usize)]
        } else {
            Seq::empty()
        }
    }
}

pub fn line_segments(point_count: usize, closed: bool) -> (r: Vec<(usize, usize)>)
    ensures
        r@ == polyline_segments(point_count as nat, closed),
{
    let mut r: Vec<(usize, usize)> = Vec::new();
    if point_count < 2 {
        return r;
    }
    let mut i: usize = 0;
    while i < point_count - 1
        invariant
            point_count >= 2,
            i <= point_count - 1,
            r@ =~= Seq::new(i as nat, |k: int| (k as usize, (k + 1) as usize)),
        decreases point_count - 1 - i,
    {
        r.push((i, i + 1));
        i = i + 1;
    }
    if closed && point_count > 2 {
        r.push((point_count - 1, 0));
    }
    r
}

/// A line element draws two vertices per segment: none for fewer than two
/// points, `2(n - 1)` for an open line, and `2n` for a closed line of three
/// or more points.
pub proof fn lemma_line_vertex_count(n: nat, closed: bool)
    ensures
        n < 2 ==> 2 * polyline_segments(n, closed).len() == 0,
        n >= 2 && !closed ==> 2 * polyline_segments(n, closed).len() == 2 * (n - 1),
        n >= 3 && closed ==> 2 * polyline_segments(n, closed).len() == 2 * n,
        n == 2 ==> 2 * polyline_segments(n, closed).len() == 2,
{
}

} // verus!
