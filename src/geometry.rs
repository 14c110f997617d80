//! Edge topology of the parametric solids that wireframe elements draw.
//!
//! A solid's vertices are numbered in the order its generator places them;
//! an edge joins two of those numbers. The positions themselves are computed
//! by the renderer.
use vstd::prelude::*;

use crate::scene::GeometryType;

verus! {

/// The edges and the number of vertices of a solid.
pub struct Topology {
    pub vertex_count: usize,
    pub edges: Vec<(usize, usize)>,
}

/// Every edge joins two of the `n` vertices.
pub open spec fn edges_within(edges: Seq<(usize, usize)>, n: nat) -> bool {
    forall|k: int| 0 <= k < edges.len() ==> (#[trigger] edges[k]).0 < n && edges[k].1 < n
}

impl Topology {
    pub open spec fn well_formed(&self) -> bool {
        edges_within(self.edges@, self.vertex_count as nat)
    }
}

/// The position after `k` on a loop of `n` positions.
pub open spec fn succ(k: int, n: int) -> int {
    if k + 1 == n {
        0
    } else {
        k + 1
    }
}

/// The `n` edges of the closed loop through vertices `base .. base + n`.
pub open spec fn ring_loop(base: int, n: int) -> Seq<(usize, usize)> {
    Seq::new(n as nat, |k: int| ((base + k) as usize, (base + succ(k, n)) as usize))
}

/// A prism over an `n`-gon: the bottom loop `0 .. n`, the top loop
/// `n .. 2n`, then the `n` edges from each bottom vertex to the one above it.
pub open spec fn prism_edges(n: int) -> Seq<(usize, usize)> {
    ring_loop(0, n) + ring_loop(n, n) + Seq::new(n as nat, |k: int| (k as usize, (n + k) as usize))
}

/// A UV sphere with `rings + 1` rings of `segments` vertices each: first the
/// loop around every ring, then for every segment the edges down its meridian.
pub open spec fn sphere_edges(segments: int, rings: int) -> Seq<(usize, usize)> {
    Seq::new((rings + 1) as nat, |ring: int| ring_loop(ring * segments, segments)).flatten()
        + Seq::new(segments as nat, |seg: int| meridian(segments, rings, seg)).flatten()
}

/// The edges joining vertex `seg` of each ring to vertex `seg` of the next.
pub open spec fn meridian(segments: int, rings: int, seg: int) -> Seq<(usize, usize)> {
    Seq::new(
        rings as nat,
        |ring: int| ((ring * segments + seg) as usize, ((ring + 1) * segments + seg) as usize),
    )
}

/// The two edges leaving vertex `tube` of ring `radial` of a torus: to the
/// next vertex on its tube ring, and to the same vertex on the next ring.
pub open spec fn torus_pair(tube_segments: int, radial_segments: int, radial: int, tube: int) -> Seq<(usize, usize)> {
    let current = radial * tube_segments + tube;
    seq![
        (current as usize, (radial * tube_segments + succ(tube, tube_segments)) as usize),
        (current as usize, (succ(radial, radial_segments) * tube_segments + tube) as usize),
    ]
}

pub open spec fn torus_ring(tube_segments: int, radial_segments: int, radial: int) -> Seq<(usize, usize)> {
    Seq::new(
        tube_segments as nat,
        |tube: int| torus_pair(tube_segments, radial_segments, radial, tube),
    ).flatten()
}

/// A torus of `radial_segments` rings of `tube_segments` vertices each.
pub open spec fn torus_edges(tube_segments: int, radial_segments: int) -> Seq<(usize, usize)> {
    Seq::new(
        radial_segments as nat,
        |radial: int| torus_ring(tube_segments, radial_segments, radial),
    ).flatten()
}

fn push_ring_loop(r: &mut Vec<(usize, usize)>, base: usize, n: usize, bound: Ghost<nat>)
    requires
        base + n <= bound@,
        bound@ <= usize::MAX,
        edges_within(old(r)@, bound@),
    ensures
        final(r)@ == old(r)@ + ring_loop(base as int, n as int),
        edges_within(final(r)@, bound@),
{
    let ghost start = r@;
    let mut k: usize = 0;
    while k < n
        invariant
            k <= n,
            base + n <= bound@,
            bound@ <= usize::MAX,
            r@ == start + ring_loop(base as int, n as int).take(k as int),
            edges_within(r@, bound@),
        decreases n - k,
    {
        let next = if k + 1 == n {
            0
        } else {
            k + 1
        };
        r.push((base + k, base + next));
        proof {
            let full = ring_loop(base as int, n as int);
            assert(full[k as int] == ((base + k) as usize, (base + next) as usize));
            assert(full.take(k + 1) =~= full.take(k as int).push(full[k as int]));
            assert(r@ =~= start + full.take(k + 1));
        }
        k = k + 1;
    }
}

/// The edges of a prism over an `n`-gon: the cylinder, and with `n == 4` the cube.
fn prism(n: usize) -> (r: Vec<(usize, usize)>)
    requires
        2 * n <= usize::MAX,
    ensures
        r@ == prism_edges(n as int),
        edges_within(r@, 2 * n as nat),
{
    let mut r: Vec<(usize, usize)> = Vec::new();
    push_ring_loop(&mut r, 0, n, Ghost(2 * n as nat));
    push_ring_loop(&mut r, n, n, Ghost(2 * n as nat));
    let ghost start = r@;
    let ghost verticals = Seq::new(n as nat, |k: int| (k as usize, (n + k) as usize));
    let mut k: usize = 0;
    while k < n
        invariant
            k <= n,
            2 * n <= usize::MAX,
            verticals == Seq::new(n as nat, |k: int| (k as usize, (n + k) as usize)),
            r@ == start + verticals.take(k as int),
            edges_within(r@, 2 * n as nat),
        decreases n - k,
    {
        r.push((k, n + k));
        proof {
            assert(verticals.take(k + 1) =~= verticals.take(k as int).push(verticals[k as int]));
            assert(r@ =~= start + verticals.take(k + 1));
        }
        k = k + 1;
    }
    proof {
        assert(verticals.take(n as int) =~= verticals);
        assert(r@ =~= prism_edges(n as int));
    }
    r
}

fn sphere(segments: usize, rings: usize) -> (r: Vec<(usize, usize)>)
    requires
        segments > 0,
        (rings + 1) * segments <= usize::MAX,
    ensures
        r@ == sphere_edges(segments as int, rings as int),
        edges_within(r@, ((rings + 1) * segments) as nat),
{
    let ghost total = ((rings + 1) * segments) as nat;
    assert(rings + 1 <= (rings + 1) * segments) by (nonlinear_arith)
        requires
            segments > 0,
    ;
    let ghost loops = Seq::new((rings + 1) as nat, |ring: int| ring_loop(ring * segments, segments as int));
    let mut r: Vec<(usize, usize)> = Vec::new();
    let mut ring: usize = 0;
    while ring <= rings
        invariant
            ring <= rings + 1,
            rings + 1 <= usize::MAX,
            segments > 0,
            total == (rings + 1) * segments,
            total <= usize::MAX,
            loops == Seq::new((rings + 1) as nat, |ring: int| ring_loop(ring * segments, segments as int)),
            r@ == loops.take(ring as int).flatten(),
            edges_within(r@, total),
        decreases rings + 1 - ring,
    {
        proof {
            assert((ring + 1) * segments <= (rings + 1) * segments) by (nonlinear_arith)
                requires
                    ring <= rings,
            ;
            assert((ring + 1) * segments == ring * segments + segments) by (nonlinear_arith);
        }
        let base = ring * segments;
        push_ring_loop(&mut r, base, segments, Ghost(total));
        proof {
            assert(loops.take(ring + 1) =~= loops.take(ring as int).push(loops[ring as int]));
            loops.take(ring as int).lemma_flatten_push(loops[ring as int]);
        }
        ring = ring + 1;
    }
    proof {
        assert(loops.take(rings + 1) =~= loops);
    }
    let ghost first = r@;
    let ghost columns = Seq::new(segments as nat, |seg: int| meridian(segments as int, rings as int, seg));
    let mut seg: usize = 0;
    while seg < segments
        invariant
            seg <= segments,
            total == (rings + 1) * segments,
            total <= usize::MAX,
            columns == Seq::new(segments as nat, |seg: int| meridian(segments as int, rings as int, seg)),
            r@ == first + columns.take(seg as int).flatten(),
            edges_within(r@, total),
        decreases segments - seg,
    {
        let ghost before = r@;
        let ghost column = columns[seg as int];
        let mut ring: usize = 0;
        while ring < rings
            invariant
                ring <= rings,
                seg < segments,
                total == (rings + 1) * segments,
                total <= usize::MAX,
                column == meridian(segments as int, rings as int, seg as int),
                r@ == before + column.take(ring as int),
                edges_within(r@, total),
            decreases rings - ring,
        {
            proof {
                assert((ring + 1) * segments + seg < (rings + 1) * segments) by (nonlinear_arith)
                    requires
                        ring < rings,
                        seg < segments,
                ;
                assert((ring + 1) * segments == ring * segments + segments) by (nonlinear_arith);
            }
            let current = ring * segments + seg;
            let next = (ring + 1) * segments + seg;
            r.push((current, next));
            proof {
                assert(column.take(ring + 1) =~= column.take(ring as int).push(column[ring as int]));
                assert(r@ =~= before + column.take(ring + 1));
            }
            ring = ring + 1;
        }
        proof {
            assert(column.take(rings as int) =~= column);
            assert(columns.take(seg + 1) =~= columns.take(seg as int).push(column));
            columns.take(seg as int).lemma_flatten_push(column);
            assert(r@ =~= first + columns.take(seg + 1).flatten());
        }
        seg = seg + 1;
    }
    proof {
        assert(columns.take(segments as int) =~= columns);
    }
    r
}

fn torus(tube_segments: usize, radial_segments: usize) -> (r: Vec<(usize, usize)>)
    requires
        tube_segments > 0,
        radial_segments > 0,
        radial_segments * tube_segments <= usize::MAX,
    ensures
        r@ == torus_edges(tube_segments as int, radial_segments as int),
        edges_within(r@, (radial_segments * tube_segments) as nat),
{
    let ghost total = (radial_segments * tube_segments) as nat;
    let ghost rows = Seq::new(
        radial_segments as nat,
        |radial: int| torus_ring(tube_segments as int, radial_segments as int, radial),
    );
    let mut r: Vec<(usize, usize)> = Vec::new();
    let mut radial: usize = 0;
    while radial < radial_segments
        invariant
            radial <= radial_segments,
            tube_segments > 0,
            total == radial_segments * tube_segments,
            total <= usize::MAX,
            rows == Seq::new(
                radial_segments as nat,
                |radial: int| torus_ring(tube_segments as int, radial_segments as int, radial),
            ),
            r@ == rows.take(radial as int).flatten(),
            edges_within(r@, total),
        decreases radial_segments - radial,
    {
        let next_radial = if radial + 1 == radial_segments {
            0
        } else {
            radial + 1
        };
        let ghost before = r@;
        let ghost pairs = Seq::new(
            tube_segments as nat,
            |tube: int| torus_pair(tube_segments as int, radial_segments as int, radial as int, tube),
        );
        let mut tube: usize = 0;
        while tube < tube_segments
            invariant
                tube <= tube_segments,
                radial < radial_segments,
                next_radial < radial_segments,
                next_radial == succ(radial as int, radial_segments as int),
                total == radial_segments * tube_segments,
                total <= usize::MAX,
                pairs == Seq::new(
                    tube_segments as nat,
                    |tube: int| torus_pair(tube_segments as int, radial_segments as int, radial as int, tube),
                ),
                r@ == before + pairs.take(tube as int).flatten(),
                edges_within(r@, total),
            decreases tube_segments - tube,
        {
            let next_tube = if tube + 1 == tube_segments {
                0
            } else {
                tube + 1
            };
            proof {
                assert(radial * tube_segments + tube_segments <= total) by (nonlinear_arith)
                    requires
                        radial < radial_segments,
                        total == radial_segments * tube_segments,
                ;
                assert(next_radial * tube_segments + tube_segments <= total) by (nonlinear_arith)
                    requires
                        next_radial < radial_segments,
                        total == radial_segments * tube_segments,
                ;
            }
            let current = radial * tube_segments + tube;
            let tube_next = radial * tube_segments + next_tube;
            let radial_next = next_radial * tube_segments + tube;
            r.push((current, tube_next));
            r.push((current, radial_next));
            proof {
                let pair = pairs[tube as int];
                assert(pair =~= seq![(current, tube_next), (current, radial_next)]);
                assert(pairs.take(tube + 1) =~= pairs.take(tube as int).push(pair));
                pairs.take(tube as int).lemma_flatten_push(pair);
                assert(r@ =~= before + pairs.take(tube + 1).flatten());
            }
            tube = tube + 1;
        }
        proof {
            assert(pairs.take(tube_segments as int) =~= pairs);
            assert(rows[radial as int] == pairs.flatten());
            assert(rows.take(radial + 1) =~= rows.take(radial as int).push(pairs.flatten()));
            rows.take(radial as int).lemma_flatten_push(pairs.flatten());
        }
        radial = radial + 1;
    }
    proof {
        assert(rows.take(radial_segments as int) =~= rows);
    }
    r
}

/// The 30 edges of the icosahedron whose 12 vertices are the cyclic
/// permutations of `(0, +-1, +-phi)`, in the order the generator places them.
pub open spec fn icosahedron_edges() -> Seq<(usize, usize)> {
    seq![
        (0, 1), (0, 5), (0, 7), (0, 10), (0, 11), (1, 5),
        (1, 7), (1, 8), (1, 9), (2, 3), (2, 4), (2, 6),
        (2, 10), (2, 11), (3, 4), (3, 6), (3, 8), (3, 9),
        (4, 5), (4, 9), (4, 11), (5, 9), (5, 11), (6, 7),
        (6, 8), (6, 10), (7, 8), (7, 10), (8, 9), (10, 11),
    ]
}

fn icosahedron() -> (r: Vec<(usize, usize)>)
    ensures
        r@ == icosahedron_edges(),
        edges_within(r@, 12),
{
    let r = vec![
        (0, 1), (0, 5), (0, 7), (0, 10), (0, 11), (1, 5),
        (1, 7), (1, 8), (1, 9), (2, 3), (2, 4), (2, 6),
        (2, 10), (2, 11), (3, 4), (3, 6), (3, 8), (3, 9),
        (4, 5), (4, 9), (4, 11), (5, 9), (5, 11), (6, 7),
        (6, 8), (6, 10), (7, 8), (7, 10), (8, 9), (10, 11),
    ];
    assert(r@ =~= icosahedron_edges());
    r
}

/// The number of vertices of each solid.
pub open spec fn vertex_count_of(kind: GeometryType) -> nat {
    match kind {
        GeometryType::Cube => 8,
        GeometryType::Sphere => 13 * 16,
        GeometryType::Torus => 12 * 24,
        GeometryType::Ico => 12,
        GeometryType::Cylinder => 2 * 16,
    }
}

/// The edges of each solid: the cube is the prism over a square, the sphere
/// has 16 segments and 12 rings, the torus 24 tube and 12 radial segments,
/// the cylinder 16 segments.
pub open spec fn edges_of(kind: GeometryType) -> Seq<(usize, usize)> {
    match kind {
        GeometryType::Cube => prism_edges(4),
        GeometryType::Sphere => sphere_edges(16, 12),
        GeometryType::Torus => torus_edges(24, 12),
        GeometryType::Ico => icosahedron_edges(),
        GeometryType::Cylinder => prism_edges(16),
    }
}

/// The edge topology of a solid.
pub fn generate_topology(kind: GeometryType) -> (r: Topology)
    ensures
        r.vertex_count == vertex_count_of(kind),
        r.edges@ == edges_of(kind),
        r.well_formed(),
{
    match kind {
        GeometryType::Cube => Topology { vertex_count: 8, edges: prism(4) },
        GeometryType::Sphere => Topology { vertex_count: 13 * 16, edges: sphere(16, 12) },
        GeometryType::Torus => Topology { vertex_count: 12 * 24, edges: torus(24, 12) },
        GeometryType::Ico => Topology { vertex_count: 12, edges: icosahedron() },
        GeometryType::Cylinder => Topology { vertex_count: 2 * 16, edges: prism(16) },
    }
}

/// Flattening `n` sequences of length `k` each gives `n * k` elements.
proof fn lemma_flatten_uniform_len<A>(s: Seq<Seq<A>>, k: int)
    requires
        k >= 0,
        forall|i: int| 0 <= i < s.len() ==> (#[trigger] s[i]).len() == k,
    ensures
        s.flatten().len() == s.len() * k,
    decreases s.len(),
{
    if s.len() > 0 {
        let rest = s.drop_first();
        assert forall|i: int| 0 <= i < rest.len() implies (#[trigger] rest[i]).len() == k by {
            assert(rest[i] == s[i + 1]);
        }
        lemma_flatten_uniform_len(rest, k);
        assert(s.len() * k == (s.len() - 1) * k + k) by (nonlinear_arith);
    }
}

/// Edge counts of the solids: the cube has 12 edges on 8 vertices, the
/// icosahedron 30 on 12, the sphere 400 on 208, the torus 576 on 288 and
/// the cylinder 48 on 32.
pub proof fn lemma_solid_sizes()
    ensures
        edges_of(GeometryType::Cube).len() == 12,
        edges_of(GeometryType::Ico).len() == 30,
        edges_of(GeometryType::Sphere).len() == 400,
        edges_of(GeometryType::Torus).len() == 576,
        edges_of(GeometryType::Cylinder).len() == 48,
{
    let loops = Seq::new(13, |ring: int| ring_loop(ring * 16, 16));
    lemma_flatten_uniform_len(loops, 16);
    let columns = Seq::new(16, |seg: int| meridian(16, 12, seg));
    lemma_flatten_uniform_len(columns, 12);
    let rows = Seq::new(12, |radial: int| torus_ring(24, 12, radial));
    assert forall|radial: int| 0 <= radial < 12 implies (#[trigger] rows[radial]).len() == 48 by {
        let pairs = Seq::new(24, |tube: int| torus_pair(24, 12, radial, tube));
        lemma_flatten_uniform_len(pairs, 2);
    }
    lemma_flatten_uniform_len(rows, 48);
}

} // verus!
