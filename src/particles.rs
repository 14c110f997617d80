//! The pseudo-random point cloud of a particles element.
//!
//! A linear congruential generator (multiplier 1103515245, increment 12345,
//! arithmetic modulo 2^64) is stepped three times per particle; after each
//! step bits 16..32 of the state are one coordinate draw, which the renderer
//! maps from `0 ..= 65535` onto the element's bounds.
use vstd::prelude::*;
use vstd::arithmetic::div_mod::lemma_add_mod_noop;

verus! {

/// The seed used when an element gives seed 0.
pub const DEFAULT_SEED: u64 = 12345;

pub const LCG_MULTIPLIER: u64 = 1103515245;

pub const LCG_INCREMENT: u64 = 12345;

/// The three coordinate draws of one particle, each in `0 ..= 65535`.
#[derive(Clone, Copy, Debug, PartialEq, Eq, Structural)]
pub struct ParticleDraw {
    pub x: u16,
    pub y: u16,
    pub z: u16,
}

#[verifier::opaque]
pub open spec fn lcg_next(state: u64) -> u64 {
    ((state as int * LCG_MULTIPLIER as int + LCG_INCREMENT as int) % 0x1_0000_0000_0000_0000) as u64
}

/// The state after `n` steps from `seed`.
pub open spec fn lcg_state(seed: u64, n: nat) -> u64
    decreases n,
{
    if n == 0 {
        seed
    } else {
        lcg_next(lcg_state(seed, (n - 1) as nat))
    }
}

/// The draw a state yields: bits 16..32.
pub open spec fn draw_of(state: u64) -> u16 {
    ((state >> 16u64) & 0xffffu64) as u16
}

pub open spec fn effective_seed(seed: u64) -> u64 {
    if seed == 0 {
        DEFAULT_SEED
    } else {
        seed
    }
}

/// The draws of particle `i` of the stream started at `seed`: steps
/// `3i + 1`, `3i + 2` and `3i + 3`.
pub open spec fn particle_draw(seed: u64, i: int) -> ParticleDraw {
    ParticleDraw {
        x: draw_of(lcg_state(seed, (3 * i + 1) as nat)),
        y: draw_of(lcg_state(seed, (3 * i + 2) as nat)),
        z: draw_of(lcg_state(seed, (3 * i + 3) as nat)),
    }
}

/// The draws of `count` particles of an element with the given seed.
pub open spec fn particle_draws_of(count: nat, seed: u64) -> Seq<ParticleDraw> {
    Seq::new(count, |i: int| particle_draw(effective_seed(seed), i))
}

fn lcg_step(state: u64) -> (r: u64)
    ensures
        r == lcg_next(state),
{
    let p = state.wrapping_mul(LCG_MULTIPLIER);
    let r = p.wrapping_add(LCG_INCREMENT);
    proof {
        reveal(lcg_next);
        let m: int = 0x1_0000_0000_0000_0000;
        let full = state as int * LCG_MULTIPLIER as int;
        assert(p as int == full % m);
        lemma_add_mod_noop(full, LCG_INCREMENT as int, m);
        assert((LCG_INCREMENT as int) % m == LCG_INCREMENT as int);
        assert((p as int) % m == p as int);
    }
    r
}

/// The coordinate draws of `count` particles, a pure function of `count`
/// and `seed`.
pub fn particle_draws(count: u32, seed: u64) -> (r: Vec<ParticleDraw>)
    ensures
        r@ == particle_draws_of(count as nat, seed),
{
    let start: u64 = if seed == 0 {
        DEFAULT_SEED
    } else {
        seed
    };
    let ghost s = effective_seed(seed);
    let mut state = start;
    let mut r: Vec<ParticleDraw> = Vec::new();
    let mut i: u32 = 0;
    while i < count
        invariant
            i <= count,
            s == start,
            state == lcg_state(s, 3 * i as nat),
            r@ =~= Seq::new(i as nat, |k: int| particle_draw(s, k)),
        decreases count - i,
    {
        let ghost n = 3 * i as nat;
        state = lcg_step(state);
        assert(state == lcg_state(s, n + 1));
        let x = ((state >> 16) & 0xffff) as u16;
        state = lcg_step(state);
        assert(state == lcg_state(s, n + 2));
        let y = ((state >> 16) & 0xffff) as u16;
        state = lcg_step(state);
        assert(state == lcg_state(s, n + 3));
        let z = ((state >> 16) & 0xffff) as u16;
        r.push(ParticleDraw { x, y, z });
        proof {
            assert(particle_draw(s, i as int) == ParticleDraw { x, y, z });
            assert(r@ =~= Seq::new((i + 1) as nat, |k: int| particle_draw(s, k)));
        }
        i = i + 1;
    }
    r
}

/// Seed 0 stands for the default seed: both give the same point cloud.
pub proof fn lemma_zero_seed_is_default(count: nat)
    ensures
        particle_draws_of(count, 0) == particle_draws_of(count, DEFAULT_SEED),
{
    assert(particle_draws_of(count, 0) =~= particle_draws_of(count, DEFAULT_SEED));
}

} // verus!
