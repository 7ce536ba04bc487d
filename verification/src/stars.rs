use vstd::prelude::*;
use vstd::arithmetic::div_mod::{lemma_add_mod_noop, lemma_mod_twice};

verus! {

/// Seed of the background star field.
pub const STAR_SEED: u64 = 0xCAFE_BABE_DEAD_BEEF;

/// Multiplier of the linear congruential generator.
pub const LCG_MULTIPLIER: u64 = 6364136223846793005;

/// Increment of the linear congruential generator.
pub const LCG_INCREMENT: u64 = 1442695040888963407;

/// Random numbers drawn per star.
pub const DRAWS_PER_STAR: usize = 8;

/// `2^64`, the modulus of the generator.
pub open spec fn lcg_modulus() -> int {
    0x1_0000_0000_0000_0000
}

/// One step of the generator: `x * LCG_MULTIPLIER + LCG_INCREMENT` modulo `2^64`.
pub open spec fn lcg_next(x: u64) -> u64 {
    ((x as int * LCG_MULTIPLIER as int + LCG_INCREMENT as int) % lcg_modulus()) as u64
}

/// The generator state after `k` steps from `seed`.
pub open spec fn lcg_nth(seed: u64, k: nat) -> u64
    decreases k,
{
    if k == 0 {
        seed
    } else {
        lcg_next(lcg_nth(seed, (k - 1) as nat))
    }
}

/// The 31 high bits of a generator state, the value that becomes a fraction.
pub open spec fn sample_of(x: u64) -> u32 {
    (x as int / 0x2_0000_0000) as u32
}

/// The `k`-th draw made for star `i`.
pub open spec fn star_sample(i: nat, k: nat) -> u32 {
    sample_of(lcg_nth(STAR_SEED, DRAWS_PER_STAR as nat * i + k + 1))
}

/// The raw random draws that place and colour one star, in the order in
/// which they are drawn. Each is below `2^31`; the renderer divides it by
/// `u32::MAX` to get a fraction.
#[derive(Clone, Copy, Debug, PartialEq, Eq)]
pub struct StarDraws {
    pub azimuth: u32,
    pub polar: u32,
    pub radius: u32,
    pub tint: u32,
    pub size: u32,
    pub luminance: u32,
    pub flicker_speed: u32,
    pub flicker_phase: u32,
}

/// The draws of star `i`.
pub open spec fn star_draws_spec(i: nat) -> StarDraws {
    StarDraws {
        azimuth: star_sample(i, 0),
        polar: star_sample(i, 1),
        radius: star_sample(i, 2),
        tint: star_sample(i, 3),
        size: star_sample(i, 4),
        luminance: star_sample(i, 5),
        flicker_speed: star_sample(i, 6),
        flicker_phase: star_sample(i, 7),
    }
}

/// Advances the generator by one step.
pub fn lcg_step(x: u64) -> (r: u64)
    ensures
        r == lcg_next(x),
{
    let m = x.wrapping_mul(LCG_MULTIPLIER);
    let r = m.wrapping_add(LCG_INCREMENT);
    proof {
        let p = x as int * LCG_MULTIPLIER as int;
        let n = lcg_modulus();
        assert(m as int == p % n);
        lemma_add_mod_noop(p, LCG_INCREMENT as int, n);
        lemma_mod_twice(LCG_INCREMENT as int, n);
        assert(LCG_INCREMENT as int % n == LCG_INCREMENT as int);
        assert(r as int == (m as int + LCG_INCREMENT as int) % n);
    }
    r
}

/// The high 31 bits of a generator state.
pub fn sample_bits(x: u64) -> (r: u32)
    ensures
        r == sample_of(x),
        r < 0x8000_0000,
{
    assert(x >> 33u64 == x / 0x2_0000_0000 && x >> 33u64 < 0x8000_0000) by (bit_vector);
    (x >> 33) as u32
}

/// The draws of the first `n` stars of the field, star `i` taking the
/// generator states `8 i + 1` to `8 i + 8` after `STAR_SEED`.
pub fn gen_star_draws(n: usize) -> (v: Vec<StarDraws>)
    ensures
        v.len() == n,
        forall|i: int| 0 <= i < n ==> #[trigger] v[i] == star_draws_spec(i as nat),
{
    let mut v: Vec<StarDraws> = Vec::new();
    let mut s: u64 = STAR_SEED;
    let mut i: usize = 0;
    while i < n
        invariant
            i <= n,
            v.len() == i,
            s == lcg_nth(STAR_SEED, DRAWS_PER_STAR as nat * i as nat),
            forall|j: int| 0 <= j < i ==> #[trigger] v[j] == star_draws_spec(j as nat),
        decreases n - i,
    {
        let ghost base: nat = DRAWS_PER_STAR as nat * i as nat;
        s = lcg_step(s);
        assert(s == lcg_nth(STAR_SEED, base + 1));
        let azimuth = sample_bits(s);
        s = lcg_step(s);
        assert(s == lcg_nth(STAR_SEED, base + 2));
        let polar = sample_bits(s);
        s = lcg_step(s);
        assert(s == lcg_nth(STAR_SEED, base + 3));
        let radius = sample_bits(s);
        s = lcg_step(s);
        assert(s == lcg_nth(STAR_SEED, base + 4));
        let tint = sample_bits(s);
        s = lcg_step(s);
        assert(s == lcg_nth(STAR_SEED, base + 5));
        let size = sample_bits(s);
        s = lcg_step(s);
        assert(s == lcg_nth(STAR_SEED, base + 6));
        let luminance = sample_bits(s);
        s = lcg_step(s);
        assert(s == lcg_nth(STAR_SEED, base + 7));
        let flicker_speed = sample_bits(s);
        s = lcg_step(s);
        assert(s == lcg_nth(STAR_SEED, base + 8));
        let flicker_phase = sample_bits(s);
        let d = StarDraws {
            azimuth,
            polar,
            radius,
            tint,
            size,
            luminance,
            flicker_speed,
            flicker_phase,
        };
        assert(d == star_draws_spec(i as nat));
        v.push(d);
        i = i + 1;
    }
    v
}

/// The generator starts at its seed and each step maps a state `x` to
/// `(x * 6364136223846793005 + 1442695040888963407) mod 2^64`; a draw is the
/// state's top 31 bits.
pub proof fn lemma_generator_steps(seed: u64, k: nat, x: u64)
    ensures
        lcg_nth(seed, 0) == seed,
        lcg_nth(seed, k + 1) as int == (lcg_nth(seed, k) as int * 6364136223846793005
            + 1442695040888963407) % 0x1_0000_0000_0000_0000,
        sample_of(x) as int == x as int / 0x2_0000_0000,
{
    assert(x as int / 0x2_0000_0000 < 0x8000_0000);
}

/// Star `i` takes the generator states `8 i + 1` to `8 i + 8` after
/// `STAR_SEED`, one per field, in the order azimuth, polar, radius, tint,
/// size, luminance, flicker speed, flicker phase; so one generator runs
/// through the whole field and no two stars share a state.
pub proof fn lemma_star_draws_in_order(i: nat)
    ensures
        star_draws_spec(i).azimuth == sample_of(lcg_nth(STAR_SEED, 8 * i + 1)),
        star_draws_spec(i).polar == sample_of(lcg_nth(STAR_SEED, 8 * i + 2)),
        star_draws_spec(i).radius == sample_of(lcg_nth(STAR_SEED, 8 * i + 3)),
        star_draws_spec(i).tint == sample_of(lcg_nth(STAR_SEED, 8 * i + 4)),
        star_draws_spec(i).size == sample_of(lcg_nth(STAR_SEED, 8 * i + 5)),
        star_draws_spec(i).luminance == sample_of(lcg_nth(STAR_SEED, 8 * i + 6)),
        star_draws_spec(i).flicker_speed == sample_of(lcg_nth(STAR_SEED, 8 * i + 7)),
        star_draws_spec(i).flicker_phase == sample_of(lcg_nth(STAR_SEED, 8 * i + 8)),
{
}

/// Every draw is below `2^31`, so every fraction the renderer derives from a
/// draw (the draw divided by `u32::MAX`) is below one half.
pub proof fn lemma_draws_below_half(i: nat, k: nat)
    ensures
        star_sample(i, k) < 0x8000_0000,
        2 * (star_sample(i, k) as int) < u32::MAX as int,
{
    let x = lcg_nth(STAR_SEED, DRAWS_PER_STAR as nat * i + k + 1);
    assert(x >> 33u64 == x / 0x2_0000_0000 && x >> 33u64 < 0x8000_0000) by (bit_vector);
}

} // verus!
