use atlas::stars::{gen_star_draws, lcg_step, sample_bits, StarDraws, STAR_SEED};

#[test]
fn first_lcg_step_from_star_seed() {
    assert_eq!(lcg_step(STAR_SEED), 14756478857196708434);
}

#[test]
fn lcg_step_wraps() {
    assert_eq!(lcg_step(0), 1442695040888963407);
    assert_eq!(lcg_step(1), 6364136223846793005u64.wrapping_add(1442695040888963407));
}

#[test]
fn sample_bits_takes_high_bits() {
    assert_eq!(sample_bits(u64::MAX), 0x7fff_ffff);
    assert_eq!(sample_bits(0x2_0000_0000), 1);
    assert_eq!(sample_bits(0x1_ffff_ffff), 0);
}

#[test]
fn first_two_stars() {
    let v = gen_star_draws(2);
    assert_eq!(v.len(), 2);
    assert_eq!(
        v[0],
        StarDraws {
            azimuth: 1717880235,
            polar: 180967208,
            radius: 554876206,
            tint: 1144450949,
            size: 1031755551,
            luminance: 1184236546,
            flicker_speed: 1234519246,
            flicker_phase: 119797989,
        }
    );
    assert_eq!(
        v[1],
        StarDraws {
            azimuth: 1138405804,
            polar: 674416426,
            radius: 214248214,
            tint: 183954229,
            size: 619075040,
            luminance: 580791739,
            flicker_speed: 1204543602,
            flicker_phase: 526750031,
        }
    );
}

#[test]
fn star_field_is_deterministic_and_prefix_stable() {
    let a = gen_star_draws(50);
    let b = gen_star_draws(3000);
    assert_eq!(b.len(), 3000);
    assert_eq!(a.as_slice(), &b[..50]);
    assert_eq!(gen_star_draws(0).len(), 0);
}

#[test]
fn every_draw_is_below_half_of_u32_max() {
    for d in gen_star_draws(3000) {
        for x in [d.azimuth, d.polar, d.radius, d.tint, d.size, d.luminance, d.flicker_speed, d.flicker_phase] {
            assert!(x < 0x8000_0000);
            assert!((x as f32 / u32::MAX as f32) < 0.5);
        }
    }
}
