//! Fixed-point arithmetic and random-word plumbing.

use basil::fixed::{
    fx_add, fx_cos, fx_div, fx_divn, fx_mul, fx_pow, fx_sin, fx_sqrt01, isqrt, FX_HALF_PI, FX_MAX,
    FX_ONE, FX_PI, FX_TAU,
};
use basil::random::{next_word, seeded_words, word_to_range};
use rand::rngs::StdRng;
use rand::{RngCore, SeedableRng};

#[test]
fn mul_matches_expected_values() {
    // 1.0 * 1.0 == 1.0, 0.5 * 0.5 == 0.25, sign handling, saturation.
    assert_eq!(fx_mul(FX_ONE, FX_ONE), FX_ONE);
    assert_eq!(fx_mul(32768, 32768), 16384);
    assert_eq!(fx_mul(-32768, 32768), -16384);
    assert_eq!(fx_mul(-32768, -32768), 16384);
    assert_eq!(fx_mul(FX_MAX, FX_MAX), FX_MAX);
    assert_eq!(fx_mul(123456, 0), 0);
}

#[test]
fn div_matches_expected_values() {
    assert_eq!(fx_div(FX_ONE, FX_ONE), FX_ONE);
    assert_eq!(fx_div(FX_ONE, 2 * FX_ONE), 32768);
    assert_eq!(fx_div(-FX_ONE, 2 * FX_ONE), -32768);
    assert_eq!(fx_div(FX_ONE, 0), 0);
    assert_eq!(fx_divn(10 * FX_ONE, 5), 2 * FX_ONE);
    assert_eq!(fx_divn(-7, 2), -3);
}

#[test]
fn add_saturates() {
    assert_eq!(fx_add(FX_MAX, FX_MAX), FX_MAX);
    assert_eq!(fx_add(-FX_MAX, -FX_MAX), -FX_MAX);
    assert_eq!(fx_add(FX_ONE, FX_ONE), 2 * FX_ONE);
}

#[test]
fn isqrt_exact_values() {
    assert_eq!(isqrt(0), 0);
    assert_eq!(isqrt(1), 1);
    assert_eq!(isqrt(2), 1);
    assert_eq!(isqrt(15), 3);
    assert_eq!(isqrt(16), 4);
    assert_eq!(isqrt(4294967296), 65536);
    assert_eq!(isqrt(u64::MAX), 4294967295);
    // sqrt(1.0) == 1.0, sqrt(0.25) == 0.5 in fixed point.
    assert_eq!(fx_sqrt01(FX_ONE), FX_ONE);
    assert_eq!(fx_sqrt01(16384), 32768);
}

#[test]
fn sine_zeros_and_peak() {
    // The rational approximation is exact at 0, pi and 2*pi.
    assert_eq!(fx_sin(0), 0);
    assert_eq!(fx_sin(FX_PI), 0);
    assert_eq!(fx_sin(FX_TAU), 0);
    assert_eq!(fx_sin(-FX_PI), 0);
    // Near the peak it stays within a hair of 1.
    let peak = fx_sin(FX_HALF_PI);
    assert!(peak > FX_ONE - 8 && peak <= FX_ONE, "peak {peak}");
    // Odd symmetry across pi.
    let a = fx_sin(FX_PI / 3);
    let b = fx_sin(FX_PI + FX_PI / 3);
    assert_eq!(a, -b);
    assert!(fx_cos(0) > FX_ONE - 8);
    assert_eq!(fx_cos(FX_PI), -fx_cos(0));
}

#[test]
fn pow_exact_at_unit_exponent() {
    // x^1 == x exactly, x^0 == 1, and 0 <= x^p <= 1 on the unit range.
    assert_eq!(fx_pow(12345, FX_ONE), 12345);
    assert_eq!(fx_pow(65536, FX_ONE), 65536);
    assert_eq!(fx_pow(12345, 0), FX_ONE);
    let half_pow = fx_pow(16384, 32768);
    // sqrt(0.25) == 0.5.
    assert_eq!(half_pow, 32768);
    for x in [0i64, 1, 100, 30000, 65535, 65536] {
        for p in [1i64, 32768, 65536, 98304, 131072, 327680] {
            let r = fx_pow(x, p);
            assert!((0..=FX_ONE).contains(&r));
        }
    }
}

#[test]
fn word_range_stays_in_bounds() {
    let mut rng = StdRng::seed_from_u64(7);
    for _ in 0..1000 {
        let w = next_word(&mut rng);
        let r = word_to_range(w, -32768, 32768);
        assert!((-32768..32768).contains(&r));
        let r2 = word_to_range(w, 6554, 65536);
        assert!((6554..65536).contains(&r2));
    }
}

#[test]
fn seeded_words_match_rand_stream() {
    // The trusted wrapper must hand back exactly the words of a
    // freshly seeded StdRng, in order.
    let words = seeded_words(42, 16);
    let mut rng = StdRng::seed_from_u64(42);
    for (i, w) in words.iter().enumerate() {
        assert_eq!(*w, rng.next_u64(), "word {i}");
    }
    assert_eq!(words.len(), 16);
    // Same seed, same words; different seed, different words.
    assert_eq!(seeded_words(42, 16), words);
    assert_ne!(seeded_words(43, 16), words);
    // And a real stream is not constant.
    assert!(words.windows(2).any(|p| p[0] != p[1]));
}
