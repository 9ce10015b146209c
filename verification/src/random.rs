//! Trusted boundary to the `rand` crate, and verified helpers that map
//! raw 64-bit words into fixed-point ranges.
//!
//! The ambient random source threaded through construction and
//! mutation is a `rand::rngs::StdRng`.  Nothing is assumed about the
//! words it yields.  A distribution gene instead seeds its own local
//! source from a fixed seed; for that case the whole drawn word
//! sequence is named, because for a pinned version of the crate it is a
//! function of the seed alone.

use vstd::prelude::*;

use rand::{RngCore, SeedableRng};

use crate::fixed::fx_ok;

verus! {

#[verifier::external_type_specification]
#[verifier::external_body]
pub struct ExStdRng(rand::rngs::StdRng);

/// The first `n` 64-bit words drawn from a freshly seeded standard
/// random source.  Named, never defined: no contract says what the
/// words are, only that equal seeds give equal words.
pub uninterp spec fn word_stream(seed: u64, n: int) -> Seq<u64>;

/// Relies on rand's `StdRng::seed_from_u64` and `RngCore::next_u64`:
/// seeding is deterministic for a pinned version of the crate, so the
/// first `n` words drawn from a source seeded with `seed` are a
/// function of `seed` and `n` alone, and exactly `n` words come back.
#[verifier::external_body]
pub fn seeded_words(seed: u64, n: usize) -> (r: Vec<u64>)
    ensures
        r@ == word_stream(seed, n as int),
        r@.len() == n,
{
    let mut rng = rand::rngs::StdRng::seed_from_u64(seed);
    let mut words = Vec::with_capacity(n);
    for _ in 0..n {
        words.push(rng.next_u64());
    }
    words
}

/// Relies on rand's `RngCore::next_u64`: yields one word and advances
/// the source.  Nothing is claimed about the word.
#[verifier::external_body]
pub fn next_word(rng: &mut rand::rngs::StdRng) -> u64 {
    rng.next_u64()
}

/// Where a word lands in `[lo, hi)`.
pub open spec fn word_range_s(w: u64, lo: int, hi: int) -> int {
    lo + (w as int) % (hi - lo)
}

/// Map a word uniformly into the half-open fixed-point range
/// `[lo, hi)`.
pub fn word_to_range(w: u64, lo: i64, hi: i64) -> (r: i64)
    requires
        fx_ok(lo),
        fx_ok(hi),
        lo < hi,
    ensures
        r == word_range_s(w, lo as int, hi as int),
        lo <= r < hi,
        fx_ok(r),
{
    let span: u64 = (hi - lo) as u64;
    let m: u64 = w % span;
    lo + (m as i64)
}

} // verus!
