//! The pseudorandom stream that drives world generation.
//!
//! All draws for one generation run come from a single ChaCha generator
//! seeded once from the shared session seed. The generator is passed
//! explicitly through every pass, so the draw order is enforced by the call
//! graph. In specifications its state is an abstract value: each draw is
//! named as a function of the state it was made from together with the state
//! it leaves, so everything generated is provably a function of the seed
//! alone.

use vstd::prelude::*;
use rand::Rng;
use rand::SeedableRng;

verus! {

/// Declares `rand_chacha::ChaCha20Rng` (the crate's `ChaChaRng`), the
/// generator behind every draw; its values are opaque here and carry only
/// the abstract stream state below.
#[verifier::external_type_specification]
#[verifier::external_body]
pub struct ExChaCha20Rng(rand_chacha::ChaCha20Rng);

/// The abstract state of a ChaCha generator value.
pub uninterp spec fn rng_stream(rng: rand_chacha::ChaCha20Rng) -> Seq<u64>;

/// The abstract stream state that seeding with `seed` produces.
pub uninterp spec fn seed_stream(seed: u64) -> Seq<u64>;

/// The value a uniform draw over the inclusive range `lo..=hi` yields from
/// stream state `s`.
pub uninterp spec fn take_u8_incl(s: Seq<u64>, lo: u8, hi: u8) -> u8;

/// The stream state left after a uniform draw over `lo..=hi` from state `s`.
pub uninterp spec fn rest_u8_incl(s: Seq<u64>, lo: u8, hi: u8) -> Seq<u64>;

/// The value a uniform draw over the half-open range `lo..hi` yields from
/// stream state `s`.
pub uninterp spec fn take_u8(s: Seq<u64>, lo: u8, hi: u8) -> u8;

/// The stream state left after a uniform draw over `lo..hi` from state `s`.
pub uninterp spec fn rest_u8(s: Seq<u64>, lo: u8, hi: u8) -> Seq<u64>;

/// The value a uniform draw over the half-open range `lo..hi` of `u32` yields
/// from stream state `s`.
pub uninterp spec fn take_u32(s: Seq<u64>, lo: u32, hi: u32) -> u32;

/// The stream state left after a uniform `u32` draw over `lo..hi` from `s`.
pub uninterp spec fn rest_u32(s: Seq<u64>, lo: u32, hi: u32) -> Seq<u64>;

/// Relies on `ChaCha20Rng::seed_from_u64` (the `rand_core::SeedableRng`
/// default method): the generator it builds is a function of the seed alone.
#[verifier::external_body]
pub fn stream_from_seed(seed: u64) -> (rng: rand_chacha::ChaCha20Rng)
    ensures
        rng_stream(rng) == seed_stream(seed),
{
    rand_chacha::ChaCha20Rng::seed_from_u64(seed)
}

/// Relies on `rand::Rng::gen_range` over an inclusive `u8` range: the result
/// lies in `lo..=hi`, and both the result and the generator state left behind
/// depend only on the prior state and the bounds. Panics on an empty range,
/// which `lo <= hi` rules out.
#[verifier::external_body]
pub(crate) fn gen_range_u8_inclusive(rng: &mut rand_chacha::ChaCha20Rng, lo: u8, hi: u8) -> (r: u8)
    requires
        lo <= hi,
    ensures
        lo <= r <= hi,
        r == take_u8_incl(rng_stream(*old(rng)), lo, hi),
        rng_stream(*final(rng)) == rest_u8_incl(rng_stream(*old(rng)), lo, hi),
{
    rng.gen_range(lo..=hi)
}

/// Relies on `rand::Rng::gen_range` over a half-open `u8` range: the result
/// lies in `lo..hi`, and both the result and the generator state left behind
/// depend only on the prior state and the bounds. Panics on an empty range,
/// which `lo < hi` rules out.
#[verifier::external_body]
pub(crate) fn gen_range_u8(rng: &mut rand_chacha::ChaCha20Rng, lo: u8, hi: u8) -> (r: u8)
    requires
        lo < hi,
    ensures
        lo <= r < hi,
        r == take_u8(rng_stream(*old(rng)), lo, hi),
        rng_stream(*final(rng)) == rest_u8(rng_stream(*old(rng)), lo, hi),
{
    rng.gen_range(lo..hi)
}

/// Relies on `rand::Rng::gen_range` over a half-open `u32` range: the result
/// lies in `lo..hi`, and both the result and the generator state left behind
/// depend only on the prior state and the bounds. Panics on an empty range,
/// which `lo < hi` rules out.
#[verifier::external_body]
pub(crate) fn gen_range_u32(rng: &mut rand_chacha::ChaCha20Rng, lo: u32, hi: u32) -> (r: u32)
    requires
        lo < hi,
    ensures
        lo <= r < hi,
        r == take_u32(rng_stream(*old(rng)), lo, hi),
        rng_stream(*final(rng)) == rest_u32(rng_stream(*old(rng)), lo, hi),
{
    rng.gen_range(lo..hi)
}

} // verus!
