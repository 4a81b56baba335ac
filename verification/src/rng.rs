//! Deterministic random source for device simulators.
//!
//! Each simulator owns a `DetRng`, a pseudo-random generator seeded from a
//! deterministic function of the device id. The generator itself comes from
//! the `rand` crate; its draws are given names here so that contracts can
//! state that a reading sequence is a function of the seed and of the draws
//! made so far, which is what makes two simulators with the same device id
//! and scenario reproduce the same readings.

use vstd::prelude::*;
use vstd::utf8::encode_utf8;
use vstd::wrapping::u64_specs;
use rand::Rng;
use rand::SeedableRng;

verus! {

#[verifier::external_type_specification]
#[verifier::external_body]
pub struct ExStdRng(rand::rngs::StdRng);

/// The value of a draw from `lo` (inclusive) to `hi` (exclusive), made by a
/// generator seeded with `seed` after the draws recorded in `history`.
pub uninterp spec fn range_draw(seed: u64, history: Seq<(int, int, int)>, lo: int, hi: int) -> int;

/// The value of a draw from `lo` to `hi` (both inclusive), made by a
/// generator seeded with `seed` after the draws recorded in `history`.
pub uninterp spec fn range_incl_draw(
    seed: u64,
    history: Seq<(int, int, int)>,
    lo: int,
    hi: int,
) -> int;

/// The value of a biased coin flip with odds `num` in `den`, made by a
/// generator seeded with `seed` after the draws recorded in `history`.
pub uninterp spec fn ratio_draw(seed: u64, history: Seq<(int, int, int)>, num: int, den: int) -> bool;

/// History record of one half-open range draw.
pub open spec fn range_req(lo: int, hi: int) -> (int, int, int) {
    (0, lo, hi)
}

/// History record of one inclusive range draw.
pub open spec fn range_incl_req(lo: int, hi: int) -> (int, int, int) {
    (1, lo, hi)
}

/// History record of one biased coin flip.
pub open spec fn ratio_req(num: int, den: int) -> (int, int, int) {
    (2, num, den)
}

/// A seeded pseudo-random generator together with a ghost record of its seed
/// and of every draw made from it, so that each draw's value can be stated as
/// a function of the two.
pub struct DetRng {
    inner: rand::rngs::StdRng,
    seed: Ghost<u64>,
    draws: Ghost<Seq<(int, int, int)>>,
}

impl DetRng {
    /// The seed this generator was built with.
    pub closed spec fn spec_seed(&self) -> u64 {
        self.seed@
    }

    /// The draws made from this generator so far, oldest first.
    pub closed spec fn spec_draws(&self) -> Seq<(int, int, int)> {
        self.draws@
    }
}

/// Relies on rand's `StdRng::seed_from_u64`: it builds a deterministic
/// pseudo-random generator whose stream of draws is a function of the seed
/// alone. Nothing is visible of the returned generator itself; the draw
/// methods below state what each draw from it returns.
#[verifier::external_body]
fn stdrng_from_seed(seed: u64) -> rand::rngs::StdRng {
    rand::rngs::StdRng::seed_from_u64(seed)
}

impl DetRng {
    /// Builds a generator seeded with `seed`, with no draws made yet.
    pub fn new(seed: u64) -> (r: DetRng)
        ensures
            r.spec_seed() == seed,
            r.spec_draws() == Seq::<(int, int, int)>::empty(),
    {
        DetRng { inner: stdrng_from_seed(seed), seed: Ghost(seed), draws: Ghost(Seq::empty()) }
    }

    /// Relies on rand's `Rng::random_range` over `lo..hi`: it returns a value
    /// in that half-open range, determined by the generator's seed and by the
    /// draws made before this one; it panics only on an empty range, which
    /// the precondition rules out.
    #[verifier::external_body]
    pub fn range_i32(&mut self, lo: i32, hi: i32) -> (r: i32)
        requires
            lo < hi,
        ensures
            final(self).spec_seed() == old(self).spec_seed(),
            final(self).spec_draws() == old(self).spec_draws().push(range_req(lo as int, hi as int)),
            r == range_draw(old(self).spec_seed(), old(self).spec_draws(), lo as int, hi as int),
            lo <= r < hi,
    {
        self.inner.random_range(lo..hi)
    }

    /// Relies on rand's `Rng::random_range` over `lo..=hi`: it returns a
    /// value in that inclusive range, determined by the generator's seed and
    /// by the draws made before this one; it panics only on an empty range,
    /// which the precondition rules out.
    #[verifier::external_body]
    pub fn range_incl_i32(&mut self, lo: i32, hi: i32) -> (r: i32)
        requires
            lo <= hi,
        ensures
            final(self).spec_seed() == old(self).spec_seed(),
            final(self).spec_draws() == old(self).spec_draws().push(range_incl_req(lo as int, hi as int)),
            r == range_incl_draw(old(self).spec_seed(), old(self).spec_draws(), lo as int, hi as int),
            lo <= r <= hi,
    {
        self.inner.random_range(lo..=hi)
    }

    /// Relies on rand's `Rng::random_ratio`: it returns `true` with
    /// probability `num` in `den`, determined by the generator's seed and by
    /// the draws made before this one; it panics only when `den` is zero or
    /// `num` exceeds `den`, which the precondition rules out.
    #[verifier::external_body]
    pub fn ratio(&mut self, num: u32, den: u32) -> (r: bool)
        requires
            0 < den,
            num <= den,
        ensures
            final(self).spec_seed() == old(self).spec_seed(),
            final(self).spec_draws() == old(self).spec_draws().push(ratio_req(num as int, den as int)),
            r == ratio_draw(old(self).spec_seed(), old(self).spec_draws(), num as int, den as int),
    {
        self.inner.random_ratio(num, den)
    }
}

/// The seed a simulator derives from its device id: the wrapping sum of the
/// id's UTF-8 byte values.
pub open spec fn device_seed(bytes: Seq<u8>) -> u64
    decreases bytes.len(),
{
    if bytes.len() == 0 {
        0u64
    } else {
        u64_specs::wrapping_add(device_seed(bytes.drop_last()), bytes.last() as u64)
    }
}

/// Computes the seed for a device id: the wrapping sum of its byte values.
pub fn seed_for_device(device_id: &String) -> (r: u64)
    ensures
        r == device_seed(encode_utf8(device_id@)),
{
    let bytes: &[u8] = device_id.as_str().as_bytes();
    let mut sum: u64 = 0;
    let mut i: usize = 0;
    while i < bytes.len()
        invariant
            i <= bytes@.len(),
            bytes@ == encode_utf8(device_id@),
            sum == device_seed(bytes@.take(i as int)),
        decreases bytes@.len() - i,
    {
        let b: u8 = bytes[i];
        sum = sum.wrapping_add(b as u64);
        proof {
            assert(bytes@.take(i + 1).drop_last() =~= bytes@.take(i as int));
            assert(bytes@.take(i + 1).last() == bytes@[i as int]);
        }
        i = i + 1;
    }
    proof {
        assert(bytes@.take(bytes@.len() as int) =~= bytes@);
    }
    sum
}

} // verus!
