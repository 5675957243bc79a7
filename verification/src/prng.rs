use vstd::prelude::*;

verus! {

/// The multiplier of the linear congruential generator.
pub const A: u64 = 0x5D588B656C078965;

/// The increment of the linear congruential generator.
pub const C: u64 = 0x00269EC3;

/// `2^64`, the modulus of the generator.
pub open spec fn two_pow_64() -> int {
    0x1_0000_0000_0000_0000int
}

/// One step of the generator: `x_{n+1} = (A * x_n) + C` in wrapping 64-bit arithmetic.
pub open spec fn lcg_step(x: u64) -> u64 {
    ((A as int * x as int + C as int) % two_pow_64()) as u64
}

/// The state of the generator after `n` steps from `seed`.
pub open spec fn lcg_state_after(seed: u64, n: nat) -> u64
    decreases n,
{
    if n == 0 {
        seed
    } else {
        lcg_step(lcg_state_after(seed, (n - 1) as nat))
    }
}

/// Whether the inclusive range `start..=end` is one that the generator accepts: it is non-empty
/// and its size fits in a `u16`.
pub open spec fn is_valid_range(start: u16, end: u16) -> bool {
    &&& start <= end
    &&& end - start + 1 <= u16::MAX
}

/// Maps a 64-bit random number `r` onto `start..=end`: the number of the equally sized slice of
/// `0..2^64` that `r` falls into, counted from `start`.
pub open spec fn scale_to_range(r: u64, start: u16, end: u16) -> int {
    start + (r as int * (end - start + 1)) / two_pow_64()
}

/// What `generate_random_number_in_range` returns for a generator in state `seed`.
pub open spec fn number_in_range(seed: u64, start: u16, end: u16) -> int {
    if start == end {
        start as int
    } else {
        scale_to_range(lcg_step(seed), start, end)
    }
}

/// What `generate_random_number_in_range` leaves as the new state of a generator in state `seed`.
pub open spec fn state_after_number_in_range(seed: u64, start: u16, end: u16) -> u64 {
    if start == end {
        seed
    } else {
        lcg_step(seed)
    }
}

/// What `roll_chance(num, denom)` returns for a generator in state `seed`.
pub open spec fn chance_outcome(seed: u64, num: u16, denom: u16) -> bool {
    number_in_range(seed, 1, denom) <= num
}

/// A linear congruential pseudorandom number generator (LCRNG).
#[derive(Debug, Clone, Copy, PartialEq, Eq)]
pub struct Prng {
    pub start_seed: u64,
    pub current_seed: u64,
}

/// The number of whole seconds since the Unix epoch, read from the system clock.
///
/// Calls `std::time::SystemTime::elapsed` on `UNIX_EPOCH` and converts the duration to whole
/// seconds; a clock set before the epoch reads as 0. Nothing is claimed of the value: it
/// depends on the clock of the machine.
#[verifier::external_body]
fn seconds_since_unix_epoch() -> u64 {
    std::time::UNIX_EPOCH.elapsed().map(|d| d.as_secs()).unwrap_or(0)
}

impl Prng {
    /// A generator seeded with `start_seed`.
    pub fn new(start_seed: u64) -> (prng: Self)
        ensures
            prng.start_seed == start_seed,
            prng.current_seed == start_seed,
    {
        Prng { start_seed, current_seed: start_seed }
    }

    /// A generator seeded with the current time, in seconds since the Unix epoch.
    pub fn from_current_time() -> (prng: Self)
        ensures
            prng.current_seed == prng.start_seed,
    {
        let start_seed = seconds_since_unix_epoch();
        Prng { start_seed, current_seed: start_seed }
    }

    /// Advances the generator by one step with `x_{n+1} = (A * x_n) + C`, where
    /// `A = 0x5D588B656C078965` and `C = 0x00269EC3`, and returns the new state.
    fn next(&mut self) -> (r: u64)
        ensures
            r == lcg_step(old(self).current_seed),
            final(self).current_seed == r,
            final(self).start_seed == old(self).start_seed,
    {
        let m = self.current_seed.wrapping_mul(A);
        let n = m.wrapping_add(C);
        proof {
            vstd::arithmetic::div_mod::lemma_add_mod_noop(
                A as int * old(self).current_seed as int,
                C as int,
                two_pow_64(),
            );
            vstd::arithmetic::div_mod::lemma_mod_twice(C as int, two_pow_64());
        }
        self.current_seed = n;
        n
    }

    /// Returns each number in the range `start..=end` with equal probability. If the range contains
    /// one number, it returns it with 100% certainty, without advancing the generator.
    pub fn generate_random_number_in_range(&mut self, start: u16, end: u16) -> (n: u16)
        requires
            is_valid_range(start, end),
        ensures
            n == number_in_range(old(self).current_seed, start, end),
            start <= n <= end,
            final(self).current_seed == state_after_number_in_range(old(self).current_seed, start, end),
            final(self).start_seed == old(self).start_seed,
    {
        if end == start {
            return start;
        }
        let random_number = self.next();
        let span: u16 = end - start + 1;
        proof {
            lemma_scaled_is_below_span(random_number, span);
        }
        let product: u128 = (random_number as u128) * (span as u128);
        let offset: u128 = product / 0x1_0000_0000_0000_0000u128;
        let offset16: u16 = offset as u16;
        start + offset16
    }

    /// Returns `true` `num` out of `denom` times, pseudorandomly: the generator yields a number in
    /// `1..=denom`, and the roll succeeds if that number is at most `num`.
    pub fn roll_chance(&mut self, num: u16, denom: u16) -> (b: bool)
        requires
            denom != 0,
        ensures
            b == chance_outcome(old(self).current_seed, num, denom),
            final(self).current_seed == state_after_number_in_range(old(self).current_seed, 1, denom),
            final(self).start_seed == old(self).start_seed,
    {
        let roll = self.generate_random_number_in_range(1, denom);
        roll <= num
    }
}

/// `r * span / 2^64` is below `span`.
proof fn lemma_scaled_is_below_span(r: u64, span: u16)
    requires
        span >= 1,
    ensures
        0 <= (r as int * span as int) / two_pow_64() < (span as int),
        (r as int) * (span as int) < 0x1_0000_0000_0000_0000_0000_0000_0000_0000int,
{
    assert(r as int * span as int <= (two_pow_64() - 1) * span as int) by (nonlinear_arith)
        requires
            r as int <= two_pow_64() - 1,
            span >= 1,
    ;
    assert(0 <= r as int * span as int) by (nonlinear_arith)
        requires
            r >= 0,
            span >= 1,
    ;
    assert((r as int) * (span as int) < two_pow_64() * (span as int)) by (nonlinear_arith)
        requires
            r as int <= two_pow_64() - 1,
            span >= 1,
    ;
    assert((r as int * span as int) / two_pow_64() < (span as int)) by (nonlinear_arith)
        requires
            0 <= (r as int) * (span as int) < two_pow_64() * (span as int),
    ;
    assert(0 <= (r as int * span as int) / two_pow_64()) by (nonlinear_arith)
        requires
            0 <= r as int * span as int,
    ;
}

// Laws ------------------------------------------------------------------------------------- //

/// A number drawn from `start..=end` lies in that range, whatever the state of the generator.
pub proof fn law_number_in_range_is_in_range(seed: u64, start: u16, end: u16)
    requires
        is_valid_range(start, end),
    ensures
        start <= number_in_range(seed, start, end) <= end,
{
    if start != end {
        lemma_scaled_is_below_span(lcg_step(seed), (end - start + 1) as u16);
    }
}

/// A range of one number yields that number with certainty and leaves the generator unchanged.
pub proof fn law_single_number_range_is_certain(seed: u64, n: u16)
    ensures
        number_in_range(seed, n, n) == n,
        state_after_number_in_range(seed, n, n) == seed,
{
}

/// A chance of `num` out of `denom` with `num >= denom` always succeeds, and one with `num == 0`
/// never succeeds.
pub proof fn law_chance_extremes(seed: u64, num: u16, denom: u16)
    requires
        denom != 0,
    ensures
        num >= denom ==> chance_outcome(seed, num, denom),
        num == 0 ==> !chance_outcome(seed, num, denom),
{
    law_number_in_range_is_in_range(seed, 1, denom);
}

/// Each roll of a chance advances the generator by exactly one step, unless the denominator is 1.
pub proof fn law_chance_advances_one_step(seed: u64, denom: u16)
    requires
        denom > 1,
    ensures
        state_after_number_in_range(seed, 1, denom) == lcg_state_after(seed, 1),
{
    reveal_with_fuel(lcg_state_after, 2);
}


/// The generator steps as `x -> 0x5D588B656C078965 * x + 0x269EC3`, wrapping at `2^64`, and
/// a generator that has stepped `n + 1` times has stepped once more after `n` steps.
pub proof fn law_generator_steps(x: u64, seed: u64, n: nat)
    ensures
        lcg_step(x) as int == (0x5D588B656C078965int * x as int + 0x269EC3int) % 0x1_0000_0000_0000_0000int,
        lcg_state_after(seed, n + 1) == lcg_step(lcg_state_after(seed, n)),
        lcg_state_after(seed, 0) == seed,
{
    assert(0 <= (0x5D588B656C078965int * x as int + 0x269EC3int) % 0x1_0000_0000_0000_0000int
        < 0x1_0000_0000_0000_0000int);
}

} // verus!
