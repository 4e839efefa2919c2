//! The xorshift generator that makes the flames flicker, and its seed.

use vstd::prelude::*;

verus! {

/// The odd factor that spreads a generator's state over the bits of its output.
pub const MULTIPLIER: u64 = 0x2545_F491_4F6C_DD1D;

/// What the clock and the process number are mixed with.
pub const SEED_SALT: u64 = 0xA5A5_1F1F_D00D_F00D;

/// A 64-bit xorshift generator.
#[derive(Debug)]
pub struct Rng {
    pub state: u64,
}

impl Clone for Rng {
    fn clone(&self) -> (copy: Rng)
        ensures
            copy == *self,
    {
        Rng { state: self.state }
    }
}

/// The state that follows `x`.
pub open spec fn next_state(x: u64) -> u64 {
    let a = x ^ (x >> 12);
    let b = a ^ (a << 25);
    b ^ (b >> 27)
}

/// The number drawn when the generator reaches the state `x`.
pub open spec fn output(x: u64) -> u64 {
    x.wrapping_mul(MULTIPLIER)
}

/// The number from 0 to 3 drawn when the generator reaches the state `x`.
pub open spec fn output_0_to_3(x: u64) -> nat {
    (output(x) % 4) as nat
}

/// The bits of `x` moved 17 places up; those that leave at the top come back at the bottom.
pub open spec fn rotated_17(x: u64) -> u64 {
    (x << 17) | (x >> 47)
}

/// The seed: the system's random number unless there is none or it is zero, else a mix of the
/// clock (its low 64 bits; zero if it is set before the epoch) and the process number.
pub open spec fn seed_of(entropy: Option<u64>, nanos: Option<u128>, pid: u32) -> u64 {
    match entropy {
        Some(seed) if seed != 0 => seed,
        _ => {
            let now = match nanos {
                Some(n) => (n % 0x1_0000_0000_0000_0000) as u64,
                None => 0,
            };
            now ^ rotated_17(pid as u64) ^ SEED_SALT
        },
    }
}

/// Chooses the seed; see [`seed_of`].
pub fn random_seed(entropy: Option<u64>, nanos: Option<u128>, pid: u32) -> (seed: u64)
    ensures
        seed == seed_of(entropy, nanos, pid),
{
    match entropy {
        Some(seed) => {
            if seed != 0 {
                return seed;
            }
        },
        None => {},
    }
    let now: u64 = match nanos {
        Some(n) => (n % 0x1_0000_0000_0000_0000) as u64,
        None => 0,
    };
    let p: u64 = pid as u64;
    now ^ ((p << 17) | (p >> 47)) ^ SEED_SALT
}

impl Rng {
    /// A generator started from a seed. Its state is odd, so it is not zero.
    pub fn seeded(seed: u64) -> (rng: Rng)
        ensures
            rng.state == seed | 1,
            rng.state % 2 == 1,
            rng.state != 0,
    {
        assert((seed | 1) % 2 == 1) by (bit_vector);
        Rng { state: seed | 1 }
    }

    /// Draws a 64-bit number.
    pub fn next_u64(&mut self) -> (value: u64)
        ensures
            final(self).state == next_state(old(self).state),
            value == output(final(self).state),
    {
        let mut x: u64 = self.state;
        x = x ^ (x >> 12);
        x = x ^ (x << 25);
        x = x ^ (x >> 27);
        self.state = x;
        x.wrapping_mul(MULTIPLIER)
    }

    /// Draws a number from 0 to 3.
    pub fn next_0_to_3(&mut self) -> (value: usize)
        ensures
            final(self).state == next_state(old(self).state),
            value == output_0_to_3(final(self).state),
            value <= 3,
    {
        let x: u64 = self.next_u64();
        assert(x & 3 == x % 4 && x & 3 <= 3) by (bit_vector);
        (x & 3) as usize
    }
}

/// A generator whose state is not zero never gets stuck at zero.
pub proof fn law_state_never_becomes_zero(x: u64)
    requires
        x != 0,
    ensures
        next_state(x) != 0,
{
    assert(x != 0 ==> x ^ (x >> 12) != 0) by (bit_vector);
    let a = x ^ (x >> 12);
    assert(a != 0 ==> a ^ (a << 25) != 0) by (bit_vector);
    let b = a ^ (a << 25);
    assert(b != 0 ==> b ^ (b >> 27) != 0) by (bit_vector);
}

/// The number from 0 to 3 that is drawn is the two low bits of the state that was reached, so each
/// of the four numbers belongs to a quarter of all states.
pub proof fn law_draw_is_the_low_bits(x: u64)
    ensures
        output_0_to_3(x) == x % 4,
        output(x) % 4 == x % 4,
{
    let m = 0x1_0000_0000_0000_0000int;
    let q = 671455414434084679int;
    let k = MULTIPLIER as int;
    assert(k == 4 * q + 1);
    assert(output(x) == (x * k) % m);
    vstd::arithmetic::div_mod::lemma_mod_mod(x * k, 4, 0x4000_0000_0000_0000);
    assert(x * k == 4 * (x * q) + x) by (nonlinear_arith)
        requires
            k == 4 * q + 1,
    ;
    vstd::arithmetic::div_mod::lemma_mod_multiples_vanish(x * q, x as int, 4);
}

/// The states follow each other in a linear way: what follows two states combined bit by bit is
/// what follows each of them, combined bit by bit.
pub proof fn law_next_state_is_linear(x: u64, y: u64)
    ensures
        next_state(x ^ y) == next_state(x) ^ next_state(y),
{
    assert(((x ^ y) ^ ((x ^ y) >> 12)) == (x ^ (x >> 12)) ^ (y ^ (y >> 12))) by (bit_vector);
    let a = x ^ (x >> 12);
    let c = y ^ (y >> 12);
    assert(((a ^ c) ^ ((a ^ c) << 25)) == (a ^ (a << 25)) ^ (c ^ (c << 25))) by (bit_vector);
    let b = a ^ (a << 25);
    let d = c ^ (c << 25);
    assert(((b ^ d) ^ ((b ^ d) >> 27)) == (b ^ (b >> 27)) ^ (d ^ (d >> 27))) by (bit_vector);
}

/// A state is found again from the one that follows it, by shifts in the other order.
pub proof fn law_state_is_found_again(x: u64)
    ensures
        ({
            let n = next_state(x);
            let b = n ^ (n >> 27) ^ (n >> 54);
            let a = b ^ (b << 25) ^ (b << 50);
            x == a ^ (a >> 12) ^ (a >> 24) ^ (a >> 36) ^ (a >> 48) ^ (a >> 60)
        }),
{
    let a = x ^ (x >> 12);
    let b = a ^ (a << 25);
    let n = b ^ (b >> 27);
    assert(b == n ^ (n >> 27) ^ (n >> 54)) by (bit_vector)
        requires
            n == b ^ (b >> 27),
    ;
    assert(a == b ^ (b << 25) ^ (b << 50)) by (bit_vector)
        requires
            b == a ^ (a << 25),
    ;
    assert(x == a ^ (a >> 12) ^ (a >> 24) ^ (a >> 36) ^ (a >> 48) ^ (a >> 60)) by (bit_vector)
        requires
            a == x ^ (x >> 12),
    ;
}

/// What undoes [`MULTIPLIER`]: the product of the two leaves 1 in the low 64 bits.
pub open spec fn inverse() -> int {
    6415128727920758069
}

/// A number is found again in what is drawn for it.
proof fn lemma_output_undone(x: u64)
    ensures
        (output(x) * inverse()) % 0x1_0000_0000_0000_0000 == x,
{
    let m = 0x1_0000_0000_0000_0000int;
    let k = MULTIPLIER as int;
    assert(k * inverse() == 934034299265436267 * m + 1);
    assert(output(x) == (x * k) % m);
    vstd::arithmetic::div_mod::lemma_mul_mod_noop_left(x * k, inverse(), m);
    assert((x * k) * inverse() == (x * 934034299265436267) * m + x) by (nonlinear_arith)
        requires
            k * inverse() == 934034299265436267 * m + 1,
    ;
    vstd::arithmetic::div_mod::lemma_mod_multiples_vanish(
        x * 934034299265436267,
        x as int,
        m,
    );
}

/// Different states are followed by different states, and different numbers are drawn in them, so
/// no sequence of draws merges into another one.
pub proof fn law_states_never_merge(x: u64, y: u64)
    requires
        x != y,
    ensures
        next_state(x) != next_state(y),
        output(x) != output(y),
{
    lemma_output_undone(x);
    lemma_output_undone(y);
    assert(x != y ==> x ^ (x >> 12) != y ^ (y >> 12)) by (bit_vector);
    let a = x ^ (x >> 12);
    let c = y ^ (y >> 12);
    assert(a != c ==> a ^ (a << 25) != c ^ (c << 25)) by (bit_vector);
    let b = a ^ (a << 25);
    let d = c ^ (c << 25);
    assert(b != d ==> b ^ (b >> 27) != d ^ (d >> 27)) by (bit_vector);
}

/// The system's random number is the seed, unless it is zero.
pub proof fn law_random_number_is_the_seed(seed: u64, nanos: Option<u128>, pid: u32)
    ensures
        seed != 0 ==> seed_of(Some(seed), nanos, pid) == seed,
        seed_of(Some(0), nanos, pid) == seed_of(None, nanos, pid),
{
}

/// Without a random number, every bit of the clock and of the process number counts: the seeds of
/// two times differ in exactly the low 64 bits in which the times do, and those of two processes in
/// the bits of their numbers, 17 places up.
pub proof fn law_clock_and_process_make_the_seed(a: u64, b: u64, p: u32, q: u32)
    ensures
        seed_of(None, Some(a as u128), p) ^ seed_of(None, Some(b as u128), p) == a ^ b,
        seed_of(None, Some(a as u128), p) ^ seed_of(None, Some(a as u128), q) == ((p ^ q) as u64)
            << 17,
        seed_of(None, None, p) == seed_of(None, Some(0), p),
        seed_of(None, Some((a + 0x1_0000_0000_0000_0000) as u128), p) == seed_of(
            None,
            Some(a as u128),
            p,
        ),
        seed_of(None, None, 0) == 0xA5A5_1F1F_D00D_F00D,
{
    let x = p as u64;
    let y = q as u64;
    let s = SEED_SALT;
    let rx = rotated_17(x);
    let ry = rotated_17(y);
    assert((a ^ rx ^ s) ^ (b ^ rx ^ s) == a ^ b) by (bit_vector);
    assert((a ^ rx ^ s) ^ (a ^ ry ^ s) == rx ^ ry) by (bit_vector);
    assert(((p as u64) << 17 | (p as u64) >> 47) ^ ((q as u64) << 17 | (q as u64) >> 47) == ((p ^ q)
        as u64) << 17) by (bit_vector);
    assert(0u64 ^ (0u64 << 17 | 0u64 >> 47) ^ s == s) by (bit_vector);
}

} // verus!
