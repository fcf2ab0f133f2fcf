//! The seekable pseudorandom engine.
//!
//! Every per-row value of the dataset comes from a linear congruential
//! generator over the Mersenne prime `2^31 - 1` with multiplier `16807`.
//! Each column owns one generator; a generator consumes a fixed number of
//! draws per logical row, so the state at the start of row `n` is
//! `lcg_advance(seed, n * seeds_per_row)`, which [`RowRandomInt::advance_rows`]
//! computes in logarithmic time by modular exponentiation.

use crate::distribution::{pick_prop, Distribution, TextPool};
use vstd::prelude::*;
use vstd::arithmetic::div_mod::{
    lemma_mul_mod_noop_general, lemma_small_mod,
};

verus! {

/// Modulus of the linear congruential generator: the Mersenne prime `2^31 - 1`.
pub const LCG_MODULUS: u64 = 2147483647;

/// Multiplier of the linear congruential generator.
pub const LCG_MULTIPLIER: u64 = 16807;

/// One step of the linear congruential generator.
pub open spec fn lcg_step(s: nat) -> nat {
    (s * 16807) % 2147483647
}

/// The generator state after `n` steps from state `s`.
pub open spec fn lcg_advance(s: nat, n: nat) -> nat
    decreases n,
{
    if n == 0 {
        s
    } else {
        lcg_step(lcg_advance(s, (n - 1) as nat))
    }
}

/// `16807^e` reduced modulo `2^31 - 1`.
pub open spec fn lcg_power(b: nat, e: nat) -> nat
    decreases e,
{
    if e == 0 {
        1
    } else {
        (b * lcg_power(b, (e - 1) as nat)) % 2147483647
    }
}

/// The state at the start of logical row `n` for a generator created with
/// state `base` that consumes `per_row` draws per row.
pub open spec fn row_start_seed(base: nat, per_row: nat, n: nat) -> nat {
    lcg_advance(base, n * per_row)
}

/// Advancing stays below the modulus.
pub proof fn lemma_lcg_advance_bound(s: nat, n: nat)
    requires
        s < 2147483647,
    ensures
        lcg_advance(s, n) < 2147483647,
    decreases n,
{
    if n > 0 {
        lemma_lcg_advance_bound(s, (n - 1) as nat);
    }
}

/// Advancing `a + b` steps is advancing `a` steps and then `b` steps.
pub proof fn lemma_lcg_advance_add(s: nat, a: nat, b: nat)
    ensures
        lcg_advance(s, a + b) == lcg_advance(lcg_advance(s, a), b),
    decreases b,
{
    if b > 0 {
        lemma_lcg_advance_add(s, a, (b - 1) as nat);
        assert(a + b == (a + (b - 1) as nat) + 1);
    }
}

/// Advancing `n` steps multiplies the state by `16807^n` modulo `2^31 - 1`.
pub proof fn lemma_lcg_advance_is_power(s: nat, n: nat)
    requires
        s < 2147483647,
    ensures
        lcg_advance(s, n) == (s * lcg_power(16807, n)) % 2147483647,
    decreases n,
{
    if n == 0 {
        lemma_small_mod(s, 2147483647);
        assert(lcg_power(16807, 0) == 1);
    } else {
        let m = 2147483647 as int;
        let p = lcg_power(16807, (n - 1) as nat) as int;
        let prev = lcg_advance(s, (n - 1) as nat) as int;
        lemma_lcg_advance_is_power(s, (n - 1) as nat);
        assert(lcg_advance(s, n) == lcg_step(prev as nat));
        assert(prev == (s * p) % m);
        assert(lcg_power(16807, n) == (16807 * p) % m);
        // lcg_advance(s, n) == ((s * p) % m * 16807) % m
        lemma_mul_mod_noop_general(s * p, 16807, m);
        assert(((s * p) % m * 16807) % m == (s * p * 16807) % m);
        // == (s * p * 16807) % m == (s * (p * 16807)) % m
        assert(s * p * 16807 == s * (p * 16807)) by (nonlinear_arith);
        lemma_mul_mod_noop_general(s as int, p * 16807, m);
        assert((s * (p * 16807)) % m == (s * ((p * 16807) % m)) % m);
        // == (s * ((16807 * p) % m)) % m == (s * lcg_power(16807, n)) % m
        assert(p * 16807 == 16807 * p) by (nonlinear_arith);
    }
}

/// Squaring the base halves the exponent: `b^(2k) mod m == (b*b mod m)^k mod m`.
pub proof fn lemma_lcg_power_square(b: nat, k: nat)
    ensures
        lcg_power(b, 2 * k) == lcg_power((b * b) % 2147483647, k),
    decreases k,
{
    let m: int = 2147483647;
    let bi: int = b as int;
    let bb: int = (bi * bi) % m;
    if k > 0 {
        lemma_lcg_power_square(b, (k - 1) as nat);
        let p: int = lcg_power(b, (2 * k - 2) as nat) as int;
        let p1: int = lcg_power(b, (2 * k - 1) as nat) as int;
        assert(2 * k == (2 * k - 1) as nat + 1);
        assert(2 * k - 1 == (2 * k - 2) as nat + 1);
        assert(lcg_power(b, 2 * k) == (bi * p1) % m);
        assert(p1 == (bi * p) % m);
        assert(lcg_power(b, 2 * k) == (bi * ((bi * p) % m)) % m);
        lemma_mul_mod_noop_general(bi, bi * p, m);
        assert((bi * ((bi * p) % m)) % m == (bi * (bi * p)) % m);
        assert(bi * (bi * p) == (bi * bi) * p) by (nonlinear_arith);
        lemma_mul_mod_noop_general(bi * bi, p, m);
        assert(((bi * bi) * p) % m == (bb * p) % m);
        lemma_mul_mod_noop_general(bb, p, m);
        assert(lcg_power(bb as nat, k) == (bb * lcg_power(bb as nat, (k - 1) as nat)) % m);
    }
}

/// Skip-ahead equivalence: the state reached by jumping straight to row
/// `n + 1` is the state reached by jumping to row `n` and then finishing one
/// more row.  Reading a value after a direct jump therefore agrees with
/// reading it after sequential generation.
pub proof fn lemma_skip_ahead_equivalence(base: nat, per_row: nat, n: nat)
    ensures
        row_start_seed(base, per_row, n + 1)
            == lcg_advance(row_start_seed(base, per_row, n), per_row),
{
    assert((n + 1) * per_row == n * per_row + per_row) by (nonlinear_arith);
    lemma_lcg_advance_add(base, n * per_row, per_row);
}

/// Jump the raw generator state `count` steps in `O(log count)` time by
/// square-and-multiply modular exponentiation.
fn lcg_jump(seed: u64, count: u64) -> (r: u64)
    requires
        seed < 2147483647,
    ensures
        r == lcg_advance(seed as nat, count as nat),
        r < 2147483647,
{
    proof {
        lemma_lcg_advance_is_power(seed as nat, count as nat);
    }
    let mut s: u64 = seed;
    let mut mult: u64 = LCG_MULTIPLIER;
    let mut n: u64 = count;
    while n > 0
        invariant
            s < 2147483647,
            mult < 2147483647,
            (s as nat * lcg_power(mult as nat, n as nat)) % 2147483647
                == (seed as nat * lcg_power(16807, count as nat)) % 2147483647,
        decreases n,
    {
        let ghost m: int = 2147483647;
        let ghost s0: int = s as int;
        let ghost mult0: int = mult as int;
        let ghost n0: nat = n as nat;
        proof {
            vstd::arithmetic::mul::lemma_mul_upper_bound(
                s as int, 2147483646, mult as int, 2147483646);
            vstd::arithmetic::mul::lemma_mul_upper_bound(
                mult as int, 2147483646, mult as int, 2147483646);
        }
        if n % 2 == 1 {
            s = (s * mult) % LCG_MODULUS;
        }
        mult = (mult * mult) % LCG_MODULUS;
        n = n / 2;
        proof {
            let bb: nat = ((mult0 * mult0) % m) as nat;
            if n0 % 2 == 1 {
                // n0 = 2 * (n0 / 2) + 1
                assert(n0 == 2 * (n0 / 2) + 1);
                let p: int = lcg_power(mult0 as nat, (n0 - 1) as nat) as int;
                assert(lcg_power(mult0 as nat, n0) == (mult0 * p) % m);
                lemma_mul_mod_noop_general(s0, mult0 * p, m);
                assert((s0 * ((mult0 * p) % m)) % m == (s0 * (mult0 * p)) % m);
                assert(s0 * (mult0 * p) == (s0 * mult0) * p) by (nonlinear_arith);
                lemma_mul_mod_noop_general(s0 * mult0, p, m);
                lemma_lcg_power_square(mult0 as nat, n as nat);
                assert((n0 - 1) as nat == 2 * (n as nat));
                lemma_mul_mod_noop_general((s0 * mult0) % m, lcg_power(bb, n as nat) as int, m);
                assert(s as int == (s0 * mult0) % m);
            } else {
                assert(n0 == 2 * (n as nat));
                lemma_lcg_power_square(mult0 as nat, n as nat);
            }
        }
    }
    proof {
        assert(lcg_power(mult as nat, 0) == 1);
        assert(s as nat * 1 == s as nat);
        lemma_small_mod(s as nat, 2147483647);
        lemma_lcg_advance_bound(seed as nat, count as nat);
    }
    s
}

/// The bounded value derived from a freshly drawn state: the state is scaled
/// into `[low, high]` by multiplying with the range and dividing by the
/// modulus.
pub open spec fn bounded_value(seed_after: nat, low: int, high: int) -> int {
    low + (seed_after * (high - low + 1)) / 2147483647
}

/// One seekable pseudorandom column generator.
///
/// The generator owns its base seed, the number of draws it consumes per
/// logical row, and a cursor; the state it exposes for logical row `n` is a
/// pure function of the base seed and `n`, never of how the cursor got there.
pub struct RowRandomInt {
    /// Current raw state, always below the modulus.
    pub seed: u64,
    /// Draws consumed within the current logical row.
    pub usage: u64,
    /// Draws one logical row consumes.
    pub seeds_per_row: u64,
    /// The seed the generator was created with.
    pub base: Ghost<nat>,
    /// Logical rows finished so far.
    pub rows: Ghost<nat>,
}

impl RowRandomInt {
    /// The seed the generator was created with.
    pub open spec fn spec_base(self) -> nat {
        self.base@
    }

    /// How many logical rows have been finished.
    pub open spec fn spec_rows(self) -> nat {
        self.rows@
    }

    /// How many draws the current row has consumed so far.
    pub open spec fn spec_usage(self) -> nat {
        self.usage as nat
    }

    /// How many draws each logical row consumes.
    pub open spec fn spec_per_row(self) -> nat {
        self.seeds_per_row as nat
    }

    /// The current raw generator state.
    pub open spec fn spec_seed(self) -> nat {
        self.seed as nat
    }

    /// The state is always exactly the base seed advanced by every draw of
    /// every finished row plus the draws of the current row.
    #[verifier::opaque]
    pub open spec fn wf(self) -> bool {
        &&& self.base@ < 2147483647
        &&& self.seed < 2147483647
        &&& self.seeds_per_row >= 1
        &&& self.usage <= self.seeds_per_row
        &&& self.seed == lcg_advance(
            self.base@,
            self.rows@ * self.seeds_per_row as nat + self.usage as nat,
        )
    }

    /// Creates a generator at logical row `0` with no draws consumed.
    pub fn new(seed: u64, seeds_per_row: u64) -> (r: Self)
        requires
            seed < 2147483647,
            seeds_per_row >= 1,
        ensures
            r.wf(),
            r.spec_base() == seed,
            r.spec_rows() == 0,
            r.spec_usage() == 0,
            r.spec_per_row() == seeds_per_row,
    {
        proof {
            reveal(RowRandomInt::wf);
        }
        RowRandomInt { seed, usage: 0, seeds_per_row, base: Ghost(seed as nat), rows: Ghost(0) }
    }

    /// Draws the next raw state, consuming one draw of the current row.
    pub fn next_rand(&mut self) -> (r: u64)
        requires
            old(self).wf(),
            old(self).spec_usage() < old(self).spec_per_row(),
        ensures
            final(self).wf(),
            r == final(self).spec_seed(),
            final(self).spec_seed() == lcg_step(old(self).spec_seed()),
            final(self).spec_base() == old(self).spec_base(),
            final(self).spec_rows() == old(self).spec_rows(),
            final(self).spec_usage() == old(self).spec_usage() + 1,
            final(self).spec_per_row() == old(self).spec_per_row(),
            r < 2147483647,
    {
        proof {
            reveal(RowRandomInt::wf);
        }
        let ghost k = self.rows@ * self.seeds_per_row as nat + self.usage as nat;
        self.seed = (self.seed * LCG_MULTIPLIER) % LCG_MODULUS;
        self.usage = self.usage + 1;
        proof {
            assert(lcg_advance(self.base@, k + 1) == lcg_step(lcg_advance(self.base@, k)));
        }
        self.seed
    }

    /// Advances the cursor past the rest of the current row, so that the next
    /// draw belongs to the next logical row.
    pub fn row_finished(&mut self)
        requires
            old(self).wf(),
        ensures
            final(self).wf(),
            final(self).spec_base() == old(self).spec_base(),
            final(self).spec_rows() == old(self).spec_rows() + 1,
            final(self).spec_usage() == 0,
            final(self).spec_per_row() == old(self).spec_per_row(),
    {
        proof {
            reveal(RowRandomInt::wf);
        }
        let ghost b = self.base@;
        let ghost consumed = self.rows@ * self.seeds_per_row as nat + self.usage as nat;
        let remaining = self.seeds_per_row - self.usage;
        self.seed = lcg_jump(self.seed, remaining);
        self.usage = 0;
        proof {
            self.rows@ = self.rows@ + 1;
            lemma_lcg_advance_add(b, consumed, remaining as nat);
            assert(self.rows@ * self.seeds_per_row as nat
                == (self.rows@ - 1) * self.seeds_per_row as nat + self.seeds_per_row as nat)
                by (nonlinear_arith);
        }
    }

    /// Repositions a fresh generator at the start of logical row
    /// `old row + row_count` in logarithmic time.
    pub fn advance_rows(&mut self, row_count: u64)
        requires
            old(self).wf(),
            old(self).spec_usage() == 0,
            old(self).spec_per_row() * row_count as nat <= u64::MAX,
        ensures
            final(self).wf(),
            final(self).spec_base() == old(self).spec_base(),
            final(self).spec_rows() == old(self).spec_rows() + row_count,
            final(self).spec_usage() == 0,
            final(self).spec_per_row() == old(self).spec_per_row(),
    {
        proof {
            reveal(RowRandomInt::wf);
        }
        let ghost b = self.base@;
        let ghost r0 = self.rows@;
        let steps = self.seeds_per_row * row_count;
        self.seed = lcg_jump(self.seed, steps);
        proof {
            self.rows@ = self.rows@ + row_count as nat;
            lemma_lcg_advance_add(b, r0 * self.seeds_per_row as nat, steps as nat);
            let rc = row_count as nat;
            let spr = self.seeds_per_row as nat;
            assert((r0 + rc) * spr == r0 * spr + rc * spr) by (nonlinear_arith);
            assert(rc * spr == spr * rc) by (nonlinear_arith);
        }
    }

    /// Draws a value uniformly scaled into `[low, high]`.
    pub fn next_int(&mut self, low: i32, high: i32) -> (r: i32)
        requires
            old(self).wf(),
            old(self).spec_usage() < old(self).spec_per_row(),
            low <= high,
        ensures
            final(self).wf(),
            low <= r <= high,
            r == bounded_value(lcg_step(old(self).spec_seed()), low as int, high as int),
            final(self).spec_base() == old(self).spec_base(),
            final(self).spec_rows() == old(self).spec_rows(),
            final(self).spec_usage() == old(self).spec_usage() + 1,
            final(self).spec_per_row() == old(self).spec_per_row(),
    {
        let s = self.next_rand();
        let range: u64 = (high as i64 - low as i64 + 1) as u64;
        proof {
            vstd::arithmetic::mul::lemma_mul_upper_bound(
                s as int, 2147483646, range as int, 0x1_0000_0000);
            lemma_scaled_below_range(s as nat, range as nat);
        }
        let scaled: u64 = (s * range) / LCG_MODULUS;
        (low as i64 + scaled as i64) as i32
    }

    /// Draws a value uniformly scaled into `[low, high]` for non-negative
    /// 64-bit bounds.
    pub fn next_long(&mut self, low: i64, high: i64) -> (r: i64)
        requires
            old(self).wf(),
            old(self).spec_usage() < old(self).spec_per_row(),
            0 <= low <= high,
            high - low < 2147483647,
        ensures
            final(self).wf(),
            low <= r <= high,
            r == bounded_value(lcg_step(old(self).spec_seed()), low as int, high as int),
            final(self).spec_base() == old(self).spec_base(),
            final(self).spec_rows() == old(self).spec_rows(),
            final(self).spec_usage() == old(self).spec_usage() + 1,
            final(self).spec_per_row() == old(self).spec_per_row(),
    {
        let s = self.next_rand();
        let range: u64 = (high - low + 1) as u64;
        proof {
            vstd::arithmetic::mul::lemma_mul_upper_bound(
                s as int, 2147483646, range as int, 0x8000_0000);
            lemma_scaled_below_range(s as nat, range as nat);
        }
        let scaled: u64 = (s * range) / LCG_MODULUS;
        low + scaled as i64
    }
}

/// Scaling a state below the modulus into a range stays below the range.
proof fn lemma_scaled_below_range(s: nat, range: nat)
    requires
        s < 2147483647,
        range >= 1,
    ensures
        (s * range) / 2147483647 < range,
        s * range <= 2147483646 * range,
{
    vstd::arithmetic::mul::lemma_mul_upper_bound(s as int, 2147483646, range as int, range as int);
    assert(s * range < 2147483647 * range) by (nonlinear_arith)
        requires
            s < 2147483647,
            range >= 1,
    ;
    vstd::arithmetic::div_mod::lemma_multiply_divide_lt(s * range as int, range as int, 2147483647);
}

/// A bounded 32-bit column: one draw per logical row, scaled into
/// `[low, high]`.
pub struct RandomBoundedInt {
    /// The underlying generator, one draw per row.
    pub random: RowRandomInt,
    /// Smallest value the column takes.
    pub low: i32,
    /// Largest value the column takes.
    pub high: i32,
}

impl RandomBoundedInt {
    /// The underlying generator is sound, consumes one draw per row, and the
    /// bounds are ordered.
    pub open spec fn wf(self) -> bool {
        &&& self.random.wf()
        &&& self.random.spec_per_row() == 1
        &&& self.low <= self.high
    }

    /// The value this column takes at logical row `n`: a pure function of the
    /// base seed and `n`.
    pub open spec fn spec_row_value(self, n: nat) -> int {
        bounded_value(
            lcg_step(row_start_seed(self.random.spec_base(), 1, n)),
            self.low as int,
            self.high as int,
        )
    }

    /// Creates the column at logical row `0`.
    pub fn new(seed: u64, low: i32, high: i32) -> (r: Self)
        requires
            seed < 2147483647,
            low <= high,
        ensures
            r.wf(),
            r.random.spec_base() == seed,
            r.random.spec_rows() == 0,
            r.random.spec_usage() == 0,
            r.low == low,
            r.high == high,
    {
        RandomBoundedInt { random: RowRandomInt::new(seed, 1), low, high }
    }

    /// The value of the current row.  Must be called at most once per row.
    pub fn next_value(&mut self) -> (r: i32)
        requires
            old(self).wf(),
            old(self).random.spec_usage() == 0,
        ensures
            final(self).wf(),
            old(self).low <= r <= old(self).high,
            r == old(self).spec_row_value(old(self).random.spec_rows()),
            final(self).random.spec_base() == old(self).random.spec_base(),
            final(self).random.spec_rows() == old(self).random.spec_rows(),
            final(self).random.spec_usage() == 1,
            final(self).low == old(self).low,
            final(self).high == old(self).high,
    {
        proof {
            reveal(RowRandomInt::wf);
        }
        self.random.next_int(self.low, self.high)
    }

    /// Finishes the current row.
    pub fn row_finished(&mut self)
        requires
            old(self).wf(),
        ensures
            final(self).wf(),
            final(self).random.spec_base() == old(self).random.spec_base(),
            final(self).random.spec_rows() == old(self).random.spec_rows() + 1,
            final(self).random.spec_usage() == 0,
            final(self).low == old(self).low,
            final(self).high == old(self).high,
    {
        self.random.row_finished()
    }

    /// Jumps forward `row_count` logical rows.
    pub fn advance_rows(&mut self, row_count: u64)
        requires
            old(self).wf(),
            old(self).random.spec_usage() == 0,
        ensures
            final(self).wf(),
            final(self).random.spec_base() == old(self).random.spec_base(),
            final(self).random.spec_rows() == old(self).random.spec_rows() + row_count,
            final(self).random.spec_usage() == 0,
            final(self).low == old(self).low,
            final(self).high == old(self).high,
    {
        self.random.advance_rows(row_count)
    }
}

/// The value a bounded 64-bit column takes at row `n`.  A wide column
/// combines two consecutive draws into one value; a narrow one scales a
/// single draw.
pub open spec fn long_row_value(base: nat, n: nat, use_64bits: bool, low: int, high: int) -> int {
    if use_64bits {
        let s1 = lcg_step(row_start_seed(base, 2, n));
        let s2 = lcg_step(s1);
        low + (s1 as int * 2147483647 + s2 as int) % (high - low + 1)
    } else {
        bounded_value(lcg_step(row_start_seed(base, 1, n)), low, high)
    }
}

/// A bounded 64-bit column over non-negative bounds.
pub struct RandomBoundedLong {
    /// The underlying generator: two draws per row when `use_64bits` is set,
    /// one otherwise.
    pub random: RowRandomInt,
    /// Whether the column combines two draws into one wide value.
    pub use_64bits: bool,
    /// Smallest value the column takes.
    pub low: i64,
    /// Largest value the column takes.
    pub high: i64,
}

impl RandomBoundedLong {
    /// The underlying generator is sound, the draw count matches the width,
    /// and the bounds are ordered, non-negative and narrow enough for exact
    /// 64-bit arithmetic.
    pub open spec fn wf(self) -> bool {
        &&& self.random.wf()
        &&& self.random.spec_per_row() == (if self.use_64bits { 2nat } else { 1nat })
        &&& 0 <= self.low <= self.high
        &&& self.high - self.low < 0x2000_0000_0000_0000
        &&& !self.use_64bits ==> self.high - self.low < 2147483647
    }

    /// The value this column takes at logical row `n`.
    pub open spec fn spec_row_value(self, n: nat) -> int {
        long_row_value(
            self.random.spec_base(),
            n,
            self.use_64bits,
            self.low as int,
            self.high as int,
        )
    }

    /// Creates the column at logical row `0`.
    pub fn new(seed: u64, use_64bits: bool, low: i64, high: i64) -> (r: Self)
        requires
            seed < 2147483647,
            0 <= low <= high,
            high - low < 0x2000_0000_0000_0000,
            !use_64bits ==> high - low < 2147483647,
        ensures
            r.wf(),
            r.random.spec_base() == seed,
            r.random.spec_rows() == 0,
            r.random.spec_usage() == 0,
            r.use_64bits == use_64bits,
            r.low == low,
            r.high == high,
    {
        let per_row: u64 = if use_64bits {
            2
        } else {
            1
        };
        RandomBoundedLong { random: RowRandomInt::new(seed, per_row), use_64bits, low, high }
    }

    /// The value of the current row.  Must be called at most once per row.
    pub fn next_value(&mut self) -> (r: i64)
        requires
            old(self).wf(),
            old(self).random.spec_usage() == 0,
        ensures
            final(self).wf(),
            old(self).low <= r <= old(self).high,
            r == old(self).spec_row_value(old(self).random.spec_rows()),
            final(self).random.spec_base() == old(self).random.spec_base(),
            final(self).random.spec_rows() == old(self).random.spec_rows(),
            final(self).use_64bits == old(self).use_64bits,
            final(self).low == old(self).low,
            final(self).high == old(self).high,
    {
        proof {
            reveal(RowRandomInt::wf);
        }
        if self.use_64bits {
            let h = self.random.next_rand();
            let l = self.random.next_rand();
            let range: u64 = (self.high - self.low + 1) as u64;
            proof {
                vstd::arithmetic::mul::lemma_mul_upper_bound(
                    h as int,
                    2147483646,
                    2147483647,
                    2147483647,
                );
            }
            let combined: u64 = h * LCG_MODULUS + l;
            let r = self.low + (combined % range) as i64;
            r
        } else {
            self.random.next_long(self.low, self.high)
        }
    }

    /// Finishes the current row.
    pub fn row_finished(&mut self)
        requires
            old(self).wf(),
        ensures
            final(self).wf(),
            final(self).random.spec_base() == old(self).random.spec_base(),
            final(self).random.spec_rows() == old(self).random.spec_rows() + 1,
            final(self).random.spec_usage() == 0,
            final(self).use_64bits == old(self).use_64bits,
            final(self).low == old(self).low,
            final(self).high == old(self).high,
    {
        self.random.row_finished()
    }

    /// Jumps forward `row_count` logical rows.
    pub fn advance_rows(&mut self, row_count: u64)
        requires
            old(self).wf(),
            old(self).random.spec_usage() == 0,
            old(self).random.spec_per_row() * row_count as nat <= u64::MAX,
        ensures
            final(self).wf(),
            final(self).random.spec_base() == old(self).random.spec_base(),
            final(self).random.spec_rows() == old(self).random.spec_rows() + row_count,
            final(self).random.spec_usage() == 0,
            final(self).use_64bits == old(self).use_64bits,
            final(self).low == old(self).low,
            final(self).high == old(self).high,
    {
        self.random.advance_rows(row_count)
    }
}


/// A weighted pick column: one draw per row, scaled into the pool's total
/// weight and resolved through the running-total table.
pub struct RandomString {
    /// The underlying generator, one draw per row.
    pub random: RowRandomInt,
    /// The pool picked from.
    pub distribution: Distribution,
}

impl RandomString {
    /// The underlying generator is sound and the pool's total weight is
    /// positive and small enough to scale a draw into.
    pub open spec fn wf(self) -> bool {
        &&& self.random.wf()
        &&& self.random.spec_per_row() == 1
        &&& self.distribution.wf()
        &&& 1 <= self.distribution.spec_total_weight() < 2147483647
    }

    /// The weight this column draws at logical row `n`.
    pub open spec fn spec_row_weight(self, n: nat) -> int {
        bounded_value(
            lcg_step(row_start_seed(self.random.spec_base(), 1, n)),
            0,
            self.distribution.spec_total_weight() - 1,
        )
    }

    /// Creates the column at logical row `0`.  Returns `None` exactly when
    /// the pool's total weight is zero or too large to scale a draw into.
    pub fn new(seed: u64, distribution: Distribution) -> (r: Option<Self>)
        requires
            seed < 2147483647,
            distribution.wf(),
        ensures
            r is Some ==> r.unwrap().wf() && r.unwrap().random.spec_base() == seed
                && r.unwrap().random.spec_rows() == 0 && r.unwrap().random.spec_usage() == 0
                && r.unwrap().distribution == distribution,
            (r is Some) <==> 1 <= distribution.spec_total_weight() < 2147483647,
    {
        let total = distribution.total_weight();
        if 1 <= total && total < LCG_MODULUS {
            Some(RandomString { random: RowRandomInt::new(seed, 1), distribution })
        } else {
            None
        }
    }

    /// The value of the current row: the pool entry picked by this row's
    /// drawn weight.  Must be called at most once per row.
    pub fn next_value(&mut self) -> (r: String)
        requires
            old(self).wf(),
            old(self).random.spec_usage() == 0,
        ensures
            final(self).wf(),
            exists|i: int|
                pick_prop(
                    old(self).distribution,
                    old(self).spec_row_weight(old(self).random.spec_rows()) as u64,
                    i,
                ) && r@ == old(self).distribution.values@[i]@,
            final(self).random.spec_base() == old(self).random.spec_base(),
            final(self).random.spec_rows() == old(self).random.spec_rows(),
            final(self).distribution == old(self).distribution,
    {
        proof {
            reveal(RowRandomInt::wf);
        }
        let total = self.distribution.total_weight();
        let w = self.random.next_long(0, (total - 1) as i64);
        let idx = self.distribution.pick_index(w as u64);
        self.distribution.get_value(idx)
    }

    /// Finishes the current row.
    pub fn row_finished(&mut self)
        requires
            old(self).wf(),
        ensures
            final(self).wf(),
            final(self).random.spec_base() == old(self).random.spec_base(),
            final(self).random.spec_rows() == old(self).random.spec_rows() + 1,
            final(self).random.spec_usage() == 0,
            final(self).distribution == old(self).distribution,
    {
        self.random.row_finished()
    }

    /// Jumps forward `row_count` logical rows.
    pub fn advance_rows(&mut self, row_count: u64)
        requires
            old(self).wf(),
            old(self).random.spec_usage() == 0,
        ensures
            final(self).wf(),
            final(self).random.spec_base() == old(self).random.spec_base(),
            final(self).random.spec_rows() == old(self).random.spec_rows() + row_count,
            final(self).random.spec_usage() == 0,
            final(self).distribution == old(self).distribution,
    {
        self.random.advance_rows(row_count)
    }
}

/// A sequence of pool words produced for one row.
#[derive(Debug, Clone)]
pub struct StringSequenceInstance {
    /// The picked words, in draw order.
    pub words: Vec<String>,
}

/// The swap target of shuffle position `p` for a row whose draws start from
/// state `rs` over a pool of `size` entries: the position itself plus the
/// drawn share of the remaining entries.
pub open spec fn spec_swap_target(rs: nat, size: nat, p: nat) -> int {
    p + (lcg_advance(rs, p + 1) * (size - p)) / 2147483647
}

/// The index list over `size` pool entries after the first `k` swaps of a
/// row's partial shuffle: each position in turn trades places with a drawn
/// later position, so the first `k` entries are the row's first `k` picks.
pub open spec fn spec_shuffle_ids(rs: nat, size: nat, k: nat) -> Seq<int>
    decreases k,
{
    if k == 0 {
        Seq::new(size, |i: int| i)
    } else {
        let p = (k - 1) as nat;
        let prev = spec_shuffle_ids(rs, size, p);
        let j = spec_swap_target(rs, size, p);
        prev.update(p as int, prev[j]).update(j, prev[p as int])
    }
}

/// Word `i` of logical row `n` for a sequence of `count` words over pool `d`:
/// the pool entry the row's partial shuffle leaves at position `i`.
pub open spec fn sequence_word(d: Distribution, base: nat, n: nat, count: nat, i: int) -> Seq<
    char,
> {
    let size = d.spec_size();
    d.values@[spec_shuffle_ids(row_start_seed(base, size, n), size, count)[i]]@
}

/// Every swap target stays inside the pool, so the shuffled index list is
/// always a rearrangement of the pool's indices.
pub proof fn lemma_shuffle_ids_in_range(rs: nat, size: nat, k: nat)
    requires
        rs < 2147483647,
        k <= size,
    ensures
        spec_shuffle_ids(rs, size, k).len() == size,
        forall|i: int|
            0 <= i < size ==> 0 <= #[trigger] spec_shuffle_ids(rs, size, k)[i] < size,
        k >= 1 ==> (k - 1) <= spec_swap_target(rs, size, (k - 1) as nat) < size,
    decreases k,
{
    if k >= 1 {
        let p = (k - 1) as nat;
        lemma_shuffle_ids_in_range(rs, size, p);
        lemma_lcg_advance_bound(rs, p + 1);
        lemma_scaled_below_range(lcg_advance(rs, p + 1), (size - p) as nat);
    }
}

/// A column of several pool words per row, picked by a partial shuffle.  The
/// row consumes one draw per pool entry, whether or not the word count uses
/// them all.
pub struct RandomStringSequence {
    /// The underlying generator, one draw per pool entry.
    pub random: RowRandomInt,
    /// Words picked per row.
    pub count: u64,
    /// The pool picked from.
    pub distribution: Distribution,
}

impl RandomStringSequence {
    /// The underlying generator is sound and budgets one draw per pool entry
    /// of a row, the word count fits in the pool, and the pool is small
    /// enough that a whole-table row jump stays within 64-bit arithmetic.
    pub open spec fn wf(self) -> bool {
        &&& self.random.wf()
        &&& 1 <= self.count <= self.distribution.spec_size()
        &&& self.random.spec_per_row() == self.distribution.spec_size()
        &&& self.distribution.wf()
        &&& self.distribution.spec_size() <= 128
    }

    /// Creates the column at logical row `0`.  Returns `None` exactly when
    /// the word count does not fit in the pool or the pool is too large for a
    /// one-draw-per-entry row budget.
    pub fn new(seed: u64, count: u64, distribution: Distribution) -> (r: Option<Self>)
        requires
            seed < 2147483647,
            count >= 1,
            distribution.wf(),
        ensures
            r is Some ==> r.unwrap().wf() && r.unwrap().random.spec_base() == seed
                && r.unwrap().random.spec_rows() == 0 && r.unwrap().random.spec_usage() == 0
                && r.unwrap().count == count && r.unwrap().distribution == distribution,
            (r is Some) <==> (count <= distribution.spec_size() && distribution.spec_size()
                <= 128),
    {
        let size = distribution.size();
        if count <= size as u64 && size as u64 <= 128 {
            Some(
                RandomStringSequence {
                    random: RowRandomInt::new(seed, size as u64),
                    count,
                    distribution,
                },
            )
        } else {
            None
        }
    }

    /// The words of the current row: the first `count` picks of the row's
    /// partial shuffle of the pool.  Must be called at most once per row.
    #[verifier::rlimit(60)]
    pub fn next_value(&mut self) -> (r: StringSequenceInstance)
        requires
            old(self).wf(),
            old(self).random.spec_usage() == 0,
        ensures
            final(self).wf(),
            r.words@.len() == old(self).count,
            forall|i: int|
                0 <= i < old(self).count ==> #[trigger] r.words@[i]@ == sequence_word(
                    old(self).distribution,
                    old(self).random.spec_base(),
                    old(self).random.spec_rows(),
                    old(self).count as nat,
                    i,
                ),
            final(self).random.spec_base() == old(self).random.spec_base(),
            final(self).random.spec_rows() == old(self).random.spec_rows(),
            final(self).count == old(self).count,
            final(self).distribution == old(self).distribution,
    {
        proof {
            reveal(RowRandomInt::wf);
        }
        let ghost base = self.random.spec_base();
        let ghost n = self.random.spec_rows();
        let size = self.distribution.size();
        let ghost rs = row_start_seed(base, size as nat, n);
        let mut ids: Vec<usize> = Vec::new();
        let mut fill: usize = 0;
        while fill < size
            invariant
                fill <= size,
                ids@.len() == fill,
                forall|i: int| 0 <= i < fill ==> #[trigger] ids@[i] == i,
            decreases size - fill,
        {
            ids.push(fill);
            fill = fill + 1;
        }
        proof {
            assert(forall|i: int|
                0 <= i < size ==> #[trigger] ids@[i] as int == spec_shuffle_ids(
                    rs,
                    size as nat,
                    0,
                )[i]);
        }
        let mut words: Vec<String> = Vec::new();
        let mut k: u64 = 0;
        while k < self.count
            invariant
                self.wf(),
                k <= self.count,
                size == self.distribution.spec_size(),
                words@.len() == k,
                ids@.len() == size,
                self.count == old(self).count,
                self.distribution == old(self).distribution,
                self.random.spec_base() == base,
                self.random.spec_rows() == n,
                self.random.spec_usage() == k,
                rs == row_start_seed(base, size as nat, n),
                base < 2147483647,
                rs < 2147483647,
                forall|i: int|
                    0 <= i < size ==> #[trigger] ids@[i] as int == spec_shuffle_ids(
                        rs,
                        size as nat,
                        k as nat,
                    )[i],
                forall|i: int|
                    0 <= i < k ==> #[trigger] words@[i]@ == self.distribution.values@[
                        spec_shuffle_ids(rs, size as nat, k as nat)[i]]@,
            decreases self.count - k,
        {
            let ghost k0 = k as nat;
            proof {
                reveal(RowRandomInt::wf);
                lemma_lcg_advance_add(base, n * size as nat, k0);
                lemma_shuffle_ids_in_range(rs, size as nat, k0 + 1);
                lemma_shuffle_ids_in_range(rs, size as nat, k0);
            }
            let s = self.random.next_rand();
            proof {
                assert(lcg_advance(rs, k0 + 1) == lcg_step(lcg_advance(rs, k0)));
                lemma_scaled_below_range(s as nat, (size - k as usize) as nat);
            }
            let j: usize = k as usize + ((s * (size - k as usize) as u64) / LCG_MODULUS) as usize;
            proof {
                assert(j as int == spec_swap_target(rs, size as nat, k0));
            }
            let picked = ids[j];
            let displaced = ids[k as usize];
            ids.set(k as usize, picked);
            ids.set(j, displaced);
            proof {
                assert(forall|i: int|
                    0 <= i < size ==> #[trigger] ids@[i] as int == spec_shuffle_ids(
                        rs,
                        size as nat,
                        k0 + 1,
                    )[i]);
            }
            let word = self.distribution.get_value(picked);
            words.push(word);
            k = k + 1;
            proof {
                assert(forall|i: int|
                    0 <= i < k ==> #[trigger] words@[i]@ == self.distribution.values@[
                        spec_shuffle_ids(rs, size as nat, k as nat)[i]]@);
            }
        }
        let result = StringSequenceInstance { words };
        proof {
            assert forall|i: int| 0 <= i < old(self).count implies #[trigger] result.words@[i]@
                == sequence_word(
                old(self).distribution,
                base,
                n,
                old(self).count as nat,
                i,
            ) by {
                assert(result.words@[i]@ == self.distribution.values@[spec_shuffle_ids(
                    rs,
                    size as nat,
                    old(self).count as nat,
                )[i]]@);
            }
        }
        result
    }

    /// Finishes the current row.
    pub fn row_finished(&mut self)
        requires
            old(self).wf(),
        ensures
            final(self).wf(),
            final(self).random.spec_base() == old(self).random.spec_base(),
            final(self).random.spec_rows() == old(self).random.spec_rows() + 1,
            final(self).random.spec_usage() == 0,
            final(self).count == old(self).count,
            final(self).distribution == old(self).distribution,
    {
        self.random.row_finished()
    }

    /// Jumps forward `row_count` logical rows.
    pub fn advance_rows(&mut self, row_count: u64)
        requires
            old(self).wf(),
            old(self).random.spec_usage() == 0,
            row_count <= 0x0100_0000_0000_0000,
        ensures
            final(self).wf(),
            final(self).random.spec_base() == old(self).random.spec_base(),
            final(self).random.spec_rows() == old(self).random.spec_rows() + row_count,
            final(self).random.spec_usage() == 0,
            final(self).count == old(self).count,
            final(self).distribution == old(self).distribution,
    {
        proof {
            lemma_row_jump_fits(self.random.spec_per_row(), row_count as nat);
        }
        self.random.advance_rows(row_count)
    }
}

/// A row jump over a column that budgets at most 128 draws per row stays
/// within 64-bit arithmetic for any supported start index.
proof fn lemma_row_jump_fits(per_row: nat, rows: nat)
    requires
        per_row <= 128,
        rows <= 0x0100_0000_0000_0000,
    ensures
        per_row * rows <= u64::MAX,
{
    assert(per_row * rows <= 9223372036854775808) by (nonlinear_arith)
        requires
            per_row <= 128,
            rows <= 0x0100_0000_0000_0000,
    ;
}

/// A pooled-text column: each row draws a length and an offset and takes that
/// substring of the corpus.  Two draws per row.
pub struct RandomText {
    /// The underlying generator, two draws per row.
    pub random: RowRandomInt,
    /// The corpus substrings are taken from.
    pub pool: TextPool,
    /// Smallest substring length.
    pub min_length: u64,
    /// Largest substring length.
    pub max_length: u64,
}

/// The substring the pooled-text column takes at row `n`: the first draw
/// scales into the length range, the second into the remaining offsets.
pub open spec fn text_row_range(
    base: nat,
    n: nat,
    min_length: int,
    max_length: int,
    pool_len: int,
) -> (int, int) {
    let s1 = lcg_step(row_start_seed(base, 2, n));
    let len = bounded_value(s1, min_length, max_length);
    let s2 = lcg_step(s1);
    let offset = bounded_value(s2, 0, pool_len - len);
    (offset, len)
}

impl RandomText {
    /// The underlying generator is sound, the bounds are ordered and the
    /// corpus is longer than the largest substring.
    pub open spec fn wf(self) -> bool {
        &&& self.random.wf()
        &&& self.random.spec_per_row() == 2
        &&& self.pool.wf()
        &&& self.min_length <= self.max_length
        &&& self.max_length < 2147483647
        &&& self.max_length < self.pool.text@.len()
        &&& self.pool.text@.len() < 2147483647
    }

    /// Creates the column at logical row `0` with lengths scaled around
    /// `average_length` (two fifths to eight fifths of it).  Returns `None`
    /// exactly when the corpus is too short for the largest length or too
    /// large to index with a draw.
    pub fn new(seed: u64, pool: TextPool, average_length: u32) -> (r: Option<Self>)
        requires
            seed < 2147483647,
            pool.wf(),
        ensures
            r is Some ==> r.unwrap().wf() && r.unwrap().random.spec_base() == seed
                && r.unwrap().random.spec_rows() == 0 && r.unwrap().random.spec_usage() == 0
                && r.unwrap().pool == pool && r.unwrap().min_length == average_length as int * 2
                / 5 && r.unwrap().max_length == average_length as int * 8 / 5,
            (r is Some) <==> (average_length as int * 8 / 5 < pool.text@.len()
                && pool.text@.len() < 2147483647),
    {
        let min_length = (average_length as u64) * 2 / 5;
        let max_length = (average_length as u64) * 8 / 5;
        let size = pool.size();
        if max_length < size as u64 && (size as u64) < LCG_MODULUS {
            proof {
                vstd::arithmetic::div_mod::lemma_div_is_ordered(
                    average_length as int * 2,
                    average_length as int * 8,
                    5,
                );
            }
            Some(RandomText { random: RowRandomInt::new(seed, 2), pool, min_length, max_length })
        } else {
            None
        }
    }

    /// The substring of the current row.  Must be called at most once per
    /// row.
    pub fn next_value(&mut self) -> (r: String)
        requires
            old(self).wf(),
            old(self).random.spec_usage() == 0,
        ensures
            final(self).wf(),
            ({
                let (offset, len) = text_row_range(
                    old(self).random.spec_base(),
                    old(self).random.spec_rows(),
                    old(self).min_length as int,
                    old(self).max_length as int,
                    old(self).pool.text@.len() as int,
                );
                r@ == old(self).pool.text@.subrange(offset, offset + len)
            }),
            final(self).random.spec_base() == old(self).random.spec_base(),
            final(self).random.spec_rows() == old(self).random.spec_rows(),
            final(self).pool == old(self).pool,
            final(self).min_length == old(self).min_length,
            final(self).max_length == old(self).max_length,
    {
        proof {
            reveal(RowRandomInt::wf);
        }
        let len = self.random.next_long(self.min_length as i64, self.max_length as i64);
        let size = self.pool.size();
        let offset = self.random.next_long(0, size as i64 - len);
        self.pool.substring(offset as usize, len as usize)
    }

    /// Finishes the current row.
    pub fn row_finished(&mut self)
        requires
            old(self).wf(),
        ensures
            final(self).wf(),
            final(self).random.spec_base() == old(self).random.spec_base(),
            final(self).random.spec_rows() == old(self).random.spec_rows() + 1,
            final(self).random.spec_usage() == 0,
            final(self).pool == old(self).pool,
            final(self).min_length == old(self).min_length,
            final(self).max_length == old(self).max_length,
    {
        self.random.row_finished()
    }

    /// Jumps forward `row_count` logical rows.
    pub fn advance_rows(&mut self, row_count: u64)
        requires
            old(self).wf(),
            old(self).random.spec_usage() == 0,
            old(self).random.spec_per_row() * row_count as nat <= u64::MAX,
        ensures
            final(self).wf(),
            final(self).random.spec_base() == old(self).random.spec_base(),
            final(self).random.spec_rows() == old(self).random.spec_rows() + row_count,
            final(self).random.spec_usage() == 0,
            final(self).pool == old(self).pool,
            final(self).min_length == old(self).min_length,
            final(self).max_length == old(self).max_length,
    {
        self.random.advance_rows(row_count)
    }
}


/// The byte at position `idx` of the 64-character alphanumeric alphabet:
/// a comma, the upper-case letters descending, a space, the lower-case
/// letters descending, then the digits descending.
pub open spec fn alpha_byte(idx: nat) -> u8 {
    if idx == 0 {
        44u8  // ','
    } else if idx <= 26 {
        (91 - idx) as u8  // 'Z' down to 'A'
    } else if idx == 27 {
        32u8  // ' '
    } else if idx <= 53 {
        (150 - idx) as u8  // 'z' down to 'a'
    } else if idx <= 63 {
        (111 - idx) as u8  // '9' down to '0'
    } else {
        0u8
    }
}

/// `64^p` for the five character positions packed into one draw.
pub open spec fn pow64(p: nat) -> nat {
    if p == 0 {
        1
    } else if p == 1 {
        64
    } else if p == 2 {
        4096
    } else if p == 3 {
        262144
    } else {
        16777216
    }
}

/// The packed character value of a draw: the drawn state minus one, holding
/// five base-64 digits, least significant first.
pub open spec fn packed_chars(v: nat) -> nat {
    if v == 0 {
        0
    } else {
        (v - 1) as nat
    }
}

/// The alphabet index of character `i` of an alphanumeric row whose draws
/// start from row state `rs`: character `i` lives in draw group `i / 5` (the
/// group draws follow the length draw) at base-64 position `i % 5`.
#[verifier::opaque]
pub open spec fn alnum_index_at(rs: nat, i: nat) -> nat {
    (packed_chars(lcg_advance(rs, i / 5 + 2)) / pow64(i % 5)) % 64
}

/// An alphanumeric string produced for one row, as ASCII bytes.
#[derive(Debug, Clone)]
pub struct RandomAlphaNumericInstance {
    /// The ASCII bytes of the string.
    pub bytes: Vec<u8>,
}

/// An alphanumeric string column: each row draws a length, then one draw per
/// five characters; each draw packs five base-64 alphabet indices.
pub struct RandomAlphaNumeric {
    /// The underlying generator: one length draw plus one draw per five
    /// characters of the largest length.
    pub random: RowRandomInt,
    /// Smallest string length.
    pub min_length: u64,
    /// Largest string length.
    pub max_length: u64,
}

impl RandomAlphaNumeric {
    /// The underlying generator is sound and budgets one draw for the length
    /// plus one per five characters of the largest length.
    pub open spec fn wf(self) -> bool {
        &&& self.random.wf()
        &&& self.min_length <= self.max_length
        &&& self.max_length < 2147483647
        &&& self.random.spec_per_row() == 1 + (self.max_length + 4) / 5
    }

    /// The length drawn at logical row `n`.
    pub open spec fn spec_row_length(self, n: nat) -> int {
        bounded_value(
            lcg_step(row_start_seed(self.random.spec_base(), self.random.spec_per_row(), n)),
            self.min_length as int,
            self.max_length as int,
        )
    }

    /// Creates the column at logical row `0` with lengths scaled around
    /// `average_length` (two fifths to eight fifths of it).
    pub fn new(seed: u64, average_length: u32) -> (r: Self)
        requires
            seed < 2147483647,
            average_length < 0x1000_0000,
        ensures
            r.wf(),
            r.random.spec_base() == seed,
            r.random.spec_rows() == 0,
            r.random.spec_usage() == 0,
            r.min_length == average_length as int * 2 / 5,
            r.max_length == average_length as int * 8 / 5,
    {
        let min_length = (average_length as u64) * 2 / 5;
        let max_length = (average_length as u64) * 8 / 5;
        proof {
            vstd::arithmetic::div_mod::lemma_div_is_ordered(
                average_length as int * 2,
                average_length as int * 8,
                5,
            );
        }
        RandomAlphaNumeric {
            random: RowRandomInt::new(seed, 1 + (max_length + 4) / 5),
            min_length,
            max_length,
        }
    }

    /// The string of the current row.  Must be called at most once per row.
    #[verifier::rlimit(100)]
    pub fn next_value(&mut self) -> (r: RandomAlphaNumericInstance)
        requires
            old(self).wf(),
            old(self).random.spec_usage() == 0,
        ensures
            final(self).wf(),
            r.bytes@.len() == old(self).spec_row_length(old(self).random.spec_rows()),
            forall|i: int|
                0 <= i < r.bytes@.len() ==> #[trigger] r.bytes@[i] == alpha_byte(
                    alnum_index_at(
                        row_start_seed(
                            old(self).random.spec_base(),
                            old(self).random.spec_per_row(),
                            old(self).random.spec_rows(),
                        ),
                        i as nat,
                    ),
                ),
            final(self).random.spec_base() == old(self).random.spec_base(),
            final(self).random.spec_rows() == old(self).random.spec_rows(),
            final(self).min_length == old(self).min_length,
            final(self).max_length == old(self).max_length,
    {
        let ghost base = self.random.spec_base();
        let ghost n = self.random.spec_rows();
        let ghost per_row = self.random.spec_per_row();
        let ghost rs = row_start_seed(base, per_row, n);
        proof {
            reveal(RowRandomInt::wf);
        }
        let len = self.random.next_long(self.min_length as i64, self.max_length as i64) as u64;
        // Draw the packed character groups for this length.
        let group_count = (len + 4) / 5;
        let mut groups: Vec<u64> = Vec::new();
        let mut g: u64 = 0;
        while g < group_count
            invariant
                self.wf(),
                g <= group_count,
                groups@.len() == g,
                group_count == (len + 4) / 5,
                len <= self.max_length,
                self.min_length == old(self).min_length,
                self.max_length == old(self).max_length,
                self.random.spec_base() == base,
                self.random.spec_rows() == n,
                self.random.spec_per_row() == per_row,
                per_row == 1 + (self.max_length + 4) / 5,
                rs == row_start_seed(base, per_row, n),
                self.random.spec_usage() == 1 + g,
                forall|j: int|
                    0 <= j < g ==> #[trigger] groups@[j] == packed_chars(
                        lcg_advance(rs, j as nat + 2),
                    ),
            decreases group_count - g,
        {
            proof {
                reveal(RowRandomInt::wf);
                vstd::arithmetic::div_mod::lemma_div_is_ordered(
                    len as int + 4,
                    self.max_length as int + 4,
                    5,
                );
                lemma_lcg_advance_add(base, n * per_row, 1 + g as nat);
            }
            let v = self.random.next_rand();
            proof {
                assert(self.random.spec_seed() == lcg_advance(rs, g as nat + 2));
            }
            let packed = if v == 0 {
                0
            } else {
                v - 1
            };
            groups.push(packed);
            g = g + 1;
        }
        // Unpack the base-64 alphabet indices, five per group.
        let mut bytes: Vec<u8> = Vec::new();
        let mut i: u64 = 0;
        while i < len
            invariant
                i <= len,
                bytes@.len() == i,
                group_count == (len + 4) / 5,
                groups@.len() == group_count,
                forall|j: int|
                    0 <= j < group_count ==> #[trigger] groups@[j] == packed_chars(
                        lcg_advance(rs, j as nat + 2),
                    ),
                forall|j: int|
                    0 <= j < i ==> #[trigger] bytes@[j] == alpha_byte(
                        alnum_index_at(rs, j as nat),
                    ),
            decreases len - i,
        {
            proof {
                assert(i + 5 <= len + 4);
                vstd::arithmetic::div_mod::lemma_div_is_ordered(i as int + 5, len as int + 4, 5);
                assert((i + 5) / 5 == i / 5 + 1);
            }
            let group = groups[(i / 5) as usize];
            let idx = (group / pow64_exec(i % 5)) % 64;
            proof {
                reveal(alnum_index_at);
                assert(group == packed_chars(lcg_advance(rs, i as nat / 5 + 2)));
                assert(idx == alnum_index_at(rs, i as nat));
            }
            bytes.push(alpha_byte_exec(idx));
            i = i + 1;
        }
        RandomAlphaNumericInstance { bytes }
    }

    /// Finishes the current row.
    pub fn row_finished(&mut self)
        requires
            old(self).wf(),
        ensures
            final(self).wf(),
            final(self).random.spec_base() == old(self).random.spec_base(),
            final(self).random.spec_rows() == old(self).random.spec_rows() + 1,
            final(self).random.spec_usage() == 0,
            final(self).min_length == old(self).min_length,
            final(self).max_length == old(self).max_length,
    {
        self.random.row_finished()
    }

    /// Jumps forward `row_count` logical rows.
    pub fn advance_rows(&mut self, row_count: u64)
        requires
            old(self).wf(),
            old(self).random.spec_usage() == 0,
            old(self).random.spec_per_row() * row_count as nat <= u64::MAX,
        ensures
            final(self).wf(),
            final(self).random.spec_base() == old(self).random.spec_base(),
            final(self).random.spec_rows() == old(self).random.spec_rows() + row_count,
            final(self).random.spec_usage() == 0,
            final(self).min_length == old(self).min_length,
            final(self).max_length == old(self).max_length,
    {
        self.random.advance_rows(row_count)
    }
}

/// `64^p` for the five character positions, executable form.
fn pow64_exec(p: u64) -> (r: u64)
    requires
        p < 5,
    ensures
        r == pow64(p as nat),
        r >= 1,
{
    if p == 0 {
        1
    } else if p == 1 {
        64
    } else if p == 2 {
        4096
    } else if p == 3 {
        262144
    } else {
        16777216
    }
}

/// The alphabet byte for index `idx`, executable form.
fn alpha_byte_exec(idx: u64) -> (r: u8)
    requires
        idx < 64,
    ensures
        r == alpha_byte(idx as nat),
{
    if idx == 0 {
        44
    } else if idx <= 26 {
        (91 - idx) as u8
    } else if idx == 27 {
        32
    } else if idx <= 53 {
        (150 - idx) as u8
    } else {
        (111 - idx) as u8
    }
}

/// A phone number produced for one row.
#[derive(Debug, Clone, Copy, PartialEq, Eq, Structural)]
pub struct PhoneNumberInstance {
    /// Two-digit country code: ten plus the nation key.
    pub country_code: i64,
    /// First three-digit group.
    pub local1: i32,
    /// Second three-digit group.
    pub local2: i32,
    /// Four-digit group.
    pub local3: i32,
}

/// A phone-number column: three draws per row, one per number group; the
/// country code comes from the row's nation key, not from a draw.
pub struct RandomPhoneNumber {
    /// The underlying generator, three draws per row.
    pub random: RowRandomInt,
}

impl RandomPhoneNumber {
    /// The underlying generator is sound and consumes three draws per row.
    pub open spec fn wf(self) -> bool {
        &&& self.random.wf()
        &&& self.random.spec_per_row() == 3
    }

    /// The three number groups drawn at logical row `n`.
    pub open spec fn spec_row_groups(self, n: nat) -> (int, int, int) {
        let s1 = lcg_step(row_start_seed(self.random.spec_base(), 3, n));
        let s2 = lcg_step(s1);
        let s3 = lcg_step(s2);
        (bounded_value(s1, 100, 999), bounded_value(s2, 100, 999), bounded_value(s3, 1000, 9999))
    }

    /// Creates the column at logical row `0`.
    pub fn new(seed: u64) -> (r: Self)
        requires
            seed < 2147483647,
        ensures
            r.wf(),
            r.random.spec_base() == seed,
            r.random.spec_rows() == 0,
            r.random.spec_usage() == 0,
    {
        RandomPhoneNumber { random: RowRandomInt::new(seed, 3) }
    }

    /// The phone number of the current row for a nation key.  Must be called
    /// at most once per row.
    pub fn next_value(&mut self, nation_key: i64) -> (r: PhoneNumberInstance)
        requires
            old(self).wf(),
            old(self).random.spec_usage() == 0,
            0 <= nation_key <= 0xFFFF_FFFF,
        ensures
            final(self).wf(),
            r.country_code == 10 + nation_key,
            ({
                let (g1, g2, g3) = old(self).spec_row_groups(old(self).random.spec_rows());
                r.local1 == g1 && r.local2 == g2 && r.local3 == g3
            }),
            100 <= r.local1 <= 999,
            100 <= r.local2 <= 999,
            1000 <= r.local3 <= 9999,
            final(self).random.spec_base() == old(self).random.spec_base(),
            final(self).random.spec_rows() == old(self).random.spec_rows(),
    {
        proof {
            reveal(RowRandomInt::wf);
        }
        let local1 = self.random.next_int(100, 999);
        let local2 = self.random.next_int(100, 999);
        let local3 = self.random.next_int(1000, 9999);
        PhoneNumberInstance { country_code: 10 + nation_key, local1, local2, local3 }
    }

    /// Finishes the current row.
    pub fn row_finished(&mut self)
        requires
            old(self).wf(),
        ensures
            final(self).wf(),
            final(self).random.spec_base() == old(self).random.spec_base(),
            final(self).random.spec_rows() == old(self).random.spec_rows() + 1,
            final(self).random.spec_usage() == 0,
    {
        self.random.row_finished()
    }

    /// Jumps forward `row_count` logical rows.
    pub fn advance_rows(&mut self, row_count: u64)
        requires
            old(self).wf(),
            old(self).random.spec_usage() == 0,
            old(self).random.spec_per_row() * row_count as nat <= u64::MAX,
        ensures
            final(self).wf(),
            final(self).random.spec_base() == old(self).random.spec_base(),
            final(self).random.spec_rows() == old(self).random.spec_rows() + row_count,
            final(self).random.spec_usage() == 0,
    {
        self.random.advance_rows(row_count)
    }
}


/// Whether `b` is a byte of the alphanumeric alphabet.
pub open spec fn is_alpha_byte(b: u8) -> bool {
    b == 32 || b == 44 || (48 <= b <= 57) || (65 <= b <= 90) || (97 <= b <= 122)
}

/// The character printed for an alphanumeric byte; bytes outside the
/// alphabet (which generated strings never hold) print as a question mark.
pub open spec fn alpha_display_char(b: u8) -> char {
    if is_alpha_byte(b) {
        b as char
    } else {
        '?'
    }
}

/// The printed characters of an alphanumeric byte string.
pub open spec fn alpha_display_chars(bs: Seq<u8>) -> Seq<char> {
    Seq::new(bs.len(), |i: int| alpha_display_char(bs[i]))
}

/// Every alphabet index yields an alphabet byte.
pub proof fn lemma_alpha_byte_in_alphabet(idx: nat)
    requires
        idx < 64,
    ensures
        is_alpha_byte(alpha_byte(idx)),
{
}

/// The one-character string for an alphanumeric byte.
fn alpha_char_str(b: u8) -> (r: &'static str)
    ensures
        r@ =~= seq![alpha_display_char(b)],
{
    proof {
        reveal_strlit(",");
        reveal_strlit("Z");
        reveal_strlit("Y");
        reveal_strlit("X");
        reveal_strlit("W");
        reveal_strlit("V");
        reveal_strlit("U");
        reveal_strlit("T");
        reveal_strlit("S");
        reveal_strlit("R");
        reveal_strlit("Q");
        reveal_strlit("P");
        reveal_strlit("O");
        reveal_strlit("N");
        reveal_strlit("M");
        reveal_strlit("L");
        reveal_strlit("K");
        reveal_strlit("J");
        reveal_strlit("I");
        reveal_strlit("H");
        reveal_strlit("G");
        reveal_strlit("F");
        reveal_strlit("E");
        reveal_strlit("D");
        reveal_strlit("C");
        reveal_strlit("B");
        reveal_strlit("A");
        reveal_strlit(" ");
        reveal_strlit("z");
        reveal_strlit("y");
        reveal_strlit("x");
        reveal_strlit("w");
        reveal_strlit("v");
        reveal_strlit("u");
        reveal_strlit("t");
        reveal_strlit("s");
        reveal_strlit("r");
        reveal_strlit("q");
        reveal_strlit("p");
        reveal_strlit("o");
        reveal_strlit("n");
        reveal_strlit("m");
        reveal_strlit("l");
        reveal_strlit("k");
        reveal_strlit("j");
        reveal_strlit("i");
        reveal_strlit("h");
        reveal_strlit("g");
        reveal_strlit("f");
        reveal_strlit("e");
        reveal_strlit("d");
        reveal_strlit("c");
        reveal_strlit("b");
        reveal_strlit("a");
        reveal_strlit("9");
        reveal_strlit("8");
        reveal_strlit("7");
        reveal_strlit("6");
        reveal_strlit("5");
        reveal_strlit("4");
        reveal_strlit("3");
        reveal_strlit("2");
        reveal_strlit("1");
        reveal_strlit("0");
        reveal_strlit("?");
    }
    if b == 0 {
        "?"
    } else if b == 44 {
        ","
    } else if b == 90 {
        "Z"
    } else if b == 89 {
        "Y"
    } else if b == 88 {
        "X"
    } else if b == 87 {
        "W"
    } else if b == 86 {
        "V"
    } else if b == 85 {
        "U"
    } else if b == 84 {
        "T"
    } else if b == 83 {
        "S"
    } else if b == 82 {
        "R"
    } else if b == 81 {
        "Q"
    } else if b == 80 {
        "P"
    } else if b == 79 {
        "O"
    } else if b == 78 {
        "N"
    } else if b == 77 {
        "M"
    } else if b == 76 {
        "L"
    } else if b == 75 {
        "K"
    } else if b == 74 {
        "J"
    } else if b == 73 {
        "I"
    } else if b == 72 {
        "H"
    } else if b == 71 {
        "G"
    } else if b == 70 {
        "F"
    } else if b == 69 {
        "E"
    } else if b == 68 {
        "D"
    } else if b == 67 {
        "C"
    } else if b == 66 {
        "B"
    } else if b == 65 {
        "A"
    } else if b == 32 {
        " "
    } else if b == 122 {
        "z"
    } else if b == 121 {
        "y"
    } else if b == 120 {
        "x"
    } else if b == 119 {
        "w"
    } else if b == 118 {
        "v"
    } else if b == 117 {
        "u"
    } else if b == 116 {
        "t"
    } else if b == 115 {
        "s"
    } else if b == 114 {
        "r"
    } else if b == 113 {
        "q"
    } else if b == 112 {
        "p"
    } else if b == 111 {
        "o"
    } else if b == 110 {
        "n"
    } else if b == 109 {
        "m"
    } else if b == 108 {
        "l"
    } else if b == 107 {
        "k"
    } else if b == 106 {
        "j"
    } else if b == 105 {
        "i"
    } else if b == 104 {
        "h"
    } else if b == 103 {
        "g"
    } else if b == 102 {
        "f"
    } else if b == 101 {
        "e"
    } else if b == 100 {
        "d"
    } else if b == 99 {
        "c"
    } else if b == 98 {
        "b"
    } else if b == 97 {
        "a"
    } else if b == 57 {
        "9"
    } else if b == 56 {
        "8"
    } else if b == 55 {
        "7"
    } else if b == 54 {
        "6"
    } else if b == 53 {
        "5"
    } else if b == 52 {
        "4"
    } else if b == 51 {
        "3"
    } else if b == 50 {
        "2"
    } else if b == 49 {
        "1"
    } else if b == 48 {
        "0"
    } else {
        "?"
    }
}

impl RandomAlphaNumericInstance {
    /// The string printed for this value.
    pub fn to_tbl_string(&self) -> (r: String)
        ensures
            r@ == alpha_display_chars(self.bytes@),
    {
        let mut out = String::new();
        let mut i: usize = 0;
        while i < self.bytes.len()
            invariant
                i <= self.bytes@.len(),
                out@.len() == i,
                forall|j: int| 0 <= j < i ==> #[trigger] out@[j] == alpha_display_char(
                    self.bytes@[j],
                ),
            decreases self.bytes@.len() - i,
        {
            out.append(alpha_char_str(self.bytes[i]));
            i = i + 1;
        }
        proof {
            assert(out@ =~= alpha_display_chars(self.bytes@));
        }
        out
    }
}

/// The printed characters of a phone number: a two-digit country code and
/// three zero-padded local groups, dash-separated.
pub open spec fn spec_phone_chars(country: nat, g1: nat, g2: nat, g3: nat) -> Seq<char> {
    crate::fmt::spec_padded(country, 2) + seq!['-'] + crate::fmt::spec_padded(g1, 3) + seq!['-']
        + crate::fmt::spec_padded(g2, 3) + seq!['-'] + crate::fmt::spec_padded(g3, 4)
}

impl PhoneNumberInstance {
    /// The string printed for this value.
    pub fn to_tbl_string(&self) -> (r: String)
        requires
            0 <= self.country_code,
            0 <= self.local1,
            0 <= self.local2,
            0 <= self.local3,
        ensures
            r@ == spec_phone_chars(
                self.country_code as nat,
                self.local1 as nat,
                self.local2 as nat,
                self.local3 as nat,
            ),
    {
        let mut out = String::new();
        crate::fmt::push_padded(&mut out, self.country_code as u64, 2);
        out.append("-");
        crate::fmt::push_padded(&mut out, self.local1 as u64, 3);
        out.append("-");
        crate::fmt::push_padded(&mut out, self.local2 as u64, 3);
        out.append("-");
        crate::fmt::push_padded(&mut out, self.local3 as u64, 4);
        proof {
            reveal_strlit("-");
            assert(out@ =~= spec_phone_chars(
                self.country_code as nat,
                self.local1 as nat,
                self.local2 as nat,
                self.local3 as nat,
            ));
        }
        out
    }
}

} // verus!
