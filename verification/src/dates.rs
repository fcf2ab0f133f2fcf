//! The generation calendar, timestamps and partition arithmetic.
//!
//! Dates are drawn as day numbers in a fixed seven-year window; the encoded
//! value `92001` is the first generated day and maps to 1992-01-01, with each
//! following value one civil day later.  A timestamp joins such a day with a
//! time of day drawn by [`RandomTimeOfDay`].  [`GenerateUtils`] holds the
//! arithmetic that slices a table's total row count into partitions; the
//! partitions tile the table ([`lemma_partition_tiling`]), cover every row
//! exactly once ([`lemma_concatenation_covers`],
//! [`lemma_concatenation_disjoint`]) and concatenate in absolute row order
//! ([`lemma_rows_before_is_start`]).

use crate::fmt::{push_padded, spec_padded};
use crate::random::{bounded_value, lcg_step, row_start_seed, RowRandomInt};
use rand::{Rng, SeedableRng};
use vstd::prelude::*;
use vstd::string::StringExecFns;

verus! {

/// The smallest encoded date value: 1992-01-01.
pub const MIN_GENERATE_DATE: u32 = 92001;

/// The number of generated days: seven calendar years, 1992 through 1998.
pub const TOTAL_DATE_RANGE: u32 = 2557;

/// Whether `year` is a leap year.
pub open spec fn is_leap_year(year: int) -> bool {
    year % 4 == 0 && (year % 100 != 0 || year % 400 == 0)
}

/// Days in `year`.
pub open spec fn days_in_year(year: int) -> int {
    if is_leap_year(year) {
        366
    } else {
        365
    }
}

/// Days in the years from 1992 up to, not including, `year`.
pub open spec fn days_before_year(year: int) -> int
    decreases year - 1992,
{
    if year <= 1992 {
        0
    } else {
        days_before_year(year - 1) + days_in_year(year - 1)
    }
}

/// Days in month `month` of `year` (months count from one).
pub open spec fn days_in_month(year: int, month: int) -> int {
    if month == 2 {
        if is_leap_year(year) {
            29
        } else {
            28
        }
    } else if month == 4 || month == 6 || month == 9 || month == 11 {
        30
    } else {
        31
    }
}

/// Days in the months of `year` before `month`.
pub open spec fn days_before_month(year: int, month: int) -> int
    decreases month,
{
    if month <= 1 {
        0
    } else {
        days_before_month(year, month - 1) + days_in_month(year, month - 1)
    }
}

/// Whether `(year, month, day)` is the civil date `offset` days after
/// 1992-01-01.
pub open spec fn civil_date_of_offset(offset: int, year: int, month: int, day: int) -> bool {
    &&& 1992 <= year <= 1998
    &&& 1 <= month <= 12
    &&& 1 <= day <= days_in_month(year, month)
    &&& offset == days_before_year(year) + days_before_month(year, month) + (day - 1)
}

/// Days in `year`, executable form.
fn days_in_year_exec(year: u32) -> (r: u32)
    ensures
        r == days_in_year(year as int),
{
    if year % 4 == 0 && (year % 100 != 0 || year % 400 == 0) {
        366
    } else {
        365
    }
}

/// Days in month `month` of `year`, executable form.
fn days_in_month_exec(year: u32, month: u32) -> (r: u32)
    ensures
        r == days_in_month(year as int, month as int),
{
    if month == 2 {
        if year % 4 == 0 && (year % 100 != 0 || year % 400 == 0) {
            29
        } else {
            28
        }
    } else if month == 4 || month == 6 || month == 9 || month == 11 {
        30
    } else {
        31
    }
}

/// The civil date `offset` days after 1992-01-01, as `(year, month, day)`.
pub fn civil_from_day_offset(offset: u32) -> (r: (u32, u32, u32))
    requires
        offset < TOTAL_DATE_RANGE,
    ensures
        civil_date_of_offset(offset as int, r.0 as int, r.1 as int, r.2 as int),
{
    let mut year: u32 = 1992;
    let mut rest: u32 = offset;
    let mut year_len = days_in_year_exec(year);
    while rest >= year_len && year < 1998
        invariant
            1992 <= year <= 1998,
            year_len == days_in_year(year as int),
            offset == days_before_year(year as int) + rest,
            offset < 2557,
        decreases 1998 - year,
    {
        rest = rest - year_len;
        year = year + 1;
        year_len = days_in_year_exec(year);
    }
    proof {
        // The seven-year window holds exactly 2557 days, so the scan stops
        // inside a year.
        reveal_with_fuel(days_before_year, 8);
        assert(days_before_year(1993) == 366);
        assert(days_before_year(1994) == 731);
        assert(days_before_year(1995) == 1096);
        assert(days_before_year(1996) == 1461);
        assert(days_before_year(1997) == 1827);
        assert(days_before_year(1998) == 2192);
        assert(rest < days_in_year(year as int));
    }
    let mut month: u32 = 1;
    let mut month_len = days_in_month_exec(year, month);
    while rest >= month_len && month < 12
        invariant
            1 <= month <= 12,
            1992 <= year <= 1998,
            month_len == days_in_month(year as int, month as int),
            offset == days_before_year(year as int) + days_before_month(year as int, month as int)
                + rest,
            rest < days_in_year(year as int) - days_before_month(year as int, month as int),
        decreases 12 - month,
    {
        rest = rest - month_len;
        month = month + 1;
        month_len = days_in_month_exec(year, month);
    }
    proof {
        // Month lengths sum to the year length, so the scan stops inside a
        // month.
        reveal_with_fuel(days_before_month, 13);
        if month == 12 {
            assert(days_before_month(year as int, 12) + days_in_month(year as int, 12)
                == days_in_year(year as int));
        }
        assert(rest < days_in_month(year as int, month as int));
    }
    (year, month, rest + 1)
}

/// A generated timestamp: an encoded day with a time of day.
#[derive(Debug, Clone, Copy, PartialEq, Eq, Structural)]
pub struct TPCHDate {
    /// The encoded day value, in the generated window.
    pub value: u32,
    /// Hour, below 24.
    pub hour: u8,
    /// Minute, below 60.
    pub minute: u8,
    /// Second, below 60.
    pub second: u8,
}

impl TPCHDate {
    /// The day lies in the generated window and the time fields are a valid
    /// time of day.
    pub open spec fn wf(self) -> bool {
        &&& MIN_GENERATE_DATE <= self.value < MIN_GENERATE_DATE + TOTAL_DATE_RANGE
        &&& self.hour < 24
        &&& self.minute < 60
        &&& self.second < 60
    }

    /// The timestamp in seconds relative to the window start, for ordering.
    pub open spec fn spec_total_seconds(self) -> int {
        ((self.value - MIN_GENERATE_DATE) * 86400) + (self.hour as int) * 3600 + (
        self.minute as int) * 60 + self.second as int
    }

    /// Builds a timestamp from an encoded day and time fields.
    pub fn new(value: u32, hour: u8, minute: u8, second: u8) -> (r: TPCHDate)
        requires
            MIN_GENERATE_DATE <= value < MIN_GENERATE_DATE + TOTAL_DATE_RANGE,
            hour < 24,
            minute < 60,
            second < 60,
        ensures
            r.wf(),
            r.value == value,
            r.hour == hour,
            r.minute == minute,
            r.second == second,
    {
        TPCHDate { value, hour, minute, second }
    }

    /// Builds a timestamp from an encoded day and an `(hour, minute, second)`
    /// triple.
    pub fn new_with_time(value: u32, time: (u8, u8, u8)) -> (r: TPCHDate)
        requires
            MIN_GENERATE_DATE <= value < MIN_GENERATE_DATE + TOTAL_DATE_RANGE,
            time.0 < 24,
            time.1 < 60,
            time.2 < 60,
        ensures
            r.wf(),
            r.value == value,
            r.hour == time.0,
            r.minute == time.1,
            r.second == time.2,
    {
        TPCHDate { value, hour: time.0, minute: time.1, second: time.2 }
    }

    /// Whether this timestamp is no later than `other`.
    pub fn le(&self, other: &TPCHDate) -> (r: bool)
        requires
            self.wf(),
            other.wf(),
        ensures
            r == (self.spec_total_seconds() <= other.spec_total_seconds()),
    {
        if self.value != other.value {
            self.value < other.value
        } else if self.hour != other.hour {
            self.hour < other.hour
        } else if self.minute != other.minute {
            self.minute < other.minute
        } else {
            self.second <= other.second
        }
    }

    /// Formats the timestamp as `YYYY-MM-DD HH:MM:SS` for the civil date of
    /// the encoded day.
    pub fn to_tbl_string(&self) -> (r: String)
        requires
            self.wf(),
        ensures
            exists|y: int, m: int, d: int|
                #[trigger] civil_date_of_offset((self.value - MIN_GENERATE_DATE) as int, y, m, d)
                    && r@
                    == spec_padded(y as nat, 4) + seq!['-'] + spec_padded(m as nat, 2)
                    + seq!['-'] + spec_padded(d as nat, 2) + seq![' '] + spec_padded(
                    self.hour as nat,
                    2,
                ) + seq![':'] + spec_padded(self.minute as nat, 2) + seq![':'] + spec_padded(
                    self.second as nat,
                    2,
                ),
    {
        let (y, m, d) = civil_from_day_offset(self.value - MIN_GENERATE_DATE);
        let mut out = String::new();
        push_padded(&mut out, y as u64, 4);
        out.append("-");
        push_padded(&mut out, m as u64, 2);
        out.append("-");
        push_padded(&mut out, d as u64, 2);
        out.append(" ");
        push_padded(&mut out, self.hour as u64, 2);
        out.append(":");
        push_padded(&mut out, self.minute as u64, 2);
        out.append(":");
        push_padded(&mut out, self.second as u64, 2);
        proof {
            reveal_strlit("-");
            reveal_strlit(" ");
            reveal_strlit(":");
            assert(out@ =~= spec_padded(y as nat, 4) + seq!['-'] + spec_padded(m as nat, 2)
                + seq!['-'] + spec_padded(d as nat, 2) + seq![' '] + spec_padded(self.hour as nat, 2)
                + seq![':'] + spec_padded(self.minute as nat, 2) + seq![':'] + spec_padded(
                self.second as nat,
                2,
            ));
        }
        out
    }
}

/// The time of day drawn for logical row `row` under `seed`: a pure function
/// of the seed and the row, computed by the outside stream cipher.
pub uninterp spec fn time_of_day_at(seed: u64, row: nat) -> (int, int, int);

/// Relies on rand_chacha's ChaCha12Rng: the stream for a seed is fixed on
/// every machine, `set_word_pos` addresses it in 32-bit words, and each
/// bounded draw takes one word, so the triple at word offset `3 * row` is a
/// pure function of `(seed, row)`.
#[verifier::external_body]
fn draw_time_of_day(seed: u64, row: u64) -> (r: (u8, u8, u8))
    ensures
        (r.0 as int, r.1 as int, r.2 as int) == time_of_day_at(seed, row as nat),
        r.0 < 24,
        r.1 < 60,
        r.2 < 60,
{
    let mut rng = rand_chacha::ChaCha12Rng::seed_from_u64(seed);
    rng.set_word_pos(row as u128 * 3);
    let hour: u8 = rng.gen_range(0..24);
    let minute: u8 = rng.gen_range(0..60);
    let second: u8 = rng.gen_range(0..60);
    (hour, minute, second)
}

/// A time-of-day column: each logical row's hour, minute and second are one
/// addressed triple of the seeded outside stream, so repositioning is a
/// constant-time word-offset jump, never a replay.
pub struct RandomTimeOfDay {
    /// The stream seed.
    pub seed: u64,
    /// The logical row the column is parked at.
    pub row: u64,
}

impl RandomTimeOfDay {
    /// The row cursor stays within the supported table size, leaving room to
    /// advance.
    pub open spec fn wf(self) -> bool {
        self.row <= 0x1000_0000_0000_0000
    }

    /// The `(hour, minute, second)` drawn at logical row `n`.
    pub open spec fn spec_row_time(self, n: nat) -> (int, int, int) {
        time_of_day_at(self.seed, n)
    }

    /// Creates the column at logical row `0`.
    pub fn new(seed: u64) -> (r: Self)
        ensures
            r.wf(),
            r.seed == seed,
            r.row == 0,
    {
        RandomTimeOfDay { seed, row: 0 }
    }

    /// The time of day of the current row.  Reading does not move the cursor.
    pub fn next_value(&self) -> (r: (u8, u8, u8))
        ensures
            r.0 < 24,
            r.1 < 60,
            r.2 < 60,
            ({
                let (h, m, s) = self.spec_row_time(self.row as nat);
                r.0 == h && r.1 == m && r.2 == s
            }),
    {
        draw_time_of_day(self.seed, self.row)
    }

    /// Finishes the current row.
    pub fn row_finished(&mut self)
        requires
            old(self).row < 0x1000_0000_0000_0000,
        ensures
            final(self).wf(),
            final(self).seed == old(self).seed,
            final(self).row == old(self).row + 1,
    {
        self.row = self.row + 1;
    }

    /// Jumps forward `row_count` logical rows.
    pub fn advance_rows(&mut self, row_count: u64)
        requires
            old(self).row + row_count <= 0x1000_0000_0000_0000,
        ensures
            final(self).wf(),
            final(self).seed == old(self).seed,
            final(self).row == old(self).row + row_count,
    {
        self.row = self.row + row_count;
    }
}

/// Partition arithmetic shared by every table generator.
pub struct GenerateUtils;

/// The first row index of partition `part` of `part_count` over
/// `total` rows: every partition gets `total / part_count` rows and the last
/// partition also takes the remainder.
pub open spec fn spec_start_index(total: nat, part: nat, part_count: nat) -> int {
    (part - 1) * (total / part_count)
}

/// The number of rows of partition `part`.
pub open spec fn spec_partition_row_count(total: nat, part: nat, part_count: nat) -> int {
    total / part_count + if part == part_count {
        (total % part_count) as int
    } else {
        0
    }
}

impl GenerateUtils {
    /// The number of rows of partition `part` of `part_count` over a table of
    /// `total_row_count` rows.
    pub fn calculate_row_count(total_row_count: u64, part: u32, part_count: u32) -> (r: u64)
        requires
            1 <= part <= part_count,
        ensures
            r == spec_partition_row_count(total_row_count as nat, part as nat, part_count as nat),
    {
        let base = total_row_count / (part_count as u64);
        proof {
            vstd::arithmetic::div_mod::lemma_fundamental_div_mod(
                total_row_count as int,
                part_count as int,
            );
            vstd::arithmetic::div_mod::lemma_div_pos_is_pos(
                total_row_count as int,
                part_count as int,
            );
            vstd::arithmetic::mul::lemma_mul_inequality(1, part_count as int, base as int);
        }
        if part == part_count {
            base + total_row_count % (part_count as u64)
        } else {
            base
        }
    }

    /// The first row index of partition `part` of `part_count` over a table
    /// of `total_row_count` rows.
    pub fn calculate_start_index(total_row_count: u64, part: u32, part_count: u32) -> (r: u64)
        requires
            1 <= part <= part_count,
        ensures
            r == spec_start_index(total_row_count as nat, part as nat, part_count as nat),
            r <= total_row_count,
    {
        let base = total_row_count / (part_count as u64);
        proof {
            lemma_start_in_bounds(total_row_count as nat, part as nat, part_count as nat);
        }
        (part as u64 - 1) * base
    }
}

/// A partition starts within the table.
proof fn lemma_start_in_bounds(total: nat, part: nat, part_count: nat)
    requires
        1 <= part <= part_count,
    ensures
        0 <= (part - 1) * (total as int / part_count as int) <= total,
{
    let q = total as int / part_count as int;
    vstd::arithmetic::div_mod::lemma_div_pos_is_pos(total as int, part_count as int);
    vstd::arithmetic::mul::lemma_mul_inequality(part - 1, part_count as int, q);
    vstd::arithmetic::mul::lemma_mul_is_commutative(part - 1, q);
    vstd::arithmetic::mul::lemma_mul_is_commutative(part_count as int, q);
    vstd::arithmetic::div_mod::lemma_fundamental_div_mod(total as int, part_count as int);
    vstd::arithmetic::mul::lemma_mul_nonnegative(part - 1, q);
    assert(part_count as int * q <= total) by {
        vstd::arithmetic::div_mod::lemma_remainder_lower(total as int, part_count as int);
    };
}

/// A partition lies within the table: its start and end offsets never pass
/// the total row count.
pub proof fn lemma_partition_within(total: nat, part: nat, part_count: nat)
    requires
        1 <= part <= part_count,
    ensures
        0 <= spec_start_index(total, part, part_count),
        spec_start_index(total, part, part_count) + spec_partition_row_count(
            total,
            part,
            part_count,
        ) <= total,
{
    let q = total as int / part_count as int;
    vstd::arithmetic::div_mod::lemma_div_pos_is_pos(total as int, part_count as int);
    vstd::arithmetic::mul::lemma_mul_nonnegative(part - 1, q);
    assert((part - 1) * q + q == part * q) by (nonlinear_arith);
    vstd::arithmetic::mul::lemma_mul_inequality(part as int, part_count as int, q);
    vstd::arithmetic::mul::lemma_mul_is_commutative(part as int, q);
    vstd::arithmetic::mul::lemma_mul_is_commutative(part_count as int, q);
    vstd::arithmetic::div_mod::lemma_fundamental_div_mod(total as int, part_count as int);
    vstd::arithmetic::div_mod::lemma_remainder_lower(total as int, part_count as int);
}

/// Partition tiling: the first partition starts at row zero, each partition
/// ends exactly where the next begins, and the last partition ends exactly at
/// the table's total row count.  The concatenation of all partitions in order
/// is therefore the whole table, with no gap and no overlap.
pub proof fn lemma_partition_tiling(total: nat, part: nat, part_count: nat)
    requires
        1 <= part <= part_count,
    ensures
        spec_start_index(total, 1, part_count) == 0,
        part < part_count ==> spec_start_index(total, part, part_count)
            + spec_partition_row_count(total, part, part_count) == spec_start_index(
            total,
            part + 1,
            part_count,
        ),
        spec_start_index(total, part_count, part_count) + spec_partition_row_count(
            total,
            part_count,
            part_count,
        ) == total,
{
    let q = total as int / part_count as int;
    assert((part - 1) * q + q == part * q) by (nonlinear_arith);
    assert((part_count - 1) * q + q == part_count as int * q) by (nonlinear_arith);
    vstd::arithmetic::div_mod::lemma_fundamental_div_mod(total as int, part_count as int);
}


/// Whether absolute row index `j` falls in partition `part` of `part_count`
/// over `total` rows.
pub open spec fn spec_in_partition(total: nat, part_count: nat, part: int, j: int) -> bool {
    &&& 1 <= part <= part_count
    &&& spec_start_index(total, part as nat, part_count) <= j
    &&& j < spec_start_index(total, part as nat, part_count) + spec_partition_row_count(
        total,
        part as nat,
        part_count,
    )
}

/// The rows held by the partitions before `part`.
pub open spec fn spec_rows_before(total: nat, part_count: nat, part: int) -> int
    decreases part,
{
    if part <= 1 {
        0
    } else {
        spec_rows_before(total, part_count, part - 1) + spec_partition_row_count(
            total,
            (part - 1) as nat,
            part_count,
        )
    }
}

/// A partition's start index is exactly the number of rows the earlier
/// partitions hold: a row's position in the concatenation of all partitions
/// equals its absolute row index, so the concatenation reads the table in
/// ascending row order.
pub proof fn lemma_rows_before_is_start(total: nat, part: nat, part_count: nat)
    requires
        1 <= part <= part_count,
    ensures
        spec_rows_before(total, part_count, part as int) == spec_start_index(
            total,
            part,
            part_count,
        ),
    decreases part,
{
    if part == 1 {
        lemma_partition_tiling(total, 1, part_count);
    } else {
        lemma_rows_before_is_start(total, (part - 1) as nat, part_count);
        lemma_partition_tiling(total, (part - 1) as nat, part_count);
    }
}

/// Every absolute row index lies in some partition: the concatenation of all
/// partitions covers the whole table.
pub proof fn lemma_concatenation_covers(total: nat, part_count: nat, j: int)
    requires
        part_count >= 1,
        0 <= j < total,
    ensures
        exists|p: int| #[trigger] spec_in_partition(total, part_count, p, j),
{
    let q = total as int / part_count as int;
    vstd::arithmetic::div_mod::lemma_fundamental_div_mod(total as int, part_count as int);
    vstd::arithmetic::div_mod::lemma_mod_bound(total as int, part_count as int);
    if q == 0 {
        // Every partition but the last is empty; the last holds the whole
        // table.
        let p = part_count as int;
        assert((p - 1) * 0 == 0) by (nonlinear_arith);
        assert(part_count as int * 0 == 0) by (nonlinear_arith);
        assert(spec_in_partition(total, part_count, p, j));
    } else {
        vstd::arithmetic::div_mod::lemma_fundamental_div_mod(j, q);
        vstd::arithmetic::div_mod::lemma_mod_bound(j, q);
        let p0 = j / q + 1;
        vstd::arithmetic::div_mod::lemma_div_pos_is_pos(j, q);
        if p0 <= part_count as int {
            // j lies in the full slice of partition p0.
            assert(q * (p0 - 1) == (p0 - 1) * q) by (nonlinear_arith);
            assert(spec_in_partition(total, part_count, p0, j));
        } else {
            // j lies in the remainder carried by the last partition.
            let p = part_count as int;
            assert(j / q >= p);
            vstd::arithmetic::mul::lemma_mul_inequality(p, j / q, q);
            assert(q * (j / q) == (j / q) * q) by (nonlinear_arith);
            assert(j >= p * q);
            vstd::arithmetic::mul::lemma_mul_inequality(p - 1, p, q);
            assert(q * p == p * q) by (nonlinear_arith);
            assert((p - 1) * q + q == p * q) by (nonlinear_arith);
            assert(spec_in_partition(total, part_count, p, j));
        }
    }
}

/// No absolute row index lies in two partitions: the partitions do not
/// overlap, so each row of the table appears exactly once in the
/// concatenation.
pub proof fn lemma_concatenation_disjoint(
    total: nat,
    part_count: nat,
    p1: int,
    p2: int,
    j: int,
)
    requires
        spec_in_partition(total, part_count, p1, j),
        spec_in_partition(total, part_count, p2, j),
    ensures
        p1 == p2,
{
    let q = total as int / part_count as int;
    vstd::arithmetic::div_mod::lemma_div_pos_is_pos(total as int, part_count as int);
    if p1 < p2 {
        lemma_partition_tiling(total, p1 as nat, part_count);
        vstd::arithmetic::mul::lemma_mul_inequality(p1, p2 - 1, q);
        assert(false);
    }
    if p2 < p1 {
        lemma_partition_tiling(total, p2 as nat, part_count);
        vstd::arithmetic::mul::lemma_mul_inequality(p2, p1 - 1, q);
        assert(false);
    }
}

} // verus!
