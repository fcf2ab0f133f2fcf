//! Zone reference-table arithmetic.
//!
//! The zone rows themselves come from an external columnar store and never
//! pass through this crate; what belongs to the generator is the pure
//! arithmetic around them: which administrative subtypes a scale factor
//! includes, how many zones that yields, and how the zones split over
//! partitions by ceiling division.  The scale factor arrives as millionths,
//! an exact scaled-integer form.

use vstd::prelude::*;
use vstd::string::StringExecFns;

verus! {

/// The number of zones of each subtype in the reference store, in the order
/// the subtypes unlock: the first pair at any scale, two more from scale ten,
/// four more from scale one hundred, and the last from scale one thousand.
pub open spec fn spec_subtype_count(i: int) -> int {
    if i == 0 {
        74797  // microhood
    } else if i == 1 {
        42619  // macrohood
    } else if i == 2 {
        298615  // neighborhood
    } else if i == 3 {
        39680  // county
    } else if i == 4 {
        19007  // localadmin
    } else if i == 5 {
        555834  // locality
    } else if i == 6 {
        4714  // region
    } else if i == 7 {
        105  // dependency
    } else {
        378  // country
    }
}

/// How many subtypes a scale factor (in millionths) includes.
pub open spec fn spec_subtypes_included(scale_millionths: int) -> int {
    if scale_millionths >= 1_000_000_000 {
        9
    } else if scale_millionths >= 100_000_000 {
        8
    } else if scale_millionths >= 10_000_000 {
        4
    } else {
        2
    }
}

/// The total zones of the first `n` subtypes.
pub open spec fn spec_zone_sum(n: int) -> int
    decreases n,
{
    if n <= 0 {
        0
    } else {
        spec_zone_sum(n - 1) + spec_subtype_count(n - 1)
    }
}

/// The total zones for a scale factor in millionths: the included subtype
/// counts, scaled down proportionally (rounded up) below scale one.
pub open spec fn spec_total_zones(scale_millionths: int) -> int {
    let full = spec_zone_sum(spec_subtypes_included(scale_millionths));
    if scale_millionths < 1_000_000 {
        (full * scale_millionths + 999_999) / 1_000_000
    } else {
        full
    }
}

/// The name of the subtype at unlock position `i`.
pub open spec fn spec_subtype_name(i: int) -> Seq<char> {
    if i == 0 {
        "microhood"@
    } else if i == 1 {
        "macrohood"@
    } else if i == 2 {
        "neighborhood"@
    } else if i == 3 {
        "county"@
    } else if i == 4 {
        "localadmin"@
    } else if i == 5 {
        "locality"@
    } else if i == 6 {
        "region"@
    } else if i == 7 {
        "dependency"@
    } else {
        "country"@
    }
}

/// The administrative subtypes included at a scale factor given in
/// millionths, in unlock order: always beginning with the two smallest
/// subtypes, with each further tier appended at its threshold.  Any larger
/// scale factor's list therefore extends a smaller one's as a prefix.
pub fn get_zone_subtypes_for_scale(scale_millionths: u64) -> (r: Vec<String>)
    ensures
        r@.len() == spec_subtypes_included(scale_millionths as int),
        forall|i: int| 0 <= i < r@.len() ==> #[trigger] r@[i]@ == spec_subtype_name(i),
{
    let mut subtypes: Vec<String> = Vec::new();
    subtypes.push(String::from_str("microhood"));
    subtypes.push(String::from_str("macrohood"));
    if scale_millionths >= 10_000_000 {
        subtypes.push(String::from_str("neighborhood"));
        subtypes.push(String::from_str("county"));
    }
    if scale_millionths >= 100_000_000 {
        subtypes.push(String::from_str("localadmin"));
        subtypes.push(String::from_str("locality"));
        subtypes.push(String::from_str("region"));
        subtypes.push(String::from_str("dependency"));
    }
    if scale_millionths >= 1_000_000_000 {
        subtypes.push(String::from_str("country"));
    }
    subtypes
}

/// The total zones for a scale factor in millionths.
pub fn calculate_total_zones_for_scale(scale_millionths: u64) -> (r: u64)
    ensures
        r == spec_total_zones(scale_millionths as int),
        r <= 1_035_749,
{
    proof {
        reveal_with_fuel(spec_zone_sum, 10);
    }
    let full: u64 = if scale_millionths >= 1_000_000_000 {
        1_035_749
    } else if scale_millionths >= 100_000_000 {
        1_035_371
    } else if scale_millionths >= 10_000_000 {
        455_711
    } else {
        117_416
    };
    if scale_millionths < 1_000_000 {
        proof {
            assert(full == 117416);
            vstd::arithmetic::div_mod::lemma_div_is_ordered(
                (full * scale_millionths + 999_999) as int,
                117_416_999_999,
                1_000_000,
            );
            assert(117_416_999_999int / 1_000_000 == 117416);
        }
        (full * scale_millionths + 999_999) / 1_000_000
    } else {
        full
    }
}

/// Zones per partition: the total divided by the partition count, rounded up
/// so that the partitions cover every zone.
pub fn calculate_zones_per_part(total_zones: u64, part_count: u32) -> (r: u64)
    requires
        part_count >= 1,
        total_zones < 0x1000_0000_0000_0000,
    ensures
        r == (total_zones + part_count - 1) as int / part_count as int,
        r * part_count >= total_zones,
{
    proof {
        let t = total_zones as int;
        let p = part_count as int;
        let q = (t + p - 1) / p;
        vstd::arithmetic::div_mod::lemma_fundamental_div_mod(t + p - 1, p);
        vstd::arithmetic::div_mod::lemma_mod_bound(t + p - 1, p);
        assert(q * p == p * q) by (nonlinear_arith);
    }
    (total_zones + part_count as u64 - 1) / part_count as u64
}

/// The first zone index of a partition.
pub fn calculate_zone_offset(zones_per_part: u64, part: u32) -> (r: u64)
    requires
        part >= 1,
        zones_per_part * (part as int - 1) <= u64::MAX,
    ensures
        r == (part - 1) as int * zones_per_part,
{
    proof {
        assert((part as int - 1) * zones_per_part as int == zones_per_part as int * (part as int
            - 1)) by (nonlinear_arith);
    }
    (part as u64 - 1) * zones_per_part
}

/// The rows a zone partition holds for a given first index: a full slice,
/// clipped at the table's end and never negative.
pub open spec fn spec_zone_row_count(total: int, zones_per_part: int, offset: int) -> int {
    if offset >= total {
        0
    } else if total - offset < zones_per_part {
        total - offset
    } else {
        zones_per_part
    }
}

/// The rows a zone partition holds: a full slice, clipped at the table's end
/// and never negative.
pub fn calculate_zone_row_count(total_zones: u64, zones_per_part: u64, offset: u64) -> (r: u64)
    ensures
        r == spec_zone_row_count(total_zones as int, zones_per_part as int, offset as int),
{
    if offset >= total_zones {
        0
    } else if total_zones - offset < zones_per_part {
        total_zones - offset
    } else {
        zones_per_part
    }
}

/// The rows held by the first `part` zone partitions together.
pub open spec fn spec_zone_rows_up_to(total: int, zones_per_part: int, part: int) -> int
    decreases part,
{
    if part <= 0 {
        0
    } else {
        spec_zone_rows_up_to(total, zones_per_part, part - 1) + spec_zone_row_count(
            total,
            zones_per_part,
            (part - 1) * zones_per_part,
        )
    }
}

/// The first `part` zone partitions together hold every zone up to their
/// combined capacity.
proof fn lemma_zone_rows_up_to(total: int, zones_per_part: int, part: int)
    requires
        total >= 0,
        zones_per_part >= 1,
        part >= 0,
    ensures
        spec_zone_rows_up_to(total, zones_per_part, part) == (if part * zones_per_part < total {
            part * zones_per_part
        } else {
            total
        }),
    decreases part,
{
    if part > 0 {
        lemma_zone_rows_up_to(total, zones_per_part, part - 1);
        assert((part - 1) * zones_per_part + zones_per_part == part * zones_per_part)
            by (nonlinear_arith);
        assert((part - 1) * zones_per_part >= 0) by (nonlinear_arith)
            requires
                part >= 1,
                zones_per_part >= 1,
        ;
        let o = (part - 1) * zones_per_part;
        let prev = spec_zone_rows_up_to(total, zones_per_part, part - 1);
        assert(spec_zone_rows_up_to(total, zones_per_part, part) == prev + spec_zone_row_count(
            total,
            zones_per_part,
            o,
        ));
        if o >= total {
            assert(prev == total);
            assert(spec_zone_row_count(total, zones_per_part, o) == 0);
            assert(spec_zone_rows_up_to(total, zones_per_part, part) == total);
        } else if total - o < zones_per_part {
            assert(prev == o);
            assert(spec_zone_row_count(total, zones_per_part, o) == total - o);
            assert(spec_zone_rows_up_to(total, zones_per_part, part) == total);
        } else {
            assert(prev == o);
            assert(spec_zone_row_count(total, zones_per_part, o) == zones_per_part);
            assert(spec_zone_rows_up_to(total, zones_per_part, part) == part * zones_per_part);
        }
    } else {
        assert(part * zones_per_part == 0) by (nonlinear_arith)
            requires
                part == 0,
        ;
    }
}

/// Zone partition tiling: with the ceiling split covering the whole table,
/// the per-partition row counts at their offsets sum to exactly the total, so
/// the partitions tile the zones with no gap and no overlap.
pub proof fn lemma_zone_partition_tiling(total: int, zones_per_part: int, part_count: int)
    requires
        total >= 0,
        zones_per_part >= 1,
        part_count >= 1,
        zones_per_part * part_count >= total,
    ensures
        spec_zone_rows_up_to(total, zones_per_part, part_count) == total,
{
    lemma_zone_rows_up_to(total, zones_per_part, part_count);
    assert(part_count * zones_per_part == zones_per_part * part_count) by (nonlinear_arith);
}

} // verus!
