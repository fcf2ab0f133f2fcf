use spatialbench::zones::{
    calculate_total_zones_for_scale, calculate_zone_offset, calculate_zone_row_count,
    calculate_zones_per_part, get_zone_subtypes_for_scale,
};

#[test]
fn test_zone_subtype_prefix() {
    // A larger scale factor's subtype list extends a smaller one's.
    let scales = [0u64, 5_000_000, 50_000_000, 500_000_000, 2_000_000_000];
    for w in scales.windows(2) {
        let small = get_zone_subtypes_for_scale(w[0]);
        let large = get_zone_subtypes_for_scale(w[1]);
        assert!(small.len() <= large.len());
        assert_eq!(&large[..small.len()], &small[..]);
    }
}

#[test]
fn test_zone_subtype_filters() {
    // Scale five: only the two smallest subtypes.
    assert_eq!(get_zone_subtypes_for_scale(5_000_000), vec!["microhood", "macrohood"]);
    // Scale fifty: the neighborhood tier joins.
    assert_eq!(
        get_zone_subtypes_for_scale(50_000_000),
        vec!["microhood", "macrohood", "neighborhood", "county"]
    );
    // Scale five hundred: everything but countries.
    assert_eq!(
        get_zone_subtypes_for_scale(500_000_000),
        vec![
            "microhood",
            "macrohood",
            "neighborhood",
            "county",
            "localadmin",
            "locality",
            "region",
            "dependency"
        ]
    );
    // Scale two thousand: every subtype.
    assert_eq!(
        get_zone_subtypes_for_scale(2_000_000_000),
        vec![
            "microhood",
            "macrohood",
            "neighborhood",
            "county",
            "localadmin",
            "locality",
            "region",
            "dependency",
            "country"
        ]
    );
}

#[test]
fn test_zone_generation() {
    // Scale one thousandth keeps one thousandth of the smallest tier,
    // rounded up.
    assert_eq!(calculate_total_zones_for_scale(1_000), 118);
    assert_eq!(calculate_total_zones_for_scale(1_000_000), 117_416);
    assert_eq!(calculate_total_zones_for_scale(50_000_000), 455_711);
    assert_eq!(calculate_total_zones_for_scale(2_000_000_000), 1_035_749);
}

#[test]
fn test_zone_partitioning() {
    let total = calculate_total_zones_for_scale(1_000);
    let per_part = calculate_zones_per_part(total, 5);
    assert_eq!(per_part, 24);
    let mut covered = 0;
    for part in 1..=5u32 {
        let offset = calculate_zone_offset(per_part, part);
        assert_eq!(offset, (part as u64 - 1) * per_part);
        covered += calculate_zone_row_count(total, per_part, offset);
    }
    assert_eq!(covered, total);
    // The clip at the table's end never goes negative.
    assert_eq!(calculate_zone_row_count(10, 4, 8), 2);
    assert_eq!(calculate_zone_row_count(10, 4, 12), 0);
}
