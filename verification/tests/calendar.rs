use spatialbench::dates::{civil_from_day_offset, GenerateUtils, TPCHDate};
use spatialbench::decimal::TPCHDecimal;
use spatialbench::generators::{CustomerName, DriverName, VehicleBrandName, VehicleManufacturerName};

#[test]
fn civil_dates() {
    assert_eq!(civil_from_day_offset(0), (1992, 1, 1));
    assert_eq!(civil_from_day_offset(59), (1992, 2, 29));
    assert_eq!(civil_from_day_offset(60), (1992, 3, 1));
    assert_eq!(civil_from_day_offset(366), (1993, 1, 1));
    assert_eq!(civil_from_day_offset(2184), (1997, 12, 24));
    assert_eq!(civil_from_day_offset(2556), (1998, 12, 31));
}

#[test]
fn timestamp_formatting() {
    let d = TPCHDate::new(94185, 8, 47, 14);
    assert_eq!(d.to_tbl_string(), "1997-12-24 08:47:14");
    let first = TPCHDate::new(92001, 0, 0, 0);
    assert_eq!(first.to_tbl_string(), "1992-01-01 00:00:00");
    let last = TPCHDate::new(94557, 23, 59, 59);
    assert_eq!(last.to_tbl_string(), "1998-12-31 23:59:59");
}

#[test]
fn timestamp_ordering() {
    let a = TPCHDate::new(94185, 8, 47, 14);
    let b = TPCHDate::new(94185, 9, 28, 57);
    let c = TPCHDate::new(94186, 0, 0, 0);
    assert!(a.le(&b));
    assert!(!b.le(&a));
    assert!(b.le(&c));
    assert!(a.le(&a));
}

#[test]
fn partition_arithmetic_tiles() {
    // Ten rows over three partitions: 3 + 3 + 4, back to back.
    let total = 10u64;
    assert_eq!(GenerateUtils::calculate_start_index(total, 1, 3), 0);
    assert_eq!(GenerateUtils::calculate_row_count(total, 1, 3), 3);
    assert_eq!(GenerateUtils::calculate_start_index(total, 2, 3), 3);
    assert_eq!(GenerateUtils::calculate_row_count(total, 2, 3), 3);
    assert_eq!(GenerateUtils::calculate_start_index(total, 3, 3), 6);
    assert_eq!(GenerateUtils::calculate_row_count(total, 3, 3), 4);
    // Every partition count tiles the table exactly.
    for parts in 1..=12u32 {
        let mut covered = 0u64;
        for p in 1..=parts {
            assert_eq!(GenerateUtils::calculate_start_index(total, p, parts), covered);
            covered += GenerateUtils::calculate_row_count(total, p, parts);
        }
        assert_eq!(covered, total);
    }
}

#[test]
fn decimal_formatting() {
    assert_eq!(TPCHDecimal(3).to_tbl_string(), "0.03");
    assert_eq!(TPCHDecimal(0).to_tbl_string(), "0.00");
    assert_eq!(TPCHDecimal(4).to_tbl_string(), "0.04");
    assert_eq!(TPCHDecimal(12345).to_tbl_string(), "123.45");
    assert_eq!(TPCHDecimal(100).to_tbl_string(), "1.00");
    assert_eq!(TPCHDecimal(-7).to_tbl_string(), "-0.07");
    assert_eq!(TPCHDecimal(-12300).to_tbl_string(), "-123.00");
}

#[test]
fn name_formatting() {
    assert_eq!(CustomerName::new(1).to_tbl_string(), "Customer#000000001");
    assert_eq!(DriverName::new(42).to_tbl_string(), "Driver#000000042");
    assert_eq!(VehicleManufacturerName::new(1).to_tbl_string(), "Manufacturer#1");
    assert_eq!(VehicleBrandName::new(13).to_tbl_string(), "Brand#13");
}
