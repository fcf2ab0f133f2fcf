use spatialbench::distribution::{Distribution, Distributions, TextPool};
use spatialbench::generators::{
    BuildingGenerator, CustomerGenerator, DriverGenerator, DriverGeneratorIterator, TripGenerator,
    TripSpatialInput, VehicleGenerator, VehicleGeneratorIterator,
};
use spatialbench::geometry::{box_ring, close_ring, ring_is_closed, GeoPoint};
use spatialbench::spider::{
    spider_seed_for_index, DistributionParams, DistributionType, GeomType, SpatialDefaults,
    SpiderPresets,
};

fn nation_pool() -> Distribution {
    let names = [
        "ALGERIA", "ARGENTINA", "BRAZIL", "CANADA", "EGYPT", "ETHIOPIA", "FRANCE", "GERMANY",
        "INDIA", "INDONESIA", "IRAN", "IRAQ", "JAPAN", "JORDAN", "KENYA", "MOROCCO", "MOZAMBIQUE",
        "PERU", "CHINA", "ROMANIA", "SAUDI ARABIA", "VIETNAM", "RUSSIA", "UNITED KINGDOM",
        "UNITED STATES",
    ];
    let regions: [u64; 25] = [
        0, 1, 1, 1, 4, 0, 3, 3, 2, 2, 4, 4, 2, 4, 0, 0, 0, 1, 2, 3, 4, 2, 3, 3, 1,
    ];
    let values: Vec<String> = names.iter().map(|s| s.to_string()).collect();
    Distribution::new(values, regions.to_vec()).unwrap()
}

fn region_pool() -> Distribution {
    let names = ["AFRICA", "AMERICA", "ASIA", "EUROPE", "MIDDLE EAST"];
    let values: Vec<String> = names.iter().map(|s| s.to_string()).collect();
    Distribution::new(values, vec![1; 5]).unwrap()
}

fn color_pool() -> Distribution {
    let names = [
        "almond", "antique", "aquamarine", "azure", "beige", "bisque", "black", "blanched",
        "blue", "blush", "brown", "burlywood", "burnished", "chartreuse", "chiffon", "chocolate",
        "coral", "cornflower", "cornsilk", "cream", "cyan", "dark", "deep", "dim", "dodger",
        "drab", "firebrick", "floral", "forest", "frosted", "gainsboro", "ghost", "goldenrod",
        "green", "grey", "honeydew", "hot", "indian", "ivory", "khaki", "lace", "lavender",
        "lawn", "lemon", "light", "lime", "linen", "magenta", "maroon", "medium", "metallic",
        "midnight", "mint", "misty", "moccasin", "navajo", "navy", "olive", "orange", "orchid",
        "pale", "papaya", "peach", "peru", "pink", "plum", "powder", "puff", "purple", "red",
        "rose", "rosy", "royal", "saddle", "salmon", "sandy", "seashell", "sienna", "sky",
        "slate", "smoke", "snow", "spring", "steel", "tan", "thistle", "tomato", "turquoise",
        "violet", "wheat", "white", "yellow",
    ];
    let values: Vec<String> = names.iter().map(|s| s.to_string()).collect();
    let n = values.len();
    Distribution::new(values, vec![1; n]).unwrap()
}

fn type_pool() -> Distribution {
    let first = ["STANDARD", "SMALL", "MEDIUM", "LARGE", "ECONOMY", "PROMO"];
    let second = ["ANODIZED", "BURNISHED", "PLATED", "POLISHED", "BRUSHED"];
    let third = ["TIN", "NICKEL", "BRASS", "STEEL", "COPPER"];
    let mut values = Vec::new();
    for a in first {
        for b in second {
            for c in third {
                values.push(format!("{a} {b} {c}"));
            }
        }
    }
    let n = values.len();
    Distribution::new(values, vec![1; n]).unwrap()
}

fn container_pool() -> Distribution {
    let first = ["SM", "LG", "MED", "JUMBO", "WRAP"];
    let second = ["CASE", "BOX", "BAG", "JAR", "PKG", "PACK", "CAN", "DRUM"];
    let mut values = Vec::new();
    for a in first {
        for b in second {
            values.push(format!("{a} {b}"));
        }
    }
    let n = values.len();
    Distribution::new(values, vec![1; n]).unwrap()
}

fn segment_pool() -> Distribution {
    let names = ["AUTOMOBILE", "BUILDING", "FURNITURE", "MACHINERY", "HOUSEHOLD"];
    let values: Vec<String> = names.iter().map(|s| s.to_string()).collect();
    Distribution::new(values, vec![1; 5]).unwrap()
}

fn pools() -> Distributions {
    Distributions::new(
        nation_pool(),
        region_pool(),
        color_pool(),
        type_pool(),
        container_pool(),
        segment_pool(),
    )
    .unwrap()
}

fn corpus() -> TextPool {
    let text = "Carefully packed quartz boxes vex the lazy judge while five jumping wizards \
quickly braid hexes over the calm fjord at dusk and gnomes stack bright vats of amber syrup \
near the dock. "
        .repeat(2);
    TextPool::new(text).unwrap()
}

#[test]
fn test_vehicle_generation() {
    let generator = VehicleGenerator::new(1, 1, 1, pools(), corpus());
    let mut it = generator.iter().unwrap();
    let first = it.next().unwrap();
    assert_eq!(first.v_vehiclekey, 1);
    assert_eq!(first.v_mfgr.to_tbl_string(), "Manufacturer#1");
    assert_eq!(first.v_brand.to_tbl_string(), "Brand#13");
    assert_eq!(first.v_type, "PROMO BURNISHED COPPER");
    assert_eq!(first.v_license, "oxes vex the laz");
    assert_eq!(
        first.to_tbl_line(),
        "1|Manufacturer#1|Brand#13|PROMO BURNISHED COPPER|oxes vex the laz|"
    );
    assert!(it.next().is_none());
}

#[test]
fn test_driver_generation() {
    let generator = DriverGenerator::new(5, 1, 1, pools(), corpus());
    let mut it = generator.iter().unwrap();
    let mut drivers = Vec::new();
    while let Some(d) = it.next() {
        drivers.push(d);
    }
    assert_eq!(drivers.len(), 5);
    let first = &drivers[0];
    assert_eq!(first.d_driverkey, 1);
    assert_eq!(first.d_name.to_tbl_string(), "Driver#000000001");
    assert_eq!(first.d_nation, "PERU");
    assert_eq!(first.d_region, "AMERICA");
    assert_eq!(first.d_phone.country_code, 27);
    assert_eq!(first.d_phone.local1, 918);
    assert_eq!(first.d_phone.local2, 335);
    assert_eq!(first.d_phone.local3, 1736);
    assert_eq!(
        String::from_utf8(first.d_address.bytes.clone()).unwrap(),
        " N kD4on9OM Ipw3,gf0JBoQDd7tgrzrddZ"
    );
    assert_eq!(
        first.to_tbl_line(),
        "1|Driver#000000001| N kD4on9OM Ipw3,gf0JBoQDd7tgrzrddZ|AMERICA|PERU|27-918-335-1736|"
    );
    let second = &drivers[1];
    assert_eq!(
        String::from_utf8(second.d_address.bytes.clone()).unwrap(),
        "89eJ5ksX3ImxJQBvxObC,"
    );
}

#[test]
fn test_customer_generation() {
    let generator = CustomerGenerator::new(300, 1, 1, pools(), corpus());
    let mut it = generator.iter().unwrap();
    let mut customers = Vec::new();
    while let Some(c) = it.next() {
        customers.push(c);
    }
    assert_eq!(customers.len(), 300);
    let first = &customers[0];
    assert_eq!(first.c_custkey, 1);
    assert_eq!(first.c_name.to_tbl_string(), "Customer#000000001");
    assert_eq!(first.c_nation, "MOROCCO");
    assert_eq!(first.c_region, "AFRICA");
    assert_eq!(first.c_phone.country_code, 25);
    assert_eq!(first.c_phone.local1, 989);
    assert_eq!(first.c_phone.local2, 741);
    assert_eq!(first.c_phone.local3, 2988);
    assert!(!first.c_nation.is_empty());
    assert!(!first.c_region.is_empty());
    assert_eq!(
        first.to_tbl_line(),
        "1|Customer#000000001|IVhzIApeRb ot,c,E|AFRICA|MOROCCO|25-989-741-2988|"
    );
}

fn flat_spatial(d8: i64) -> TripSpatialInput {
    TripSpatialInput {
        distance_scaled: d8,
        pickup: GeoPoint { x: -168_046_875_000, y: -21_093_750_000 },
        dropoff: GeoPoint { x: -168_033_140_190, y: -21_091_593_430 },
    }
}

#[test]
fn test_trip_generation() {
    // Scale factor one hundredth with one partition: the second trip row is a
    // fixed regression fixture.
    let generator = TripGenerator::new(60_000, 1, 1, 300, 5, 1);
    let mut it = generator.iter();
    let first = it.next(&flat_spatial(0)).unwrap();
    assert_eq!(first.t_tripkey, 1);
    assert_eq!(first.t_custkey, 215);
    assert_eq!(first.t_vehiclekey, 1);
    assert_eq!(first.t_driverkey, 1);
    assert_eq!(first.t_pickuptime.to_tbl_string(), "1997-07-24 06:58:22");
    let second = it.next(&flat_spatial(1_390_500)).unwrap();
    assert_eq!(second.t_tripkey, 2);
    assert_eq!(second.t_custkey, 172);
    assert_eq!(second.t_driverkey, 1);
    assert_eq!(second.t_vehiclekey, 1);
    assert_eq!(second.t_pickuptime.to_tbl_string(), "1997-12-24 08:47:14");
    assert_eq!(second.t_dropofftime.to_tbl_string(), "1997-12-24 09:28:57");
    assert_eq!(second.t_fare.to_tbl_string(), "0.03");
    assert_eq!(second.t_tip.to_tbl_string(), "0.00");
    assert_eq!(second.t_totalamount.to_tbl_string(), "0.04");
    assert_eq!(second.t_distance.to_tbl_string(), "0.01");
    assert_eq!(second.t_pickuploc, flat_spatial(0).pickup);
    assert_eq!(second.t_dropoffloc, flat_spatial(0).dropoff);
    assert!(second.t_pickuptime.le(&second.t_dropofftime));
    let third = it.next(&flat_spatial(257_700)).unwrap();
    assert_eq!(third.t_tripkey, 3);
    assert_eq!(third.t_custkey, 46);
    assert_eq!(third.t_pickuptime.to_tbl_string(), "1993-06-27 13:27:07");
    assert_eq!(third.t_dropofftime.to_tbl_string(), "1993-06-27 13:34:51");
    assert_eq!(third.t_fare.to_tbl_string(), "0.00");
    assert_eq!(third.t_tip.to_tbl_string(), "0.00");
    assert_eq!(third.t_totalamount.to_tbl_string(), "0.00");
    assert_eq!(third.t_distance.to_tbl_string(), "0.00");
}

#[test]
fn test_trip_mortality() {
    // No generated customer key is divisible by three.
    let generator = TripGenerator::new(2_000, 1, 1, 300, 5, 1);
    let mut it = generator.iter();
    let mut produced = 0;
    while let Some(t) = it.next(&flat_spatial(250_000_000)) {
        assert!(t.t_custkey % 3 != 0, "row {} got {}", t.t_tripkey, t.t_custkey);
        assert!(1 <= t.t_custkey && t.t_custkey <= 300);
        produced += 1;
    }
    assert_eq!(produced, 2_000);
}

#[test]
fn test_select_driver_bounds() {
    for vehicle_key in 1..=60i64 {
        for trip_number in 0..12i64 {
            for driver_count in [1i64, 2, 3, 4, 7, 100] {
                let d = DriverGeneratorIterator::select_driver(
                    vehicle_key,
                    trip_number,
                    driver_count,
                );
                assert!(1 <= d && d <= driver_count);
            }
        }
    }
    assert_eq!(DriverGeneratorIterator::select_driver(1, 0, 1), 1);
    assert_eq!(DriverGeneratorIterator::select_driver(9, 2, 10), 4);
}

#[test]
fn test_partition_tiling_customers() {
    // Three partitions concatenate into exactly the single-partition run.
    let whole = CustomerGenerator::new(300, 1, 1, pools(), corpus());
    let mut it = whole.iter().unwrap();
    let mut single = Vec::new();
    while let Some(c) = it.next() {
        single.push(c);
    }
    let mut joined = Vec::new();
    for part in 1..=3u32 {
        let generator = CustomerGenerator::new(300, part, 3, pools(), corpus());
        let mut it = generator.iter().unwrap();
        while let Some(c) = it.next() {
            joined.push(c);
        }
    }
    assert_eq!(single.len(), joined.len());
    for (a, b) in single.iter().zip(joined.iter()) {
        assert_eq!(a.c_custkey, b.c_custkey);
        assert_eq!(a.c_nation, b.c_nation);
        assert_eq!(a.c_region, b.c_region);
        assert_eq!(a.c_phone.country_code, b.c_phone.country_code);
        assert_eq!(a.c_phone.local1, b.c_phone.local1);
        assert_eq!(a.c_phone.local2, b.c_phone.local2);
        assert_eq!(a.c_phone.local3, b.c_phone.local3);
        assert_eq!(a.c_address.bytes, b.c_address.bytes);
    }
}

#[test]
fn test_partition_tiling_trips() {
    let whole = TripGenerator::new(101, 1, 1, 300, 5, 1);
    let mut it = whole.iter();
    let mut single = Vec::new();
    while let Some(t) = it.next(&flat_spatial(777_000_000)) {
        single.push(t);
    }
    let mut joined = Vec::new();
    for part in 1..=4u32 {
        let generator = TripGenerator::new(101, part, 4, 300, 5, 1);
        let mut it = generator.iter();
        while let Some(t) = it.next(&flat_spatial(777_000_000)) {
            joined.push(t);
        }
    }
    assert_eq!(single.len(), 101);
    assert_eq!(joined.len(), 101);
    for (a, b) in single.iter().zip(joined.iter()) {
        assert_eq!(a.t_tripkey, b.t_tripkey);
        assert_eq!(a.t_custkey, b.t_custkey);
        assert_eq!(a.t_vehiclekey, b.t_vehiclekey);
        assert_eq!(a.t_driverkey, b.t_driverkey);
        assert_eq!(a.t_pickuptime.to_tbl_string(), b.t_pickuptime.to_tbl_string());
        assert_eq!(a.t_fare.0, b.t_fare.0);
    }
}

#[test]
fn test_building_generation() {
    let generator = BuildingGenerator::new(571, 1, 1, pools());
    let mut it = generator.iter().unwrap();
    let ring = box_ring(-53_955_537_739, -53_950_844_753, -4_603_649_450, -4_593_369_250);
    let first = it.next(ring.clone()).unwrap();
    assert_eq!(first.b_buildingkey, 1);
    assert_eq!(first.b_name.words.len(), 1);
    assert_eq!(first.b_name.words[0], "goldenrod");
    assert!(ring_is_closed(&first.b_boundary));
    assert_eq!(first.b_boundary.len(), 5);
    let second = it.next(ring).unwrap();
    assert_eq!(second.b_buildingkey, 2);
    assert_eq!(second.b_name.words[0], "blush");
}

#[test]
fn test_geometry_rings() {
    let ring = box_ring(0, 10, 0, 20);
    assert_eq!(ring.len(), 5);
    assert_eq!(ring[0], ring[4]);
    assert_eq!(ring[0].y, ring[1].y);
    assert_eq!(ring[1].x, ring[2].x);
    assert_eq!(ring[2].y, ring[3].y);
    assert_eq!(ring[3].x, ring[0].x);
    assert!(ring_is_closed(&ring));
    let open_vertices = vec![
        GeoPoint { x: 0, y: 0 },
        GeoPoint { x: 5, y: 1 },
        GeoPoint { x: 2, y: 7 },
    ];
    let closed = close_ring(open_vertices);
    assert_eq!(closed.len(), 4);
    assert_eq!(closed[0], closed[3]);
    assert!(ring_is_closed(&closed));
    assert!(!ring_is_closed(&vec![GeoPoint { x: 0, y: 0 }]));
}

#[test]
fn test_phone_formatting() {
    let mut column = spatialbench::random::RandomPhoneNumber::new(884434366);
    let phone = column.next_value(17);
    assert_eq!(phone.to_tbl_string(), "27-918-335-1736");
}

#[test]
fn test_spatial_configs() {
    let trip = SpatialDefaults::trip_default();
    assert!(matches!(trip.dist_type, DistributionType::Bit));
    assert!(matches!(trip.geom_type, GeomType::Point));
    assert_eq!(trip.seed, 56789);
    match trip.params {
        DistributionParams::Bit { probability, digits } => {
            assert_eq!(probability, 350_000_000);
            assert_eq!(digits, 30);
        },
        _ => panic!("expected bit parameters"),
    }
    let building = SpatialDefaults::building_default();
    assert!(matches!(building.dist_type, DistributionType::Sierpinski));
    assert_eq!(building.maxseg, 5);
    assert_eq!(building.polysize, 39_000);
    let preset = SpiderPresets::for_building_polygons();
    assert_eq!(preset.width, 50_000);
    assert_eq!(preset.height, 100_000);
    assert_eq!(preset.seed, 12345);
}

#[test]
fn test_spider_seed_hash() {
    assert_eq!(spider_seed_for_index(0, 0), 16294208416658607535);
    assert_eq!(spider_seed_for_index(1, 1234), 17974907880866844802);
    assert_eq!(spider_seed_for_index(2, 56789), 16284148116033724504);
    assert_eq!(spider_seed_for_index(7, 7), spider_seed_for_index(7, 7));
}

#[test]
fn test_vehicle_price() {
    assert_eq!(VehicleGeneratorIterator::calculate_vehicle_price(1), 90100);
    assert_eq!(
        VehicleGeneratorIterator::calculate_vehicle_price(10),
        90000 + 1 + 1000
    );
    let p = VehicleGeneratorIterator::calculate_vehicle_price(987_654);
    assert!(90000 <= p && p <= 209_900);
}
