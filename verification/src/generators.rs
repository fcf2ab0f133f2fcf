//! The per-table row generators.
//!
//! Each table generator slices its total row count into partitions
//! ([`crate::dates::GenerateUtils`]), pre-advances every pseudorandom column
//! to the partition's first row, and then yields one row per call.  Every
//! field of a row is a pure function of the table's seeds, the injected
//! reference pools and the row index, so partitions generated independently
//! concatenate into exactly the single-partition output.

use crate::dates::{
    spec_partition_row_count, spec_start_index, GenerateUtils, RandomTimeOfDay, TPCHDate,
    MIN_GENERATE_DATE, TOTAL_DATE_RANGE,
};
use crate::decimal::TPCHDecimal;
use crate::distribution::{pick_prop, Distribution, Distributions, TextPool};
use crate::fmt::{push_digits, push_padded, spec_digits, spec_padded};
use crate::geometry::{ring_closed, GeoPoint};
use crate::random::{
    sequence_word, text_row_range, PhoneNumberInstance, RandomAlphaNumeric,
    RandomAlphaNumericInstance, RandomBoundedInt, RandomBoundedLong, RandomPhoneNumber,
    RandomString, RandomStringSequence, RandomText, RowRandomInt, StringSequenceInstance,
};
use vstd::prelude::*;
use vstd::string::StringExecFns;

verus! {

/// Rows of the vehicle table per unit scale factor.
pub const VEHICLE_SCALE_BASE: u64 = 100;

/// Largest supported partition start index: keeps every column jump within
/// 64-bit arithmetic.
pub const MAX_START_INDEX: u64 = 0x0100_0000_0000_0000;

/// A vehicle manufacturer, printed as `Manufacturer#<n>`.
#[derive(Debug, Clone, Copy, PartialEq, Eq, Structural)]
pub struct VehicleManufacturerName(pub i32);

impl VehicleManufacturerName {
    /// Wraps a manufacturer number.
    pub fn new(value: i32) -> (r: Self)
        ensures
            r.0 == value,
    {
        VehicleManufacturerName(value)
    }

    /// Formats the name as `Manufacturer#<n>`.
    pub fn to_tbl_string(&self) -> (r: String)
        requires
            self.0 >= 0,
        ensures
            r@ == "Manufacturer#"@ + spec_digits(self.0 as nat),
    {
        let mut out = String::from_str("Manufacturer#");
        push_digits(&mut out, self.0 as u64);
        out
    }
}

/// A vehicle brand, printed as `Brand#<n>`.
#[derive(Debug, Clone, Copy, PartialEq, Eq, Structural)]
pub struct VehicleBrandName(pub i32);

impl VehicleBrandName {
    /// Wraps a brand number.
    pub fn new(value: i32) -> (r: Self)
        ensures
            r.0 == value,
    {
        VehicleBrandName(value)
    }

    /// Formats the name as `Brand#<n>`.
    pub fn to_tbl_string(&self) -> (r: String)
        requires
            self.0 >= 0,
        ensures
            r@ == "Brand#"@ + spec_digits(self.0 as nat),
    {
        let mut out = String::from_str("Brand#");
        push_digits(&mut out, self.0 as u64);
        out
    }
}

/// One row of the vehicle table.
#[derive(Debug, Clone)]
pub struct Vehicle {
    /// Primary key.
    pub v_vehiclekey: i64,
    /// Manufacturer.
    pub v_mfgr: VehicleManufacturerName,
    /// Brand: ten times the manufacturer number plus the brand draw.
    pub v_brand: VehicleBrandName,
    /// Vehicle type, from the type pool.
    pub v_type: String,
    /// License text, from the text corpus.
    pub v_license: String,
}

impl Vehicle {
    /// The row in the delimited text layout: key, manufacturer, brand, type
    /// and license, each followed by a separator.
    pub fn to_tbl_line(&self) -> (r: String)
        requires
            self.v_vehiclekey >= 0,
            self.v_mfgr.0 >= 0,
            self.v_brand.0 >= 0,
        ensures
            r@ == spec_digits(self.v_vehiclekey as nat) + seq!['|'] + "Manufacturer#"@
                + spec_digits(self.v_mfgr.0 as nat) + seq!['|'] + "Brand#"@ + spec_digits(
                self.v_brand.0 as nat,
            ) + seq!['|'] + self.v_type@ + seq!['|'] + self.v_license@ + seq!['|'],
    {
        let mut out = String::new();
        push_digits(&mut out, self.v_vehiclekey as u64);
        out.append("|");
        let mfgr = self.v_mfgr.to_tbl_string();
        out.append(mfgr.as_str());
        out.append("|");
        let brand = self.v_brand.to_tbl_string();
        out.append(brand.as_str());
        out.append("|");
        out.append(self.v_type.as_str());
        out.append("|");
        out.append(self.v_license.as_str());
        out.append("|");
        proof {
            reveal_strlit("|");
            assert(out@ =~= spec_digits(self.v_vehiclekey as nat) + seq!['|'] + "Manufacturer#"@
                + spec_digits(self.v_mfgr.0 as nat) + seq!['|'] + "Brand#"@ + spec_digits(
                self.v_brand.0 as nat,
            ) + seq!['|'] + self.v_type@ + seq!['|'] + self.v_license@ + seq!['|']);
        }
        out
    }
}

/// Generator for the vehicle table.
pub struct VehicleGenerator {
    /// Total rows of the table at the configured scale.
    pub total_row_count: u64,
    /// This partition, counted from one.
    pub part: u32,
    /// Number of partitions.
    pub part_count: u32,
    /// The reference pools.
    pub distributions: Distributions,
    /// The text corpus.
    pub text_pool: TextPool,
}

impl VehicleGenerator {
    /// Wraps the scale and pools for the vehicle table.
    pub fn new(
        total_row_count: u64,
        part: u32,
        part_count: u32,
        distributions: Distributions,
        text_pool: TextPool,
    ) -> (r: Self)
        requires
            1 <= part <= part_count,
            total_row_count <= MAX_START_INDEX,
            distributions.wf(),
            text_pool.wf(),
        ensures
            r.total_row_count == total_row_count,
            r.part == part,
            r.part_count == part_count,
            r.distributions == distributions,
            r.text_pool == text_pool,
            1 <= r.part <= r.part_count,
            r.total_row_count <= MAX_START_INDEX,
            r.distributions.wf(),
            r.text_pool.wf(),
    {
        VehicleGenerator { total_row_count, part, part_count, distributions, text_pool }
    }

    /// The number of rows this generator's partition holds.
    pub fn calculate_row_count(total_row_count: u64, part: u32, part_count: u32) -> (r: u64)
        requires
            1 <= part <= part_count,
        ensures
            r == spec_partition_row_count(total_row_count as nat, part as nat, part_count as nat),
    {
        GenerateUtils::calculate_row_count(total_row_count, part, part_count)
    }

    /// An iterator over this partition's rows.  Returns `None` exactly when
    /// the pools cannot drive the columns: a pool with a zero or oversized
    /// total weight, or a corpus no longer than the longest license text.
    pub fn iter(self) -> (r: Option<VehicleGeneratorIterator>)
        requires
            1 <= self.part <= self.part_count,
            self.total_row_count <= MAX_START_INDEX,
            self.distributions.wf(),
            self.text_pool.wf(),
        ensures
            r is Some ==> r.unwrap().wf() && r.unwrap().synced() && r.unwrap().start_index
                == spec_start_index(
                self.total_row_count as nat,
                self.part as nat,
                self.part_count as nat,
            ) && r.unwrap().row_count == spec_partition_row_count(
                self.total_row_count as nat,
                self.part as nat,
                self.part_count as nat,
            ) && r.unwrap().index == 0 && r.unwrap().type_random.distribution
                == self.distributions.part_types && r.unwrap().container_random.distribution
                == self.distributions.part_containers && r.unwrap().name_random.distribution
                == self.distributions.part_colors && r.unwrap().comment_random.pool
                == self.text_pool,
            (r is Some) <==> (5 <= self.distributions.part_colors.spec_size() <= 128 && 1
                <= self.distributions.part_types.spec_total_weight() < 2147483647 && 1
                <= self.distributions.part_containers.spec_total_weight() < 2147483647 && 22
                < self.text_pool.text@.len() < 2147483647),
    {
        let start_index = GenerateUtils::calculate_start_index(
            self.total_row_count,
            self.part,
            self.part_count,
        );
        let row_count = GenerateUtils::calculate_row_count(
            self.total_row_count,
            self.part,
            self.part_count,
        );
        proof {
            crate::dates::lemma_partition_within(
                self.total_row_count as nat,
                self.part as nat,
                self.part_count as nat,
            );
        }
        VehicleGeneratorIterator::new(self.distributions, self.text_pool, start_index, row_count)
    }
}

/// Iterator over one partition of the vehicle table.
pub struct VehicleGeneratorIterator {
    /// Name words column (drawn per row for stream stability; not printed).
    pub name_random: RandomStringSequence,
    /// Manufacturer number column.
    pub manufacturer_random: RandomBoundedInt,
    /// Brand number column.
    pub brand_random: RandomBoundedInt,
    /// Vehicle type column.
    pub type_random: RandomString,
    /// Size column (drawn per row for stream stability; not printed).
    pub size_random: RandomBoundedInt,
    /// Container column (drawn per row for stream stability; not printed).
    pub container_random: RandomString,
    /// License text column.
    pub comment_random: RandomText,
    /// First row index of the partition.
    pub start_index: u64,
    /// Rows in the partition.
    pub row_count: u64,
    /// Rows already produced.
    pub index: u64,
}

impl VehicleGeneratorIterator {
    /// The logical row every column is parked at.
    pub open spec fn spec_position(self) -> nat {
        self.name_random.random.spec_rows()
    }

    /// The columns are parked exactly at the next row to produce.
    pub open spec fn synced(self) -> bool {
        self.spec_position() == self.start_index + self.index
    }

    /// Every column is sound, between rows, parked at the same logical row
    /// with the fixed per-column seed and bounds.
    pub open spec fn wf(self) -> bool {
        &&& self.name_random.wf()
        &&& self.manufacturer_random.wf()
        &&& self.brand_random.wf()
        &&& self.type_random.wf()
        &&& self.size_random.wf()
        &&& self.container_random.wf()
        &&& self.comment_random.wf()
        &&& self.name_random.random.spec_base() == 709314158
        &&& self.name_random.count == 5
        &&& self.manufacturer_random.random.spec_base() == 1
        &&& self.manufacturer_random.low == 1 && self.manufacturer_random.high == 5
        &&& self.brand_random.random.spec_base() == 46831694
        &&& self.brand_random.low == 1 && self.brand_random.high == 5
        &&& self.type_random.random.spec_base() == 1841581359
        &&& self.size_random.random.spec_base() == 1193163244
        &&& self.size_random.low == 1 && self.size_random.high == 50
        &&& self.container_random.random.spec_base() == 727633698
        &&& self.comment_random.random.spec_base() == 804159733
        &&& self.comment_random.min_length == 5 && self.comment_random.max_length == 22
        &&& self.start_index + self.row_count <= MAX_START_INDEX
        &&& self.index <= self.row_count
        &&& self.manufacturer_random.random.spec_rows() == self.spec_position()
        &&& self.brand_random.random.spec_rows() == self.spec_position()
        &&& self.type_random.random.spec_rows() == self.spec_position()
        &&& self.size_random.random.spec_rows() == self.spec_position()
        &&& self.container_random.random.spec_rows() == self.spec_position()
        &&& self.comment_random.random.spec_rows() == self.spec_position()
        &&& self.name_random.random.spec_usage() == 0
        &&& self.manufacturer_random.random.spec_usage() == 0
        &&& self.brand_random.random.spec_usage() == 0
        &&& self.type_random.random.spec_usage() == 0
        &&& self.size_random.random.spec_usage() == 0
        &&& self.container_random.random.spec_usage() == 0
        &&& self.comment_random.random.spec_usage() == 0
    }

    /// Builds the iterator with every column advanced to `start_index`.
    /// Returns `None` exactly when a pool's total weight is zero or too
    /// large, or the corpus is no longer than the longest license text.
    pub fn new(
        distributions: Distributions,
        text_pool: TextPool,
        start_index: u64,
        row_count: u64,
    ) -> (r: Option<Self>)
        requires
            distributions.wf(),
            text_pool.wf(),
            start_index + row_count <= MAX_START_INDEX,
        ensures
            r is Some ==> r.unwrap().wf() && r.unwrap().synced() && r.unwrap().start_index
                == start_index && r.unwrap().row_count == row_count && r.unwrap().index == 0
                && r.unwrap().type_random.distribution == distributions.part_types
                && r.unwrap().container_random.distribution == distributions.part_containers
                && r.unwrap().name_random.distribution == distributions.part_colors
                && r.unwrap().comment_random.pool == text_pool,
            (r is Some) <==> (5 <= distributions.part_colors.spec_size() <= 128 && 1
                <= distributions.part_types.spec_total_weight() < 2147483647 && 1
                <= distributions.part_containers.spec_total_weight() < 2147483647 && 22
                < text_pool.text@.len() < 2147483647),
    {
        let name_random = RandomStringSequence::new(709314158, 5, distributions.part_colors);
        let mut name_random = match name_random {
            Some(c) => c,
            Option::None => {
                return Option::None;
            },
        };
        let mut manufacturer_random = RandomBoundedInt::new(1, 1, 5);
        let mut brand_random = RandomBoundedInt::new(46831694, 1, 5);
        let type_random = RandomString::new(1841581359, distributions.part_types);
        let mut type_random = match type_random {
            Some(c) => c,
            Option::None => {
                return Option::None;
            },
        };
        let mut size_random = RandomBoundedInt::new(1193163244, 1, 50);
        let container_random = RandomString::new(727633698, distributions.part_containers);
        let mut container_random = match container_random {
            Some(c) => c,
            Option::None => {
                return Option::None;
            },
        };
        let comment_random = RandomText::new(804159733, text_pool, 14);
        let mut comment_random = match comment_random {
            Some(c) => c,
            Option::None => {
                return Option::None;
            },
        };
        name_random.advance_rows(start_index);
        manufacturer_random.advance_rows(start_index);
        brand_random.advance_rows(start_index);
        type_random.advance_rows(start_index);
        size_random.advance_rows(start_index);
        container_random.advance_rows(start_index);
        comment_random.advance_rows(start_index);
        Some(
            VehicleGeneratorIterator {
                name_random,
                manufacturer_random,
                brand_random,
                type_random,
                size_random,
                container_random,
                comment_random,
                start_index,
                row_count,
                index: 0,
            },
        )
    }

    /// Builds the vehicle with the given key from the current row's draws
    /// and finishes the row on every column.
    pub fn make_vehicle(&mut self, vehicle_key: i64) -> (r: Vehicle)
        requires
            old(self).wf(),
        ensures
            r.v_vehiclekey == vehicle_key,
            ({
                let row = old(self).spec_position();
                let manufacturer = old(self).manufacturer_random.spec_row_value(row);
                &&& r.v_mfgr.0 == manufacturer
                &&& 1 <= manufacturer <= 5
                &&& r.v_brand.0 == manufacturer * 10 + old(self).brand_random.spec_row_value(row)
                &&& exists|i: int|
                    pick_prop(
                        old(self).type_random.distribution,
                        old(self).type_random.spec_row_weight(row) as u64,
                        i,
                    ) && r.v_type@ == old(self).type_random.distribution.values@[i]@
                &&& ({
                    let (offset, len) = text_row_range(
                        804159733,
                        row,
                        5,
                        22,
                        old(self).comment_random.pool.text@.len() as int,
                    );
                    r.v_license@ == old(self).comment_random.pool.text@.subrange(
                        offset,
                        offset + len,
                    )
                })
            }),
            final(self).wf(),
            final(self).spec_position() == old(self).spec_position() + 1,
            final(self).start_index == old(self).start_index,
            final(self).row_count == old(self).row_count,
            final(self).index == old(self).index,
            final(self).type_random.distribution == old(self).type_random.distribution,
            final(self).comment_random.pool == old(self).comment_random.pool,
    {
        let manufacturer = self.manufacturer_random.next_value();
        let brand = manufacturer * 10 + self.brand_random.next_value();
        let v_type = self.type_random.next_value();
        let v_license = self.comment_random.next_value();
        let v = Vehicle {
            v_vehiclekey: vehicle_key,
            v_mfgr: VehicleManufacturerName::new(manufacturer),
            v_brand: VehicleBrandName::new(brand),
            v_type,
            v_license,
        };
        self.name_random.row_finished();
        self.manufacturer_random.row_finished();
        self.brand_random.row_finished();
        self.type_random.row_finished();
        self.size_random.row_finished();
        self.container_random.row_finished();
        self.comment_random.row_finished();
        v
    }

    /// The price of a vehicle, derived from its key alone.
    pub fn calculate_vehicle_price(vehicle_key: i64) -> (r: i64)
        requires
            vehicle_key >= 0,
        ensures
            r == 90000 + (vehicle_key / 10) % 20001 + (vehicle_key % 1000) * 100,
            90000 <= r <= 209900,
    {
        let mut price: i64 = 90000;
        price = price + (vehicle_key / 10) % 20001;
        price = price + (vehicle_key % 1000) * 100;
        price
    }

    /// The next row of the partition, or `None` when it is exhausted.
    #[verifier::rlimit(100)]
    pub fn next(&mut self) -> (r: Option<Vehicle>)
        requires
            old(self).wf(),
            old(self).synced(),
        ensures
            final(self).wf(),
            final(self).synced(),
            (r is Some) <==> old(self).index < old(self).row_count,
            r is Some ==> ({
                let row = old(self).start_index + old(self).index;
                let v = r.unwrap();
                &&& v.v_vehiclekey == row + 1
                &&& v.v_mfgr.0 == old(self).manufacturer_random.spec_row_value(row as nat)
                &&& v.v_brand.0 == v.v_mfgr.0 * 10 + old(self).brand_random.spec_row_value(
                    row as nat,
                )
                &&& exists|i: int|
                    pick_prop(
                        old(self).type_random.distribution,
                        old(self).type_random.spec_row_weight(row as nat) as u64,
                        i,
                    ) && v.v_type@ == old(self).type_random.distribution.values@[i]@
                &&& ({
                    let (offset, len) = text_row_range(
                        804159733,
                        row as nat,
                        5,
                        22,
                        old(self).comment_random.pool.text@.len() as int,
                    );
                    v.v_license@ == old(self).comment_random.pool.text@.subrange(
                        offset,
                        offset + len,
                    )
                })
                &&& final(self).index == old(self).index + 1
            }),
            r is None ==> final(self).index == old(self).index,
            final(self).start_index == old(self).start_index,
            final(self).row_count == old(self).row_count,
            final(self).type_random.distribution == old(self).type_random.distribution,
            final(self).comment_random.pool == old(self).comment_random.pool,
    {
        if self.index >= self.row_count {
            return Option::None;
        }
        let key = self.start_index + self.index + 1;
        let vehicle = self.make_vehicle(key as i64);
        self.index = self.index + 1;
        Some(vehicle)
    }
}


/// Rows of the driver table per unit scale factor.
pub const DRIVER_SCALE_BASE: u64 = 500;

/// Eligible drivers per vehicle in the trip table's driver selection.
pub const DRIVERS_PER_VEHICLE: i64 = 4;

/// A driver name, printed as `Driver#` and a nine-digit zero-padded key.
#[derive(Debug, Clone, Copy, PartialEq, Eq, Structural)]
pub struct DriverName(pub i64);

impl DriverName {
    /// Wraps a driver key.
    pub fn new(value: i64) -> (r: Self)
        ensures
            r.0 == value,
    {
        DriverName(value)
    }

    /// Formats the name as `Driver#<nine-digit key>`.
    pub fn to_tbl_string(&self) -> (r: String)
        requires
            self.0 >= 0,
        ensures
            r@ == "Driver#"@ + spec_padded(self.0 as nat, 9),
    {
        let mut out = String::from_str("Driver#");
        push_padded(&mut out, self.0 as u64, 9);
        out
    }
}

/// One row of the driver table.
#[derive(Debug, Clone)]
pub struct Driver {
    /// Primary key.
    pub d_driverkey: i64,
    /// Driver name.
    pub d_name: DriverName,
    /// Street address.
    pub d_address: RandomAlphaNumericInstance,
    /// Region name, resolved through the nation's region index.
    pub d_region: String,
    /// Nation name.
    pub d_nation: String,
    /// Phone number with the nation's country code.
    pub d_phone: PhoneNumberInstance,
}

impl Driver {
    /// The row in the delimited text layout: key, name, address, region,
    /// nation and phone, each followed by a separator.
    pub fn to_tbl_line(&self) -> (r: String)
        requires
            self.d_driverkey >= 0,
            self.d_name.0 >= 0,
            0 <= self.d_phone.country_code,
            0 <= self.d_phone.local1,
            0 <= self.d_phone.local2,
            0 <= self.d_phone.local3,
        ensures
            r@ == spec_digits(self.d_driverkey as nat) + seq!['|'] + "Driver#"@ + spec_padded(
                self.d_name.0 as nat,
                9,
            ) + seq!['|'] + crate::random::alpha_display_chars(self.d_address.bytes@)
                + seq!['|'] + self.d_region@ + seq!['|'] + self.d_nation@ + seq!['|']
                + crate::random::spec_phone_chars(
                self.d_phone.country_code as nat,
                self.d_phone.local1 as nat,
                self.d_phone.local2 as nat,
                self.d_phone.local3 as nat,
            ) + seq!['|'],
    {
        let mut out = String::new();
        push_digits(&mut out, self.d_driverkey as u64);
        out.append("|");
        let name = self.d_name.to_tbl_string();
        out.append(name.as_str());
        out.append("|");
        let address = self.d_address.to_tbl_string();
        out.append(address.as_str());
        out.append("|");
        out.append(self.d_region.as_str());
        out.append("|");
        out.append(self.d_nation.as_str());
        out.append("|");
        let phone = self.d_phone.to_tbl_string();
        out.append(phone.as_str());
        out.append("|");
        proof {
            reveal_strlit("|");
            assert(out@ =~= spec_digits(self.d_driverkey as nat) + seq!['|'] + "Driver#"@
                + spec_padded(self.d_name.0 as nat, 9) + seq!['|']
                + crate::random::alpha_display_chars(self.d_address.bytes@) + seq!['|']
                + self.d_region@ + seq!['|'] + self.d_nation@ + seq!['|']
                + crate::random::spec_phone_chars(
                self.d_phone.country_code as nat,
                self.d_phone.local1 as nat,
                self.d_phone.local2 as nat,
                self.d_phone.local3 as nat,
            ) + seq!['|']);
        }
        out
    }
}

/// Generator for the driver table.
pub struct DriverGenerator {
    /// Total rows of the table at the configured scale.
    pub total_row_count: u64,
    /// This partition, counted from one.
    pub part: u32,
    /// Number of partitions.
    pub part_count: u32,
    /// The reference pools.
    pub distributions: Distributions,
    /// The text corpus.
    pub text_pool: TextPool,
}

impl DriverGenerator {
    /// Wraps the scale and pools for the driver table.
    pub fn new(
        total_row_count: u64,
        part: u32,
        part_count: u32,
        distributions: Distributions,
        text_pool: TextPool,
    ) -> (r: Self)
        requires
            1 <= part <= part_count,
            total_row_count <= MAX_START_INDEX,
            distributions.wf(),
            text_pool.wf(),
        ensures
            r.total_row_count == total_row_count,
            r.part == part,
            r.part_count == part_count,
            r.distributions == distributions,
            r.text_pool == text_pool,
            1 <= r.part <= r.part_count,
            r.total_row_count <= MAX_START_INDEX,
            r.distributions.wf(),
            r.text_pool.wf(),
    {
        DriverGenerator { total_row_count, part, part_count, distributions, text_pool }
    }

    /// The number of rows this generator's partition holds.
    pub fn calculate_row_count(total_row_count: u64, part: u32, part_count: u32) -> (r: u64)
        requires
            1 <= part <= part_count,
        ensures
            r == spec_partition_row_count(total_row_count as nat, part as nat, part_count as nat),
    {
        GenerateUtils::calculate_row_count(total_row_count, part, part_count)
    }

    /// An iterator over this partition's rows.  Returns `None` exactly as
    /// [`DriverGeneratorIterator::new`] does.
    pub fn iter(self) -> (r: Option<DriverGeneratorIterator>)
        requires
            1 <= self.part <= self.part_count,
            self.total_row_count <= MAX_START_INDEX,
            self.distributions.wf(),
            self.text_pool.wf(),
        ensures
            r is Some ==> r.unwrap().wf() && r.unwrap().synced() && r.unwrap().start_index
                == spec_start_index(
                self.total_row_count as nat,
                self.part as nat,
                self.part_count as nat,
            ) && r.unwrap().row_count == spec_partition_row_count(
                self.total_row_count as nat,
                self.part as nat,
                self.part_count as nat,
            ) && r.unwrap().index == 0 && r.unwrap().nations == self.distributions.nations
                && r.unwrap().regions == self.distributions.regions
                && r.unwrap().comment_random.pool == self.text_pool,
            (r is Some) <==> (self.distributions.nations.spec_size() <= 0x8000_0000 && 100
                < self.text_pool.text@.len() < 2147483647),
    {
        let start_index = GenerateUtils::calculate_start_index(
            self.total_row_count,
            self.part,
            self.part_count,
        );
        let row_count = GenerateUtils::calculate_row_count(
            self.total_row_count,
            self.part,
            self.part_count,
        );
        proof {
            crate::dates::lemma_partition_within(
                self.total_row_count as nat,
                self.part as nat,
                self.part_count as nat,
            );
        }
        DriverGeneratorIterator::new(self.distributions, self.text_pool, start_index, row_count)
    }
}

/// Iterator over one partition of the driver table.
pub struct DriverGeneratorIterator {
    /// Street address column.
    pub address_random: RandomAlphaNumeric,
    /// Nation index column.
    pub nation_key_random: RandomBoundedInt,
    /// Phone number column.
    pub phone_random: RandomPhoneNumber,
    /// Account balance column (drawn per row for stream stability; not
    /// printed).
    pub account_balance_random: RandomBoundedInt,
    /// Comment text column (drawn per row for stream stability; not printed).
    pub comment_random: RandomText,
    /// Review comment column (drawn per row for stream stability; not
    /// printed).
    pub bbb_comment_random: RandomBoundedInt,
    /// Review junk column (drawn per row for stream stability; not printed).
    pub bbb_junk_random: RowRandomInt,
    /// Review offset column (drawn per row for stream stability; not
    /// printed).
    pub bbb_offset_random: RowRandomInt,
    /// Review type column (drawn per row for stream stability; not printed).
    pub bbb_type_random: RandomBoundedInt,
    /// The nation pool; each weight indexes the region pool.
    pub nations: Distribution,
    /// The region pool.
    pub regions: Distribution,
    /// First row index of the partition.
    pub start_index: u64,
    /// Rows in the partition.
    pub row_count: u64,
    /// Rows already produced.
    pub index: u64,
}

impl DriverGeneratorIterator {
    /// The logical row every column is parked at.
    pub open spec fn spec_position(self) -> nat {
        self.address_random.random.spec_rows()
    }

    /// The columns are parked exactly at the next row to produce.
    pub open spec fn synced(self) -> bool {
        self.spec_position() == self.start_index + self.index
    }

    /// Every column is sound, between rows, parked at the same logical row
    /// with the fixed per-column seed and bounds, and the pools are well
    /// formed with every nation weight a valid region index.
    pub open spec fn wf(self) -> bool {
        &&& self.address_random.wf()
        &&& self.nation_key_random.wf()
        &&& self.phone_random.wf()
        &&& self.account_balance_random.wf()
        &&& self.comment_random.wf()
        &&& self.bbb_comment_random.wf()
        &&& self.bbb_junk_random.wf()
        &&& self.bbb_offset_random.wf()
        &&& self.bbb_type_random.wf()
        &&& self.address_random.random.spec_base() == 706178559
        &&& self.address_random.min_length == 10 && self.address_random.max_length == 40
        &&& self.nation_key_random.random.spec_base() == 110356601
        &&& self.nation_key_random.low == 0
        &&& self.nation_key_random.high == self.nations.spec_size() - 1
        &&& self.phone_random.random.spec_base() == 884434366
        &&& self.account_balance_random.random.spec_base() == 962338209
        &&& self.comment_random.random.spec_base() == 1341315363
        &&& self.bbb_comment_random.random.spec_base() == 202794285
        &&& self.bbb_junk_random.spec_base() == 263032577
        &&& self.bbb_junk_random.spec_per_row() == 1
        &&& self.bbb_offset_random.spec_base() == 715851524
        &&& self.bbb_offset_random.spec_per_row() == 1
        &&& self.bbb_type_random.random.spec_base() == 753643799
        &&& self.nations.wf()
        &&& self.regions.wf()
        &&& 1 <= self.nations.spec_size() <= 0x8000_0000
        &&& forall|i: int|
            0 <= i < self.nations.weights@.len() ==> #[trigger] self.nations.weights@[i]
                < self.regions.spec_size()
        &&& self.start_index + self.row_count <= MAX_START_INDEX
        &&& self.index <= self.row_count
        &&& self.nation_key_random.random.spec_rows() == self.spec_position()
        &&& self.phone_random.random.spec_rows() == self.spec_position()
        &&& self.account_balance_random.random.spec_rows() == self.spec_position()
        &&& self.comment_random.random.spec_rows() == self.spec_position()
        &&& self.bbb_comment_random.random.spec_rows() == self.spec_position()
        &&& self.bbb_junk_random.spec_rows() == self.spec_position()
        &&& self.bbb_offset_random.spec_rows() == self.spec_position()
        &&& self.bbb_type_random.random.spec_rows() == self.spec_position()
        &&& self.address_random.random.spec_usage() == 0
        &&& self.nation_key_random.random.spec_usage() == 0
        &&& self.phone_random.random.spec_usage() == 0
        &&& self.account_balance_random.random.spec_usage() == 0
        &&& self.comment_random.random.spec_usage() == 0
        &&& self.bbb_comment_random.random.spec_usage() == 0
        &&& self.bbb_junk_random.spec_usage() == 0
        &&& self.bbb_offset_random.spec_usage() == 0
        &&& self.bbb_type_random.random.spec_usage() == 0
    }

    /// Builds the iterator with every column advanced to `start_index`.
    /// Returns `None` exactly when the nation pool is empty or oversized, or
    /// the corpus is no longer than the longest comment text.
    pub fn new(
        distributions: Distributions,
        text_pool: TextPool,
        start_index: u64,
        row_count: u64,
    ) -> (r: Option<Self>)
        requires
            distributions.wf(),
            text_pool.wf(),
            start_index + row_count <= MAX_START_INDEX,
        ensures
            r is Some ==> r.unwrap().wf() && r.unwrap().synced() && r.unwrap().start_index
                == start_index && r.unwrap().row_count == row_count && r.unwrap().index == 0
                && r.unwrap().nations == distributions.nations && r.unwrap().regions
                == distributions.regions && r.unwrap().comment_random.pool == text_pool,
            (r is Some) <==> (distributions.nations.spec_size() <= 0x8000_0000 && 100
                < text_pool.text@.len() < 2147483647),
    {
        if distributions.nations.values.len() > 0x8000_0000u64 as usize {
            return Option::None;
        }
        let nation_count = distributions.nations.size();
        let mut address_random = RandomAlphaNumeric::new(706178559, 25);
        let mut nation_key_random = RandomBoundedInt::new(
            110356601,
            0,
            (nation_count - 1) as i32,
        );
        let mut phone_random = RandomPhoneNumber::new(884434366);
        let mut account_balance_random = RandomBoundedInt::new(962338209, -99999, 999999);
        let comment_random = RandomText::new(1341315363, text_pool, 63);
        let mut comment_random = match comment_random {
            Some(c) => c,
            Option::None => {
                return Option::None;
            },
        };
        let mut bbb_comment_random = RandomBoundedInt::new(202794285, 1, 500);
        let mut bbb_junk_random = RowRandomInt::new(263032577, 1);
        let mut bbb_offset_random = RowRandomInt::new(715851524, 1);
        let mut bbb_type_random = RandomBoundedInt::new(753643799, 0, 100);
        proof {
            assert(address_random.random.spec_per_row() == 9);
            assert(phone_random.random.spec_per_row() == 3);
            assert(comment_random.random.spec_per_row() == 2);
        }
        address_random.advance_rows(start_index);
        nation_key_random.advance_rows(start_index);
        phone_random.advance_rows(start_index);
        account_balance_random.advance_rows(start_index);
        comment_random.advance_rows(start_index);
        bbb_comment_random.advance_rows(start_index);
        bbb_junk_random.advance_rows(start_index);
        bbb_offset_random.advance_rows(start_index);
        bbb_type_random.advance_rows(start_index);
        Some(
            DriverGeneratorIterator {
                address_random,
                nation_key_random,
                phone_random,
                account_balance_random,
                comment_random,
                bbb_comment_random,
                bbb_junk_random,
                bbb_offset_random,
                bbb_type_random,
                nations: distributions.nations,
                regions: distributions.regions,
                start_index,
                row_count,
                index: 0,
            },
        )
    }

    /// Builds the driver with the given key from the current row's draws and
    /// finishes the row on every column.
    pub fn make_driver(&mut self, driver_key: i64) -> (r: Driver)
        requires
            old(self).wf(),
        ensures
            r.d_driverkey == driver_key,
            r.d_name.0 == driver_key,
            ({
                let row = old(self).spec_position();
                let nation_key = old(self).nation_key_random.spec_row_value(row);
                &&& 0 <= nation_key < old(self).nations.spec_size()
                &&& r.d_nation@ == old(self).nations.values@[nation_key]@
                &&& r.d_region@ == old(self).regions.values@[old(
                    self,
                ).nations.weights@[nation_key] as int]@
                &&& r.d_phone.country_code == 10 + nation_key
                &&& ({
                    let (g1, g2, g3) = old(self).phone_random.spec_row_groups(row);
                    r.d_phone.local1 == g1 && r.d_phone.local2 == g2 && r.d_phone.local3 == g3
                })
                &&& r.d_address.bytes@.len() == old(self).address_random.spec_row_length(row)
                &&& forall|i: int|
                    0 <= i < r.d_address.bytes@.len() ==> #[trigger] r.d_address.bytes@[i]
                        == crate::random::alpha_byte(
                        crate::random::alnum_index_at(
                            crate::random::row_start_seed(706178559, 9, row),
                            i as nat,
                        ),
                    )
            }),
            final(self).wf(),
            final(self).spec_position() == old(self).spec_position() + 1,
            final(self).start_index == old(self).start_index,
            final(self).row_count == old(self).row_count,
            final(self).index == old(self).index,
            final(self).nations == old(self).nations,
            final(self).regions == old(self).regions,
    {
        let nation_key = self.nation_key_random.next_value();
        let nation = self.nations.get_value(nation_key as usize);
        let region_key = self.nations.get_weight(nation_key as usize);
        let region_count = self.regions.size();
        proof {
            assert(region_key < region_count as u64);
        }
        let region = self.regions.get_value(region_key as usize);
        let address = self.address_random.next_value();
        let phone = self.phone_random.next_value(nation_key as i64);
        let d = Driver {
            d_driverkey: driver_key,
            d_name: DriverName::new(driver_key),
            d_address: address,
            d_region: region,
            d_nation: nation,
            d_phone: phone,
        };
        self.address_random.row_finished();
        self.nation_key_random.row_finished();
        self.phone_random.row_finished();
        self.account_balance_random.row_finished();
        self.comment_random.row_finished();
        self.bbb_comment_random.row_finished();
        self.bbb_junk_random.row_finished();
        self.bbb_offset_random.row_finished();
        self.bbb_type_random.row_finished();
        d
    }

    /// The driver selected for a trip, from the vehicle key, the trip's
    /// per-partition sequence number and the pool of selectable drivers.
    /// The result always lies in `[1, driver_count]`, so every trip holds a
    /// valid driver key.
    pub fn select_driver(vehicle_key: i64, driver_number: i64, driver_count: i64) -> (r: i64)
        requires
            1 <= vehicle_key <= 0x1000_0000_0000,
            0 <= driver_number <= 0x1000_0000_0000,
            1 <= driver_count <= 0x1000_0000_0000,
        ensures
            r == (vehicle_key as int + driver_number as int * (driver_count as int
                / DRIVERS_PER_VEHICLE as int + (vehicle_key as int - 1) / driver_count as int))
                % driver_count as int + 1,
            1 <= r <= driver_count,
    {
        let spread = driver_count / DRIVERS_PER_VEHICLE + (vehicle_key - 1) / driver_count;
        proof {
            vstd::arithmetic::div_mod::lemma_div_nonincreasing(
                vehicle_key as int - 1,
                driver_count as int,
            );
            vstd::arithmetic::mul::lemma_mul_upper_bound(
                driver_number as int,
                0x1000_0000_0000,
                spread as int,
                0x2000_0000_0000,
            );
            vstd::arithmetic::mul::lemma_mul_nonnegative(driver_number as int, spread as int);
        }
        let mixed: i128 = vehicle_key as i128 + driver_number as i128 * spread as i128;
        proof {
            vstd::arithmetic::div_mod::lemma_mod_bound(mixed as int, driver_count as int);
        }
        (mixed % driver_count as i128) as i64 + 1
    }

    /// The next row of the partition, or `None` when it is exhausted.
    #[verifier::rlimit(100)]
    pub fn next(&mut self) -> (r: Option<Driver>)
        requires
            old(self).wf(),
            old(self).synced(),
        ensures
            final(self).wf(),
            final(self).synced(),
            (r is Some) <==> old(self).index < old(self).row_count,
            r is Some ==> ({
                let row = old(self).start_index + old(self).index;
                let d = r.unwrap();
                let nation_key = old(self).nation_key_random.spec_row_value(row as nat);
                &&& d.d_driverkey == row + 1
                &&& d.d_name.0 == row + 1
                &&& d.d_nation@ == old(self).nations.values@[nation_key]@
                &&& d.d_region@ == old(self).regions.values@[old(
                    self,
                ).nations.weights@[nation_key] as int]@
                &&& d.d_phone.country_code == 10 + nation_key
                &&& ({
                    let (g1, g2, g3) = old(self).phone_random.spec_row_groups(row as nat);
                    d.d_phone.local1 == g1 && d.d_phone.local2 == g2 && d.d_phone.local3 == g3
                })
                &&& d.d_address.bytes@.len() == old(self).address_random.spec_row_length(
                    row as nat,
                )
                &&& forall|i: int|
                    0 <= i < d.d_address.bytes@.len() ==> #[trigger] d.d_address.bytes@[i]
                        == crate::random::alpha_byte(
                        crate::random::alnum_index_at(
                            crate::random::row_start_seed(706178559, 9, row as nat),
                            i as nat,
                        ),
                    )
                &&& final(self).index == old(self).index + 1
            }),
            r is None ==> final(self).index == old(self).index,
            final(self).start_index == old(self).start_index,
            final(self).row_count == old(self).row_count,
            final(self).nations == old(self).nations,
            final(self).regions == old(self).regions,
    {
        if self.index >= self.row_count {
            return Option::None;
        }
        let key = self.start_index + self.index + 1;
        let driver = self.make_driver(key as i64);
        self.index = self.index + 1;
        Some(driver)
    }
}

/// Rows of the customer table per unit scale factor.
pub const CUSTOMER_SCALE_BASE: u64 = 30_000;

/// A customer name, printed as `Customer#` and a nine-digit zero-padded key.
#[derive(Debug, Clone, Copy, PartialEq, Eq, Structural)]
pub struct CustomerName(pub i64);

impl CustomerName {
    /// Wraps a customer key.
    pub fn new(value: i64) -> (r: Self)
        ensures
            r.0 == value,
    {
        CustomerName(value)
    }

    /// Formats the name as `Customer#<nine-digit key>`.
    pub fn to_tbl_string(&self) -> (r: String)
        requires
            self.0 >= 0,
        ensures
            r@ == "Customer#"@ + spec_padded(self.0 as nat, 9),
    {
        let mut out = String::from_str("Customer#");
        push_padded(&mut out, self.0 as u64, 9);
        out
    }
}

/// One row of the customer table.
#[derive(Debug, Clone)]
pub struct Customer {
    /// Primary key.
    pub c_custkey: i64,
    /// Customer name.
    pub c_name: CustomerName,
    /// Street address.
    pub c_address: RandomAlphaNumericInstance,
    /// Region name, resolved through the nation's region index.
    pub c_region: String,
    /// Nation name.
    pub c_nation: String,
    /// Phone number with the nation's country code.
    pub c_phone: PhoneNumberInstance,
}

impl Customer {
    /// The row in the delimited text layout: key, name, address, region,
    /// nation and phone, each followed by a separator.
    pub fn to_tbl_line(&self) -> (r: String)
        requires
            self.c_custkey >= 0,
            self.c_name.0 >= 0,
            0 <= self.c_phone.country_code,
            0 <= self.c_phone.local1,
            0 <= self.c_phone.local2,
            0 <= self.c_phone.local3,
        ensures
            r@ == spec_digits(self.c_custkey as nat) + seq!['|'] + "Customer#"@ + spec_padded(
                self.c_name.0 as nat,
                9,
            ) + seq!['|'] + crate::random::alpha_display_chars(self.c_address.bytes@)
                + seq!['|'] + self.c_region@ + seq!['|'] + self.c_nation@ + seq!['|']
                + crate::random::spec_phone_chars(
                self.c_phone.country_code as nat,
                self.c_phone.local1 as nat,
                self.c_phone.local2 as nat,
                self.c_phone.local3 as nat,
            ) + seq!['|'],
    {
        let mut out = String::new();
        push_digits(&mut out, self.c_custkey as u64);
        out.append("|");
        let name = self.c_name.to_tbl_string();
        out.append(name.as_str());
        out.append("|");
        let address = self.c_address.to_tbl_string();
        out.append(address.as_str());
        out.append("|");
        out.append(self.c_region.as_str());
        out.append("|");
        out.append(self.c_nation.as_str());
        out.append("|");
        let phone = self.c_phone.to_tbl_string();
        out.append(phone.as_str());
        out.append("|");
        proof {
            reveal_strlit("|");
            assert(out@ =~= spec_digits(self.c_custkey as nat) + seq!['|'] + "Customer#"@
                + spec_padded(self.c_name.0 as nat, 9) + seq!['|']
                + crate::random::alpha_display_chars(self.c_address.bytes@) + seq!['|']
                + self.c_region@ + seq!['|'] + self.c_nation@ + seq!['|']
                + crate::random::spec_phone_chars(
                self.c_phone.country_code as nat,
                self.c_phone.local1 as nat,
                self.c_phone.local2 as nat,
                self.c_phone.local3 as nat,
            ) + seq!['|']);
        }
        out
    }
}

/// Generator for the customer table.
pub struct CustomerGenerator {
    /// Total rows of the table at the configured scale.
    pub total_row_count: u64,
    /// This partition, counted from one.
    pub part: u32,
    /// Number of partitions.
    pub part_count: u32,
    /// The reference pools.
    pub distributions: Distributions,
    /// The text corpus.
    pub text_pool: TextPool,
}

impl CustomerGenerator {
    /// Wraps the scale and pools for the customer table.
    pub fn new(
        total_row_count: u64,
        part: u32,
        part_count: u32,
        distributions: Distributions,
        text_pool: TextPool,
    ) -> (r: Self)
        requires
            1 <= part <= part_count,
            total_row_count <= MAX_START_INDEX,
            distributions.wf(),
            text_pool.wf(),
        ensures
            r.total_row_count == total_row_count,
            r.part == part,
            r.part_count == part_count,
            r.distributions == distributions,
            r.text_pool == text_pool,
            1 <= r.part <= r.part_count,
            r.total_row_count <= MAX_START_INDEX,
            r.distributions.wf(),
            r.text_pool.wf(),
    {
        CustomerGenerator { total_row_count, part, part_count, distributions, text_pool }
    }

    /// The number of rows this generator's partition holds.
    pub fn calculate_row_count(total_row_count: u64, part: u32, part_count: u32) -> (r: u64)
        requires
            1 <= part <= part_count,
        ensures
            r == spec_partition_row_count(total_row_count as nat, part as nat, part_count as nat),
    {
        GenerateUtils::calculate_row_count(total_row_count, part, part_count)
    }

    /// An iterator over this partition's rows.  Returns `None` exactly as
    /// [`CustomerGeneratorIterator::new`] does.
    pub fn iter(self) -> (r: Option<CustomerGeneratorIterator>)
        requires
            1 <= self.part <= self.part_count,
            self.total_row_count <= MAX_START_INDEX,
            self.distributions.wf(),
        ensures
            r is Some ==> r.unwrap().wf() && r.unwrap().synced() && r.unwrap().start_index
                == spec_start_index(
                self.total_row_count as nat,
                self.part as nat,
                self.part_count as nat,
            ) && r.unwrap().row_count == spec_partition_row_count(
                self.total_row_count as nat,
                self.part as nat,
                self.part_count as nat,
            ) && r.unwrap().index == 0 && r.unwrap().nations == self.distributions.nations
                && r.unwrap().regions == self.distributions.regions,
            (r is Some) <==> self.distributions.nations.spec_size() <= 0x8000_0000,
    {
        let start_index = GenerateUtils::calculate_start_index(
            self.total_row_count,
            self.part,
            self.part_count,
        );
        let row_count = GenerateUtils::calculate_row_count(
            self.total_row_count,
            self.part,
            self.part_count,
        );
        proof {
            crate::dates::lemma_partition_within(
                self.total_row_count as nat,
                self.part as nat,
                self.part_count as nat,
            );
        }
        CustomerGeneratorIterator::new(self.distributions, start_index, row_count)
    }
}

/// Iterator over one partition of the customer table.
pub struct CustomerGeneratorIterator {
    /// Street address column.
    pub address_random: RandomAlphaNumeric,
    /// Nation index column.
    pub nation_key_random: RandomBoundedInt,
    /// Phone number column.
    pub phone_random: RandomPhoneNumber,
    /// The nation pool; each weight indexes the region pool.
    pub nations: Distribution,
    /// The region pool.
    pub regions: Distribution,
    /// First row index of the partition.
    pub start_index: u64,
    /// Rows in the partition.
    pub row_count: u64,
    /// Rows already produced.
    pub index: u64,
}

impl CustomerGeneratorIterator {
    /// The logical row every column is parked at.
    pub open spec fn spec_position(self) -> nat {
        self.address_random.random.spec_rows()
    }

    /// The columns are parked exactly at the next row to produce.
    pub open spec fn synced(self) -> bool {
        self.spec_position() == self.start_index + self.index
    }

    /// Every column is sound, between rows, parked at the same logical row
    /// with the fixed per-column seed and bounds, and the pools are well
    /// formed with every nation weight a valid region index.
    pub open spec fn wf(self) -> bool {
        &&& self.address_random.wf()
        &&& self.nation_key_random.wf()
        &&& self.phone_random.wf()
        &&& self.address_random.random.spec_base() == 881155353
        &&& self.address_random.min_length == 10 && self.address_random.max_length == 40
        &&& self.nation_key_random.random.spec_base() == 1489529863
        &&& self.nation_key_random.low == 0
        &&& self.nation_key_random.high == self.nations.spec_size() - 1
        &&& self.phone_random.random.spec_base() == 1521138112
        &&& self.nations.wf()
        &&& self.regions.wf()
        &&& 1 <= self.nations.spec_size() <= 0x8000_0000
        &&& forall|i: int|
            0 <= i < self.nations.weights@.len() ==> #[trigger] self.nations.weights@[i]
                < self.regions.spec_size()
        &&& self.start_index + self.row_count <= MAX_START_INDEX
        &&& self.index <= self.row_count
        &&& self.nation_key_random.random.spec_rows() == self.spec_position()
        &&& self.phone_random.random.spec_rows() == self.spec_position()
        &&& self.address_random.random.spec_usage() == 0
        &&& self.nation_key_random.random.spec_usage() == 0
        &&& self.phone_random.random.spec_usage() == 0
    }

    /// Builds the iterator with every column advanced to `start_index`.
    /// Returns `None` exactly when the nation pool is empty or oversized.
    pub fn new(distributions: Distributions, start_index: u64, row_count: u64) -> (r: Option<Self>)
        requires
            distributions.wf(),
            start_index + row_count <= MAX_START_INDEX,
        ensures
            r is Some ==> r.unwrap().wf() && r.unwrap().synced() && r.unwrap().start_index
                == start_index && r.unwrap().row_count == row_count && r.unwrap().index == 0
                && r.unwrap().nations == distributions.nations && r.unwrap().regions
                == distributions.regions,
            (r is Some) <==> distributions.nations.spec_size() <= 0x8000_0000,
    {
        if distributions.nations.values.len() > 0x8000_0000u64 as usize {
            return Option::None;
        }
        let nation_count = distributions.nations.size();
        let mut address_random = RandomAlphaNumeric::new(881155353, 25);
        let mut nation_key_random = RandomBoundedInt::new(
            1489529863,
            0,
            (nation_count - 1) as i32,
        );
        let mut phone_random = RandomPhoneNumber::new(1521138112);
        proof {
            assert(address_random.random.spec_per_row() == 9);
            assert(phone_random.random.spec_per_row() == 3);
        }
        address_random.advance_rows(start_index);
        nation_key_random.advance_rows(start_index);
        phone_random.advance_rows(start_index);
        Some(
            CustomerGeneratorIterator {
                address_random,
                nation_key_random,
                phone_random,
                nations: distributions.nations,
                regions: distributions.regions,
                start_index,
                row_count,
                index: 0,
            },
        )
    }

    /// Builds the customer with the given key from the current row's draws
    /// and finishes the row on every column.
    pub fn make_customer(&mut self, customer_key: i64) -> (r: Customer)
        requires
            old(self).wf(),
        ensures
            r.c_custkey == customer_key,
            r.c_name.0 == customer_key,
            ({
                let row = old(self).spec_position();
                let nation_key = old(self).nation_key_random.spec_row_value(row);
                &&& 0 <= nation_key < old(self).nations.spec_size()
                &&& r.c_nation@ == old(self).nations.values@[nation_key]@
                &&& r.c_region@ == old(self).regions.values@[old(
                    self,
                ).nations.weights@[nation_key] as int]@
                &&& r.c_phone.country_code == 10 + nation_key
                &&& ({
                    let (g1, g2, g3) = old(self).phone_random.spec_row_groups(row);
                    r.c_phone.local1 == g1 && r.c_phone.local2 == g2 && r.c_phone.local3 == g3
                })
                &&& r.c_address.bytes@.len() == old(self).address_random.spec_row_length(row)
                &&& forall|i: int|
                    0 <= i < r.c_address.bytes@.len() ==> #[trigger] r.c_address.bytes@[i]
                        == crate::random::alpha_byte(
                        crate::random::alnum_index_at(
                            crate::random::row_start_seed(881155353, 9, row),
                            i as nat,
                        ),
                    )
            }),
            final(self).wf(),
            final(self).spec_position() == old(self).spec_position() + 1,
            final(self).start_index == old(self).start_index,
            final(self).row_count == old(self).row_count,
            final(self).index == old(self).index,
            final(self).nations == old(self).nations,
            final(self).regions == old(self).regions,
    {
        let nation_key = self.nation_key_random.next_value();
        let nation = self.nations.get_value(nation_key as usize);
        let region_key = self.nations.get_weight(nation_key as usize);
        let region_count = self.regions.size();
        proof {
            assert(region_key < region_count as u64);
        }
        let region = self.regions.get_value(region_key as usize);
        let address = self.address_random.next_value();
        let phone = self.phone_random.next_value(nation_key as i64);
        let c = Customer {
            c_custkey: customer_key,
            c_name: CustomerName::new(customer_key),
            c_address: address,
            c_region: region,
            c_nation: nation,
            c_phone: phone,
        };
        self.address_random.row_finished();
        self.nation_key_random.row_finished();
        self.phone_random.row_finished();
        c
    }

    /// The next row of the partition, or `None` when it is exhausted.
    #[verifier::rlimit(100)]
    pub fn next(&mut self) -> (r: Option<Customer>)
        requires
            old(self).wf(),
            old(self).synced(),
        ensures
            final(self).wf(),
            final(self).synced(),
            (r is Some) <==> old(self).index < old(self).row_count,
            r is Some ==> ({
                let row = old(self).start_index + old(self).index;
                let c = r.unwrap();
                let nation_key = old(self).nation_key_random.spec_row_value(row as nat);
                &&& c.c_custkey == row + 1
                &&& c.c_name.0 == row + 1
                &&& c.c_nation@ == old(self).nations.values@[nation_key]@
                &&& c.c_region@ == old(self).regions.values@[old(
                    self,
                ).nations.weights@[nation_key] as int]@
                &&& c.c_phone.country_code == 10 + nation_key
                &&& ({
                    let (g1, g2, g3) = old(self).phone_random.spec_row_groups(row as nat);
                    c.c_phone.local1 == g1 && c.c_phone.local2 == g2 && c.c_phone.local3 == g3
                })
                &&& c.c_address.bytes@.len() == old(self).address_random.spec_row_length(
                    row as nat,
                )
                &&& forall|i: int|
                    0 <= i < c.c_address.bytes@.len() ==> #[trigger] c.c_address.bytes@[i]
                        == crate::random::alpha_byte(
                        crate::random::alnum_index_at(
                            crate::random::row_start_seed(881155353, 9, row as nat),
                            i as nat,
                        ),
                    )
                &&& final(self).index == old(self).index + 1
            }),
            r is None ==> final(self).index == old(self).index,
            final(self).start_index == old(self).start_index,
            final(self).row_count == old(self).row_count,
            final(self).nations == old(self).nations,
            final(self).regions == old(self).regions,
    {
        if self.index >= self.row_count {
            return Option::None;
        }
        let key = self.start_index + self.index + 1;
        let customer = self.make_customer(key as i64);
        self.index = self.index + 1;
        Some(customer)
    }
}


/// Rows of the trip table per unit scale factor.
pub const TRIP_SCALE_BASE: u64 = 6_000_000;

/// One in this many raw customer draws is remapped, modeling customers who
/// never ride.
pub const CUSTOMER_MORTALITY: i64 = 3;

/// Smallest fare per mile, in hundredths.
pub const FARE_MIN_PER_MILE: i32 = 150;

/// Largest fare per mile, in hundredths.
pub const FARE_MAX_PER_MILE: i32 = 300;

/// Smallest tip, as a percentage of the fare.
pub const TIP_PERCENT_MIN: i32 = 0;

/// Largest tip, as a percentage of the fare.
pub const TIP_PERCENT_MAX: i32 = 30;

/// Trip duration per distance unit, in seconds per degree.
pub const SECONDS_PER_DEGREE: i64 = 180_000;

/// Largest supported scaled trip distance, in hundred-millionths of a mile.
pub const MAX_DISTANCE_SCALED: i64 = 50_000_000_000_000;

/// A raw customer draw remapped off multiples of the mortality divisor: a
/// divisible draw moves up one key, or down one when it already sits at the
/// largest key.
pub open spec fn spec_mortality_adjust(raw: int, max_key: int) -> int {
    if raw % 3 != 0 {
        raw
    } else if raw < max_key {
        raw + 1
    } else {
        max_key - 1
    }
}

/// The adjusted key is never divisible by the mortality divisor and stays in
/// range: the mortality law for every generated trip.
pub proof fn lemma_mortality_adjust(raw: int, max_key: int)
    requires
        1 <= raw <= max_key,
    ensures
        spec_mortality_adjust(raw, max_key) % 3 != 0,
        1 <= spec_mortality_adjust(raw, max_key) <= max_key,
{
}

/// The per-row spatial observations a trip row is built from: the sampled
/// trip distance in hundred-millionths of a mile, the pickup point, and the
/// dropoff point reached from it by the sampled distance and bearing.
pub struct TripSpatialInput {
    /// Trip distance, in hundred-millionths of a mile.
    pub distance_scaled: i64,
    /// Pickup coordinates.
    pub pickup: GeoPoint,
    /// Dropoff coordinates.
    pub dropoff: GeoPoint,
}


/// The adjusted customer key for a raw draw: never divisible by the
/// mortality divisor, always in `[1, max_key]`.
pub fn adjust_customer_key(raw: i64, max_key: i64) -> (r: i64)
    requires
        1 <= raw <= max_key,
        max_key <= 0x1000_0000_0000,
    ensures
        r == spec_mortality_adjust(raw as int, max_key as int),
        r % 3 != 0,
        1 <= r <= max_key,
{
    proof {
        lemma_mortality_adjust(raw as int, max_key as int);
    }
    if raw % CUSTOMER_MORTALITY != 0 {
        raw
    } else if raw < max_key {
        raw + 1
    } else {
        max_key - 1
    }
}

/// The fare, tip and total for a scaled distance, fare rate and tip
/// percentage, all in exact fixed-point hundredths.
pub fn trip_money(distance_scaled: i64, fare_per_mile: i64, tip_percent: i64) -> (r: (i64, i64, i64))
    requires
        0 <= distance_scaled <= MAX_DISTANCE_SCALED,
        FARE_MIN_PER_MILE <= fare_per_mile <= FARE_MAX_PER_MILE,
        TIP_PERCENT_MIN <= tip_percent <= TIP_PERCENT_MAX,
    ensures
        r.0 == distance_scaled as int * fare_per_mile as int / 100_000_000,
        r.1 == distance_scaled as int * fare_per_mile as int * tip_percent as int
            / 10_000_000_000,
        r.2 == distance_scaled as int * fare_per_mile as int * (100 + tip_percent as int)
            / 10_000_000_000,
        0 <= r.0 && 0 <= r.1 && 0 <= r.2,
{
    let d8 = distance_scaled;
    proof {
        vstd::arithmetic::mul::lemma_mul_nonnegative(d8 as int, fare_per_mile as int);
        vstd::arithmetic::mul::lemma_mul_upper_bound(
            d8 as int,
            MAX_DISTANCE_SCALED as int,
            fare_per_mile as int,
            300,
        );
        vstd::arithmetic::mul::lemma_mul_nonnegative(
            d8 as int * fare_per_mile as int,
            tip_percent as int,
        );
        vstd::arithmetic::mul::lemma_mul_upper_bound(
            d8 as int * fare_per_mile as int,
            15_000_000_000_000_000,
            tip_percent as int,
            30,
        );
        vstd::arithmetic::mul::lemma_mul_nonnegative(
            d8 as int * fare_per_mile as int,
            100 + tip_percent as int,
        );
        vstd::arithmetic::mul::lemma_mul_upper_bound(
            d8 as int * fare_per_mile as int,
            15_000_000_000_000_000,
            100 + tip_percent as int,
            130,
        );
    }
    let fare = d8 * fare_per_mile / 100_000_000;
    let tip = d8 * fare_per_mile * tip_percent / 10_000_000_000;
    let total = d8 * fare_per_mile * (100 + tip_percent) / 10_000_000_000;
    (fare, tip, total)
}

/// The trip duration for a scaled distance, in seconds, rounded half up.
pub open spec fn spec_trip_duration(d8: int) -> int {
    (d8 * SECONDS_PER_DEGREE + 50_000_000) / 100_000_000
}

/// The dropoff timestamp: the pickup time of day plus the distance-derived
/// duration, with overflowing days clamped to the end of the generation
/// window.  Unless clamped, the dropoff never precedes the pickup.
pub fn dropoff_timestamp(pickup: &TPCHDate, distance_scaled: i64) -> (r: TPCHDate)
    requires
        pickup.wf(),
        0 <= distance_scaled <= MAX_DISTANCE_SCALED,
    ensures
        r.wf(),
        ({
            let ts = pickup.hour as int * 3600 + pickup.minute as int * 60 + pickup.second as int
                + spec_trip_duration(distance_scaled as int);
            &&& r.value == (if pickup.value + ts / 86400 < 94557 {
                pickup.value + ts / 86400
            } else {
                94557
            })
            &&& r.hour == (ts / 3600) % 24
            &&& r.minute == (ts % 3600) / 60
            &&& r.second == ts % 60
            &&& (pickup.value + ts / 86400 < 94557 ==> pickup.spec_total_seconds()
                <= r.spec_total_seconds())
        }),
{
    let duration_seconds = (distance_scaled * SECONDS_PER_DEGREE + 50_000_000) / 100_000_000;
    let ts: i64 = (pickup.hour as i64) * 3600 + (pickup.minute as i64) * 60 + (
    pickup.second as i64) + duration_seconds;
    let dropoff_hour = ((ts / 3600) % 24) as u8;
    let dropoff_minute = ((ts % 3600) / 60) as u8;
    let dropoff_second = (ts % 60) as u8;
    let day_delta = ts / 86400;
    let dropoff_day = pickup.value as i64 + day_delta;
    let bounded_dropoff_day: i64 = if dropoff_day < 94557 {
        dropoff_day
    } else {
        94557
    };
    let r = TPCHDate::new(
        bounded_dropoff_day as u32,
        dropoff_hour,
        dropoff_minute,
        dropoff_second,
    );
    proof {
        lemma_seconds_of_day(ts as int);
        if dropoff_day < 94557 {
            vstd::arithmetic::div_mod::lemma_fundamental_div_mod(ts as int, 86400);
            vstd::arithmetic::mul::lemma_mul_is_distributive_add(
                86400,
                pickup.value - 92001,
                day_delta as int,
            );
        }
    }
    r
}

/// The time-of-day fields extracted from a second count cover exactly the
/// seconds within the day: the hour, minute and second parts recombine to
/// the count modulo a day.
proof fn lemma_seconds_of_day(ts: int)
    requires
        ts >= 0,
    ensures
        ((ts / 3600) % 24) * 3600 + ((ts % 3600) / 60) * 60 + ts % 60 == ts % 86400,
        ts % 86400 == ts - 86400 * (ts / 86400),
{
    vstd::arithmetic::div_mod::lemma_breakdown(ts, 3600, 24);
    vstd::arithmetic::div_mod::lemma_breakdown(ts % 3600, 60, 60);
    assert((ts % 3600) % 60 == ts % 60) by {
        vstd::arithmetic::div_mod::lemma_mod_mod(ts, 60, 60);
    };
    assert(ts % 3600 == 60 * ((ts % 3600) / 60) + (ts % 3600) % 60) by {
        vstd::arithmetic::div_mod::lemma_fundamental_div_mod(ts % 3600, 60);
    };
    vstd::arithmetic::div_mod::lemma_fundamental_div_mod(ts, 86400);
}

/// One row of the trip table.
#[derive(Debug, Clone)]
pub struct Trip {
    /// Primary key.
    pub t_tripkey: i64,
    /// Customer key, never divisible by the mortality divisor.
    pub t_custkey: i64,
    /// Driver key, selected from the vehicle key.
    pub t_driverkey: i64,
    /// Vehicle key.
    pub t_vehiclekey: i64,
    /// Pickup timestamp.
    pub t_pickuptime: TPCHDate,
    /// Dropoff timestamp, the pickup plus the distance-derived duration.
    pub t_dropofftime: TPCHDate,
    /// Fare, in hundredths.
    pub t_fare: TPCHDecimal,
    /// Tip, in hundredths.
    pub t_tip: TPCHDecimal,
    /// Total amount, in hundredths.
    pub t_totalamount: TPCHDecimal,
    /// Distance, in hundredths of a mile.
    pub t_distance: TPCHDecimal,
    /// Pickup coordinates.
    pub t_pickuploc: GeoPoint,
    /// Dropoff coordinates.
    pub t_dropoffloc: GeoPoint,
}

/// Generator for the trip table.
pub struct TripGenerator {
    /// Total rows of the table at the configured scale.
    pub total_row_count: u64,
    /// This partition, counted from one.
    pub part: u32,
    /// Number of partitions.
    pub part_count: u32,
    /// Largest customer key at the configured scale.
    pub max_customer_key: i64,
    /// Largest driver key at the configured scale.
    pub max_driver_key: i64,
    /// Largest vehicle key at the configured scale.
    pub max_vehicle_key: i64,
}

impl TripGenerator {
    /// Wraps the scale for the trip table: the total trip rows and the
    /// largest key of each referenced table.
    pub fn new(
        total_row_count: u64,
        part: u32,
        part_count: u32,
        max_customer_key: i64,
        max_driver_key: i64,
        max_vehicle_key: i64,
    ) -> (r: Self)
        requires
            1 <= part <= part_count,
            total_row_count <= MAX_START_INDEX,
            1 <= max_customer_key <= 0x1000_0000_0000,
            1 <= max_driver_key <= 0x1000_0000_0000,
            1 <= max_vehicle_key <= 0x1000_0000_0000,
            max_customer_key < 900_000_000 ==> max_driver_key < 2147483647 && max_vehicle_key
                < 2147483647,
        ensures
            r == (TripGenerator {
                total_row_count,
                part,
                part_count,
                max_customer_key,
                max_driver_key,
                max_vehicle_key,
            }),
    {
        TripGenerator {
            total_row_count,
            part,
            part_count,
            max_customer_key,
            max_driver_key,
            max_vehicle_key,
        }
    }

    /// The number of rows this generator's partition holds.
    pub fn calculate_row_count(total_row_count: u64, part: u32, part_count: u32) -> (r: u64)
        requires
            1 <= part <= part_count,
        ensures
            r == spec_partition_row_count(total_row_count as nat, part as nat, part_count as nat),
    {
        GenerateUtils::calculate_row_count(total_row_count, part, part_count)
    }

    /// An iterator over this partition's rows.
    pub fn iter(self) -> (r: TripGeneratorIterator)
        requires
            1 <= self.part <= self.part_count,
            self.total_row_count <= MAX_START_INDEX,
            1 <= self.max_customer_key <= 0x1000_0000_0000,
            1 <= self.max_driver_key <= 0x1000_0000_0000,
            1 <= self.max_vehicle_key <= 0x1000_0000_0000,
            self.max_customer_key < 900_000_000 ==> self.max_driver_key < 2147483647
                && self.max_vehicle_key < 2147483647,
        ensures
            r.wf(),
            r.synced(),
            r.start_index == spec_start_index(
                self.total_row_count as nat,
                self.part as nat,
                self.part_count as nat,
            ),
            r.row_count == spec_partition_row_count(
                self.total_row_count as nat,
                self.part as nat,
                self.part_count as nat,
            ),
            r.index == 0,
            r.trip_number == 0,
            r.max_customer_key == self.max_customer_key,
            r.max_vehicle_key == self.max_vehicle_key,
            r.customer_key_random.use_64bits == (self.max_customer_key >= 900_000_000),
            r.driver_key_random.use_64bits == (self.max_customer_key >= 900_000_000),
            r.vehicle_key_random.use_64bits == (self.max_customer_key >= 900_000_000),
            r.driver_key_random.low == 1 && r.driver_key_random.high == self.max_driver_key,
    {
        let start_index = GenerateUtils::calculate_start_index(
            self.total_row_count,
            self.part,
            self.part_count,
        );
        let row_count = GenerateUtils::calculate_row_count(
            self.total_row_count,
            self.part,
            self.part_count,
        );
        proof {
            crate::dates::lemma_partition_within(
                self.total_row_count as nat,
                self.part as nat,
                self.part_count as nat,
            );
        }
        TripGeneratorIterator::new(
            self.max_customer_key,
            self.max_driver_key,
            self.max_vehicle_key,
            start_index,
            row_count,
        )
    }
}

/// Iterator over one partition of the trip table.
pub struct TripGeneratorIterator {
    /// Raw customer key column, before the mortality remap.
    pub customer_key_random: RandomBoundedLong,
    /// Driver key column (drawn per row for stream stability; the printed
    /// driver comes from the vehicle instead).
    pub driver_key_random: RandomBoundedLong,
    /// Vehicle key column.
    pub vehicle_key_random: RandomBoundedLong,
    /// Pickup day column.
    pub pickup_date_random: RandomBoundedInt,
    /// Pickup time-of-day column.
    pub pickup_time_random: RandomTimeOfDay,
    /// Fare-per-mile column.
    pub fare_per_mile_random: RandomBoundedInt,
    /// Tip percentage column.
    pub tip_percent_random: RandomBoundedInt,
    /// Minutes-per-mile column (drawn per row for stream stability; not
    /// printed).
    pub trip_minutes_per_mile_random: RandomBoundedInt,
    /// Largest customer key.
    pub max_customer_key: i64,
    /// The driver pool size the selection formula draws from.
    pub max_vehicle_key: i64,
    /// First row index of the partition.
    pub start_index: u64,
    /// Rows in the partition.
    pub row_count: u64,
    /// Rows already produced.
    pub index: u64,
    /// The per-partition trip sequence number fed to the driver selection.
    pub trip_number: i64,
}

impl TripGeneratorIterator {
    /// The logical row every column is parked at.
    pub open spec fn spec_position(self) -> nat {
        self.customer_key_random.random.spec_rows()
    }

    /// The columns are parked exactly at the next row to produce.
    pub open spec fn synced(self) -> bool {
        self.spec_position() == self.start_index + self.index
    }

    /// Every column is sound, between rows, parked at the same logical row
    /// with the fixed per-column seed and bounds.
    pub open spec fn wf(self) -> bool {
        &&& self.customer_key_random.wf()
        &&& self.driver_key_random.wf()
        &&& self.vehicle_key_random.wf()
        &&& self.pickup_date_random.wf()
        &&& self.pickup_time_random.wf()
        &&& self.fare_per_mile_random.wf()
        &&& self.tip_percent_random.wf()
        &&& self.trip_minutes_per_mile_random.wf()
        &&& self.customer_key_random.random.spec_base() == 921591341
        &&& self.customer_key_random.low == 1
        &&& self.customer_key_random.high == self.max_customer_key
        &&& self.driver_key_random.random.spec_base() == 572982913
        &&& self.vehicle_key_random.random.spec_base() == 135497281
        &&& self.vehicle_key_random.low == 1
        &&& self.vehicle_key_random.high == self.max_vehicle_key
        &&& self.pickup_date_random.random.spec_base() == 831649288
        &&& self.pickup_date_random.low == MIN_GENERATE_DATE as i32
        &&& self.pickup_date_random.high == MIN_GENERATE_DATE as i32 + TOTAL_DATE_RANGE as i32 - 1
        &&& self.pickup_time_random.seed == 123456789
        &&& self.fare_per_mile_random.random.spec_base() == 109837462
        &&& self.fare_per_mile_random.low == FARE_MIN_PER_MILE
        &&& self.fare_per_mile_random.high == FARE_MAX_PER_MILE
        &&& self.tip_percent_random.random.spec_base() == 483912756
        &&& self.tip_percent_random.low == TIP_PERCENT_MIN
        &&& self.tip_percent_random.high == TIP_PERCENT_MAX
        &&& self.trip_minutes_per_mile_random.random.spec_base() == 748219567
        &&& 1 <= self.max_customer_key <= 0x1000_0000_0000
        &&& 1 <= self.max_vehicle_key <= 0x1000_0000_0000
        &&& 0 <= self.trip_number <= 0x1000_0000_0000
        &&& self.start_index + self.row_count <= MAX_START_INDEX
        &&& self.index <= self.row_count
        &&& self.driver_key_random.random.spec_rows() == self.spec_position()
        &&& self.vehicle_key_random.random.spec_rows() == self.spec_position()
        &&& self.pickup_date_random.random.spec_rows() == self.spec_position()
        &&& self.pickup_time_random.row == self.spec_position()
        &&& self.fare_per_mile_random.random.spec_rows() == self.spec_position()
        &&& self.tip_percent_random.random.spec_rows() == self.spec_position()
        &&& self.trip_minutes_per_mile_random.random.spec_rows() == self.spec_position()
        &&& self.customer_key_random.random.spec_usage() == 0
        &&& self.driver_key_random.random.spec_usage() == 0
        &&& self.vehicle_key_random.random.spec_usage() == 0
        &&& self.pickup_date_random.random.spec_usage() == 0
        &&& self.fare_per_mile_random.random.spec_usage() == 0
        &&& self.tip_percent_random.random.spec_usage() == 0
        &&& self.trip_minutes_per_mile_random.random.spec_usage() == 0
    }

    /// Builds the iterator with every column advanced to `start_index`.  Key
    /// columns switch to wide two-draw values when the customer table passes
    /// thirty-thousand-squared rows, as the reference layout does.
    pub fn new(
        max_customer_key: i64,
        max_driver_key: i64,
        max_vehicle_key: i64,
        start_index: u64,
        row_count: u64,
    ) -> (r: Self)
        requires
            1 <= max_customer_key <= 0x1000_0000_0000,
            1 <= max_driver_key <= 0x1000_0000_0000,
            1 <= max_vehicle_key <= 0x1000_0000_0000,
            max_customer_key < 900_000_000 ==> max_driver_key < 2147483647 && max_vehicle_key
                < 2147483647,
            start_index + row_count <= MAX_START_INDEX,
        ensures
            r.wf(),
            r.synced(),
            r.start_index == start_index,
            r.row_count == row_count,
            r.index == 0,
            r.trip_number == 0,
            r.max_customer_key == max_customer_key,
            r.max_vehicle_key == max_vehicle_key,
            r.customer_key_random.use_64bits == (max_customer_key >= 900_000_000),
            r.driver_key_random.use_64bits == (max_customer_key >= 900_000_000),
            r.vehicle_key_random.use_64bits == (max_customer_key >= 900_000_000),
            r.driver_key_random.low == 1 && r.driver_key_random.high == max_driver_key,
    {
        let use_64bits = max_customer_key >= 900_000_000;
        let mut customer_key_random = RandomBoundedLong::new(
            921591341,
            use_64bits,
            1,
            max_customer_key,
        );
        let mut driver_key_random = RandomBoundedLong::new(572982913, use_64bits, 1, max_driver_key);
        let mut vehicle_key_random = RandomBoundedLong::new(
            135497281,
            use_64bits,
            1,
            max_vehicle_key,
        );
        let mut pickup_date_random = RandomBoundedInt::new(
            831649288,
            MIN_GENERATE_DATE as i32,
            MIN_GENERATE_DATE as i32 + TOTAL_DATE_RANGE as i32 - 1,
        );
        let mut pickup_time_random = RandomTimeOfDay::new(123456789);
        let mut fare_per_mile_random = RandomBoundedInt::new(
            109837462,
            FARE_MIN_PER_MILE,
            FARE_MAX_PER_MILE,
        );
        let mut tip_percent_random = RandomBoundedInt::new(
            483912756,
            TIP_PERCENT_MIN,
            TIP_PERCENT_MAX,
        );
        let mut trip_minutes_per_mile_random = RandomBoundedInt::new(748219567, 1, 3);
        customer_key_random.advance_rows(start_index);
        driver_key_random.advance_rows(start_index);
        vehicle_key_random.advance_rows(start_index);
        pickup_date_random.advance_rows(start_index);
        pickup_time_random.advance_rows(start_index);
        fare_per_mile_random.advance_rows(start_index);
        tip_percent_random.advance_rows(start_index);
        trip_minutes_per_mile_random.advance_rows(start_index);
        TripGeneratorIterator {
            customer_key_random,
            driver_key_random,
            vehicle_key_random,
            pickup_date_random,
            pickup_time_random,
            fare_per_mile_random,
            tip_percent_random,
            trip_minutes_per_mile_random,
            max_customer_key,
            max_vehicle_key,
            start_index,
            row_count,
            index: 0,
            trip_number: 0,
        }
    }

    /// Builds the trip with the given key from the current row's draws and
    /// the row's spatial observations, and finishes the row on every column.
    /// The customer key is never divisible by the mortality divisor, the
    /// driver key always lies in the selectable pool, the money fields follow
    /// the exact fixed-point formulas, and the dropoff is the pickup plus the
    /// distance-derived duration.
    #[verifier::rlimit(100)]
    pub fn make_trip(&mut self, trip_key: i64, spatial: &TripSpatialInput) -> (r: Trip)
        requires
            old(self).wf(),
            old(self).spec_position() < MAX_START_INDEX,
            0 <= spatial.distance_scaled <= MAX_DISTANCE_SCALED,
        ensures
            r.t_tripkey == trip_key,
            ({
                let row = old(self).spec_position();
                let raw = old(self).customer_key_random.spec_row_value(row);
                let d8 = spatial.distance_scaled as int;
                let fpm = old(self).fare_per_mile_random.spec_row_value(row);
                let tipp = old(self).tip_percent_random.spec_row_value(row);
                let (h, m, s) = old(self).pickup_time_random.spec_row_time(row);
                let day = old(self).pickup_date_random.spec_row_value(row);
                let ts = h * 3600 + m * 60 + s + spec_trip_duration(d8);
                &&& r.t_custkey == spec_mortality_adjust(raw, old(self).max_customer_key as int)
                &&& r.t_custkey % 3 != 0
                &&& 1 <= r.t_custkey <= old(self).max_customer_key
                &&& r.t_vehiclekey == old(self).vehicle_key_random.spec_row_value(row)
                &&& r.t_driverkey == (r.t_vehiclekey + old(self).trip_number as int * (old(
                    self,
                ).max_vehicle_key as int / DRIVERS_PER_VEHICLE as int + (r.t_vehiclekey - 1) / old(
                    self,
                ).max_vehicle_key as int)) % old(self).max_vehicle_key as int + 1
                &&& 1 <= r.t_driverkey <= old(self).max_vehicle_key
                &&& r.t_pickuptime.value == day
                &&& r.t_pickuptime.hour == h && r.t_pickuptime.minute == m && r.t_pickuptime.second
                    == s
                &&& r.t_fare.0 == d8 * fpm / 100_000_000
                &&& r.t_tip.0 == d8 * fpm * tipp / 10_000_000_000
                &&& r.t_totalamount.0 == d8 * fpm * (100 + tipp) / 10_000_000_000
                &&& r.t_distance.0 == d8 / 1_000_000
                &&& r.t_pickuploc == spatial.pickup
                &&& r.t_dropoffloc == spatial.dropoff
                &&& r.t_dropofftime.value == (if day + ts / 86400 < 94557 {
                    day + ts / 86400
                } else {
                    94557
                })
                &&& r.t_dropofftime.hour == (ts / 3600) % 24
                &&& r.t_dropofftime.minute == (ts % 3600) / 60
                &&& r.t_dropofftime.second == ts % 60
                &&& (day + ts / 86400 < 94557 ==> r.t_pickuptime.spec_total_seconds()
                    <= r.t_dropofftime.spec_total_seconds())
            }),
            final(self).wf(),
            final(self).spec_position() == old(self).spec_position() + 1,
            final(self).start_index == old(self).start_index,
            final(self).row_count == old(self).row_count,
            final(self).index == old(self).index,
            final(self).trip_number == old(self).trip_number,
            final(self).max_customer_key == old(self).max_customer_key,
            final(self).max_vehicle_key == old(self).max_vehicle_key,
            final(self).customer_key_random.use_64bits == old(self).customer_key_random.use_64bits,
            final(self).driver_key_random.use_64bits == old(self).driver_key_random.use_64bits,
            final(self).vehicle_key_random.use_64bits == old(self).vehicle_key_random.use_64bits,
    {
        let raw_customer_key = self.customer_key_random.next_value();
        let customer_key = adjust_customer_key(raw_customer_key, self.max_customer_key);
        let vehicle_key = self.vehicle_key_random.next_value();
        let driver_key = DriverGeneratorIterator::select_driver(
            vehicle_key,
            self.trip_number,
            self.max_vehicle_key,
        );
        let pickup_date_value = self.pickup_date_random.next_value();
        let pickup_time = self.pickup_time_random.next_value();
        let pickup_date = TPCHDate::new_with_time(pickup_date_value as u32, pickup_time);
        let d8 = spatial.distance_scaled;
        let fare_per_mile = self.fare_per_mile_random.next_value() as i64;
        let tip_percent = self.tip_percent_random.next_value() as i64;
        let (fare, tip, total) = trip_money(d8, fare_per_mile, tip_percent);
        let distance = TPCHDecimal(d8 / 1_000_000);
        let dropoff_date = dropoff_timestamp(&pickup_date, d8);
        let t = Trip {
            t_tripkey: trip_key,
            t_custkey: customer_key,
            t_driverkey: driver_key,
            t_vehiclekey: vehicle_key,
            t_pickuptime: pickup_date,
            t_dropofftime: dropoff_date,
            t_fare: TPCHDecimal(fare),
            t_tip: TPCHDecimal(tip),
            t_totalamount: TPCHDecimal(total),
            t_distance: distance,
            t_pickuploc: GeoPoint { x: spatial.pickup.x, y: spatial.pickup.y },
            t_dropoffloc: GeoPoint { x: spatial.dropoff.x, y: spatial.dropoff.y },
        };
        self.customer_key_random.row_finished();
        self.driver_key_random.row_finished();
        self.vehicle_key_random.row_finished();
        self.pickup_date_random.row_finished();
        self.pickup_time_random.row_finished();
        self.fare_per_mile_random.row_finished();
        self.tip_percent_random.row_finished();
        self.trip_minutes_per_mile_random.row_finished();
        t
    }

    /// The key of the next row to produce, or `None` when the partition is
    /// exhausted: the caller samples the spatial observations for this key.
    pub fn next_row_key(&self) -> (r: Option<i64>)
        requires
            self.wf(),
        ensures
            (r is Some) <==> self.index < self.row_count,
            r is Some ==> r.unwrap() == self.start_index + self.index + 1,
    {
        if self.index < self.row_count {
            Some((self.start_index + self.index + 1) as i64)
        } else {
            Option::None
        }
    }

    /// The next row of the partition built from the caller's spatial
    /// observations for its key, or `None` when the partition is exhausted.
    #[verifier::rlimit(100)]
    pub fn next(&mut self, spatial: &TripSpatialInput) -> (r: Option<Trip>)
        requires
            old(self).wf(),
            old(self).synced(),
            0 <= spatial.distance_scaled <= MAX_DISTANCE_SCALED,
        ensures
            final(self).wf(),
            final(self).synced(),
            (r is Some) <==> old(self).index < old(self).row_count,
            r is Some ==> ({
                let row = old(self).start_index + old(self).index;
                let t = r.unwrap();
                let raw = old(self).customer_key_random.spec_row_value(row as nat);
                let d8 = spatial.distance_scaled as int;
                let fpm = old(self).fare_per_mile_random.spec_row_value(row as nat);
                let tipp = old(self).tip_percent_random.spec_row_value(row as nat);
                let (h, m, s) = old(self).pickup_time_random.spec_row_time(row as nat);
                let day = old(self).pickup_date_random.spec_row_value(row as nat);
                let ts = h * 3600 + m * 60 + s + spec_trip_duration(d8);
                &&& t.t_tripkey == row + 1
                &&& t.t_custkey % 3 != 0
                &&& 1 <= t.t_custkey <= old(self).max_customer_key
                &&& t.t_custkey == spec_mortality_adjust(
                    raw,
                    old(self).max_customer_key as int,
                )
                &&& t.t_vehiclekey == old(self).vehicle_key_random.spec_row_value(row as nat)
                &&& t.t_driverkey == (t.t_vehiclekey + old(self).trip_number as int * (old(
                    self,
                ).max_vehicle_key as int / DRIVERS_PER_VEHICLE as int + (t.t_vehiclekey - 1) / old(
                    self,
                ).max_vehicle_key as int)) % old(self).max_vehicle_key as int + 1
                &&& 1 <= t.t_driverkey <= old(self).max_vehicle_key
                &&& t.t_pickuptime.value == day
                &&& t.t_pickuptime.hour == h && t.t_pickuptime.minute == m
                    && t.t_pickuptime.second == s
                &&& t.t_fare.0 == d8 * fpm / 100_000_000
                &&& t.t_tip.0 == d8 * fpm * tipp / 10_000_000_000
                &&& t.t_totalamount.0 == d8 * fpm * (100 + tipp) / 10_000_000_000
                &&& t.t_distance.0 == d8 / 1_000_000
                &&& t.t_pickuploc == spatial.pickup
                &&& t.t_dropoffloc == spatial.dropoff
                &&& t.t_dropofftime.value == (if day + ts / 86400 < 94557 {
                    day + ts / 86400
                } else {
                    94557
                })
                &&& t.t_dropofftime.hour == (ts / 3600) % 24
                &&& t.t_dropofftime.minute == (ts % 3600) / 60
                &&& t.t_dropofftime.second == ts % 60
                &&& (day + ts / 86400 < 94557 ==> t.t_pickuptime.spec_total_seconds()
                    <= t.t_dropofftime.spec_total_seconds())
                &&& final(self).index == old(self).index + 1
            }),
            r is None ==> final(self).index == old(self).index,
            final(self).start_index == old(self).start_index,
            final(self).row_count == old(self).row_count,
            final(self).trip_number == old(self).trip_number,
            final(self).max_customer_key == old(self).max_customer_key,
            final(self).max_vehicle_key == old(self).max_vehicle_key,
            final(self).customer_key_random.use_64bits == old(self).customer_key_random.use_64bits,
            final(self).driver_key_random.use_64bits == old(self).driver_key_random.use_64bits,
            final(self).vehicle_key_random.use_64bits == old(self).vehicle_key_random.use_64bits,
    {
        if self.index >= self.row_count {
            return Option::None;
        }
        let key = self.start_index + self.index + 1;
        let trip = self.make_trip(key as i64, spatial);
        self.index = self.index + 1;
        Some(trip)
    }
}


/// Rows of the building table per unit scale factor; the actual total grows
/// logarithmically with the scale factor and is handed in precomputed.
pub const BUILDING_SCALE_BASE: u64 = 20_000;

/// One row of the building table.
#[derive(Debug, Clone)]
pub struct Building {
    /// Primary key.
    pub b_buildingkey: i64,
    /// Building name: one word from the color pool.
    pub b_name: StringSequenceInstance,
    /// Boundary ring, closed on its first vertex.
    pub b_boundary: Vec<GeoPoint>,
}

/// Generator for the building table.
pub struct BuildingGenerator {
    /// Total rows of the table at the configured scale.
    pub total_row_count: u64,
    /// This partition, counted from one.
    pub part: u32,
    /// Number of partitions.
    pub part_count: u32,
    /// The reference pools.
    pub distributions: Distributions,
}

impl BuildingGenerator {
    /// Wraps the scale and pools for the building table.
    pub fn new(
        total_row_count: u64,
        part: u32,
        part_count: u32,
        distributions: Distributions,
    ) -> (r: Self)
        requires
            1 <= part <= part_count,
            total_row_count <= MAX_START_INDEX,
            distributions.wf(),
        ensures
            r.total_row_count == total_row_count,
            r.part == part,
            r.part_count == part_count,
            r.distributions == distributions,
            1 <= r.part <= r.part_count,
            r.total_row_count <= MAX_START_INDEX,
            r.distributions.wf(),
    {
        BuildingGenerator { total_row_count, part, part_count, distributions }
    }

    /// The number of rows this generator's partition holds.
    pub fn calculate_row_count(total_row_count: u64, part: u32, part_count: u32) -> (r: u64)
        requires
            1 <= part <= part_count,
        ensures
            r == spec_partition_row_count(total_row_count as nat, part as nat, part_count as nat),
    {
        GenerateUtils::calculate_row_count(total_row_count, part, part_count)
    }

    /// An iterator over this partition's rows.  Returns `None` exactly as
    /// [`BuildingGeneratorIterator::new`] does.
    pub fn iter(self) -> (r: Option<BuildingGeneratorIterator>)
        requires
            1 <= self.part <= self.part_count,
            self.total_row_count <= MAX_START_INDEX,
            self.distributions.wf(),
        ensures
            r is Some ==> r.unwrap().wf() && r.unwrap().synced() && r.unwrap().start_index
                == spec_start_index(
                self.total_row_count as nat,
                self.part as nat,
                self.part_count as nat,
            ) && r.unwrap().row_count == spec_partition_row_count(
                self.total_row_count as nat,
                self.part as nat,
                self.part_count as nat,
            ) && r.unwrap().index == 0 && r.unwrap().name_random.distribution
                == self.distributions.part_colors,
            (r is Some) <==> self.distributions.part_colors.spec_size() <= 128,
    {
        let start_index = GenerateUtils::calculate_start_index(
            self.total_row_count,
            self.part,
            self.part_count,
        );
        let row_count = GenerateUtils::calculate_row_count(
            self.total_row_count,
            self.part,
            self.part_count,
        );
        proof {
            crate::dates::lemma_partition_within(
                self.total_row_count as nat,
                self.part as nat,
                self.part_count as nat,
            );
        }
        BuildingGeneratorIterator::new(self.distributions, start_index, row_count)
    }
}

/// Iterator over one partition of the building table.
pub struct BuildingGeneratorIterator {
    /// Building name column, one color word per row.
    pub name_random: RandomStringSequence,
    /// First row index of the partition.
    pub start_index: u64,
    /// Rows in the partition.
    pub row_count: u64,
    /// Rows already produced.
    pub index: u64,
}

impl BuildingGeneratorIterator {
    /// The logical row the name column is parked at.
    pub open spec fn spec_position(self) -> nat {
        self.name_random.random.spec_rows()
    }

    /// The column is parked exactly at the next row to produce.
    pub open spec fn synced(self) -> bool {
        self.spec_position() == self.start_index + self.index
    }

    /// The name column is sound, between rows, with the fixed seed.
    pub open spec fn wf(self) -> bool {
        &&& self.name_random.wf()
        &&& self.name_random.random.spec_base() == 709314158
        &&& self.name_random.count == 1
        &&& self.start_index + self.row_count <= MAX_START_INDEX
        &&& self.index <= self.row_count
        &&& self.name_random.random.spec_usage() == 0
    }

    /// Builds the iterator with the name column advanced to `start_index`.
    /// Returns `None` exactly when the color pool's total weight is zero or
    /// too large.
    pub fn new(distributions: Distributions, start_index: u64, row_count: u64) -> (r: Option<Self>)
        requires
            distributions.wf(),
            start_index + row_count <= MAX_START_INDEX,
        ensures
            r is Some ==> r.unwrap().wf() && r.unwrap().synced() && r.unwrap().start_index
                == start_index && r.unwrap().row_count == row_count && r.unwrap().index == 0
                && r.unwrap().name_random.distribution == distributions.part_colors,
            (r is Some) <==> distributions.part_colors.spec_size() <= 128,
    {
        let name_random = RandomStringSequence::new(709314158, 1, distributions.part_colors);
        let mut name_random = match name_random {
            Some(c) => c,
            Option::None => {
                return Option::None;
            },
        };
        name_random.advance_rows(start_index);
        Some(BuildingGeneratorIterator { name_random, start_index, row_count, index: 0 })
    }

    /// Builds the building with the given key from the current row's name
    /// draw and the boundary ring sampled for this row, and finishes the row.
    pub fn make_building(&mut self, building_key: i64, boundary: Vec<GeoPoint>) -> (r: Building)
        requires
            old(self).wf(),
            ring_closed(boundary@),
        ensures
            r.b_buildingkey == building_key,
            r.b_boundary == boundary,
            ring_closed(r.b_boundary@),
            r.b_name.words@.len() == 1,
            r.b_name.words@[0]@ == sequence_word(
                old(self).name_random.distribution,
                709314158,
                old(self).spec_position(),
                1,
                0,
            ),
            final(self).wf(),
            final(self).spec_position() == old(self).spec_position() + 1,
            final(self).start_index == old(self).start_index,
            final(self).row_count == old(self).row_count,
            final(self).index == old(self).index,
            final(self).name_random.distribution == old(self).name_random.distribution,
    {
        let ghost pos = self.spec_position();
        let ghost dist = self.name_random.distribution;
        let name = self.name_random.next_value();
        proof {
            assert(name.words@[0]@ == sequence_word(dist, 709314158, pos, 1, 0));
        }
        let b = Building { b_buildingkey: building_key, b_name: name, b_boundary: boundary };
        self.name_random.row_finished();
        b
    }

    /// The key of the next row to produce, or `None` when the partition is
    /// exhausted: the caller samples the boundary ring for this key.
    pub fn next_row_key(&self) -> (r: Option<i64>)
        requires
            self.wf(),
        ensures
            (r is Some) <==> self.index < self.row_count,
            r is Some ==> r.unwrap() == self.start_index + self.index + 1,
    {
        if self.index < self.row_count {
            Some((self.start_index + self.index + 1) as i64)
        } else {
            Option::None
        }
    }

    /// The next row of the partition with the caller's boundary ring for its
    /// key, or `None` when the partition is exhausted.
    pub fn next(&mut self, boundary: Vec<GeoPoint>) -> (r: Option<Building>)
        requires
            old(self).wf(),
            old(self).synced(),
            ring_closed(boundary@),
        ensures
            final(self).wf(),
            final(self).synced(),
            (r is Some) <==> old(self).index < old(self).row_count,
            r is Some ==> ({
                let b = r.unwrap();
                &&& b.b_buildingkey == old(self).start_index + old(self).index + 1
                &&& b.b_boundary == boundary
                &&& ring_closed(b.b_boundary@)
                &&& b.b_name.words@.len() == 1
                &&& b.b_name.words@[0]@ == sequence_word(
                    old(self).name_random.distribution,
                    709314158,
                    (old(self).start_index + old(self).index) as nat,
                    1,
                    0,
                )
                &&& final(self).index == old(self).index + 1
            }),
            r is None ==> final(self).index == old(self).index,
            final(self).start_index == old(self).start_index,
            final(self).row_count == old(self).row_count,
            final(self).name_random.distribution == old(self).name_random.distribution,
    {
        if self.index >= self.row_count {
            return Option::None;
        }
        let key = self.start_index + self.index + 1;
        let building = self.make_building(key as i64, boundary);
        self.index = self.index + 1;
        Some(building)
    }
}

} // verus!
