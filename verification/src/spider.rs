//! Spatial distribution configuration.
//!
//! A [`SpatialConfig`] is a plain value object naming one of the seven point
//! processes, the geometry kind built around each sampled point, and every
//! numeric parameter.  Fractional parameters are held as signed billionths
//! (an exact scaled-integer form), so the configuration itself carries no
//! floating point; the sampling stage divides by one billion when it needs a
//! real number.  [`spider_seed_for_index`] is the avalanche hash that turns a
//! row index and a configuration seed into the per-row seed every sampler
//! starts from.

use vstd::prelude::*;

verus! {

/// One billion: the denominator of every scaled fractional parameter here.
pub const PARAM_SCALE: i64 = 1_000_000_000;

/// The per-row seed for `index` under `global_seed`: an avalanche hash (an
/// add of the golden-ratio constant followed by two shift-xor-multiply
/// rounds), all in wrapping 64-bit arithmetic.
pub open spec fn spider_seed_spec(index: u64, global_seed: u64) -> u64 {
    let z0 = index.wrapping_add(global_seed).wrapping_add(0x9E3779B97F4A7C15);
    let z1 = (z0 ^ (z0 >> 30)).wrapping_mul(0xBF58476D1CE4E5B9);
    let z2 = (z1 ^ (z1 >> 27)).wrapping_mul(0x94D049BB133111EB);
    z2 ^ (z2 >> 31)
}

/// The per-row seed for `index` under `global_seed`.  Equal inputs give equal
/// seeds on every machine, which makes every sampled point reproducible.
pub fn spider_seed_for_index(index: u64, global_seed: u64) -> (r: u64)
    ensures
        r == spider_seed_spec(index, global_seed),
{
    let z0 = index.wrapping_add(global_seed).wrapping_add(0x9E3779B97F4A7C15);
    let z1 = (z0 ^ (z0 >> 30)).wrapping_mul(0xBF58476D1CE4E5B9);
    let z2 = (z1 ^ (z1 >> 27)).wrapping_mul(0x94D049BB133111EB);
    z2 ^ (z2 >> 31)
}

/// The seven point processes.
#[derive(Debug, Clone, Copy, PartialEq, Eq, Structural)]
pub enum DistributionType {
    /// Two independent uniform draws.
    Uniform,
    /// Independent normal draws, clamped to the unit square.
    Normal,
    /// Points on or near the main diagonal.
    Diagonal,
    /// The iterated-function-system triangle attractor.
    Sierpinski,
    /// Sums of probability-weighted binary digits.
    Bit,
    /// A Pareto-weighted cluster process around deterministic parents.
    Thomas,
    /// A two-level city/subcluster variant of the cluster process.
    HierThomas,
}

/// The geometry built around a sampled point.
#[derive(Debug, Clone, Copy, PartialEq, Eq, Structural)]
pub enum GeomType {
    /// A closed ring of sorted-angle vertices.
    Polygon,
    /// A closed axis-aligned rectangle ring.
    Box,
    /// The point itself.
    Point,
}

/// The distribution-specific parameters, fractional values in billionths.
#[derive(Debug, Clone, Copy, PartialEq, Eq, Structural)]
pub enum DistributionParams {
    /// The distribution takes no parameters.
    NoParams,
    /// Normal parameters.
    Normal {
        /// Mean, in billionths.
        mu: i64,
        /// Standard deviation, in billionths.
        sigma: i64,
    },
    /// Diagonal parameters.
    Diagonal {
        /// Share of points exactly on the diagonal, in billionths.
        percentage: i64,
        /// Width of the band around the diagonal, in billionths.
        buffer: i64,
    },
    /// Bit parameters.
    Bit {
        /// Probability of each binary digit, in billionths.
        probability: i64,
        /// Number of binary digits summed per axis.
        digits: u32,
    },
    /// Cluster-process parameters.
    Thomas {
        /// Number of parent centers.
        parents: u32,
        /// Mean offspring per parent, in billionths.
        mean_offspring: i64,
        /// Offset spread around a parent, in billionths.
        sigma: i64,
        /// Pareto tail parameter for parent weights, in billionths.
        pareto_alpha: i64,
        /// Pareto scale parameter for parent weights, in billionths.
        pareto_xm: i64,
    },
    /// Two-level cluster-process parameters.
    HierThomas {
        /// Number of city centers.
        cities: u32,
        /// Mean subclusters per city, in billionths.
        sub_mean: i64,
        /// Spread of the subcluster count, in billionths.
        sub_sd: i64,
        /// Smallest subcluster count per city.
        sub_min: u32,
        /// Largest subcluster count per city.
        sub_max: u32,
        /// Spread of subcluster centers around their city, in billionths.
        sigma_city: i64,
        /// Spread of final points around their subcluster, in billionths.
        sigma_sub: i64,
        /// Pareto tail parameter for city weights, in billionths.
        pareto_alpha_city: i64,
        /// Pareto scale parameter for city weights, in billionths.
        pareto_xm_city: i64,
        /// Pareto tail parameter for subcluster weights, in billionths.
        pareto_alpha_sub: i64,
        /// Pareto scale parameter for subcluster weights, in billionths.
        pareto_xm_sub: i64,
    },
}

/// A full spatial configuration: immutable once constructed.
#[derive(Debug, Clone, Copy, PartialEq, Eq, Structural)]
pub struct SpatialConfig {
    /// The point process.
    pub dist_type: DistributionType,
    /// The geometry kind built around each point.
    pub geom_type: GeomType,
    /// Dimensionality of the sampled space.
    pub dim: i32,
    /// The configuration seed every per-row seed derives from.
    pub seed: u32,
    /// Largest box width, in billionths.
    pub width: i64,
    /// Largest box height, in billionths.
    pub height: i64,
    /// Largest polygon segment count.
    pub maxseg: i32,
    /// Polygon radius, in billionths.
    pub polysize: i64,
    /// The distribution-specific parameters.
    pub params: DistributionParams,
}

/// The stock configurations for the generated tables.
pub struct SpatialDefaults;

impl SpatialDefaults {
    /// The trip pickup configuration: bit-distributed points.
    pub fn trip_default() -> (r: SpatialConfig)
        ensures
            r.dist_type == DistributionType::Bit,
            r.geom_type == GeomType::Point,
            r.dim == 2,
            r.seed == 56789,
            r.width == 0 && r.height == 0 && r.maxseg == 0 && r.polysize == 0,
            r.params == (DistributionParams::Bit { probability: 350_000_000, digits: 30 }),
    {
        SpatialConfig {
            dist_type: DistributionType::Bit,
            geom_type: GeomType::Point,
            dim: 2,
            seed: 56789,
            width: 0,
            height: 0,
            maxseg: 0,
            polysize: 0,
            params: DistributionParams::Bit { probability: 350_000_000, digits: 30 },
        }
    }

    /// The building boundary configuration: polygons around points of the
    /// triangle attractor.
    pub fn building_default() -> (r: SpatialConfig)
        ensures
            r.dist_type == DistributionType::Sierpinski,
            r.geom_type == GeomType::Polygon,
            r.dim == 2,
            r.seed == 12345,
            r.width == 0 && r.height == 0,
            r.maxseg == 5,
            r.polysize == 39_000,
            r.params == DistributionParams::NoParams,
    {
        SpatialConfig {
            dist_type: DistributionType::Sierpinski,
            geom_type: GeomType::Polygon,
            dim: 2,
            seed: 12345,
            width: 0,
            height: 0,
            maxseg: 5,
            polysize: 39_000,
            params: DistributionParams::NoParams,
        }
    }
}

/// Ready-made configurations over the whole world map.
pub struct SpiderPresets;

impl SpiderPresets {
    /// Uniform points.
    pub fn for_trip_pickups() -> (r: SpatialConfig)
        ensures
            r.dist_type == DistributionType::Uniform,
            r.geom_type == GeomType::Point,
            r.dim == 2,
            r.seed == 42,
            r.params == DistributionParams::NoParams,
    {
        SpatialConfig {
            dist_type: DistributionType::Uniform,
            geom_type: GeomType::Point,
            dim: 2,
            seed: 42,
            width: 0,
            height: 0,
            maxseg: 0,
            polysize: 0,
            params: DistributionParams::NoParams,
        }
    }

    /// Points on or near the main diagonal.
    pub fn for_trip_pickups2() -> (r: SpatialConfig)
        ensures
            r.dist_type == DistributionType::Diagonal,
            r.geom_type == GeomType::Point,
            r.dim == 2,
            r.seed == 42,
            r.params == (DistributionParams::Diagonal {
                percentage: 500_000_000,
                buffer: 500_000_000,
            }),
    {
        SpatialConfig {
            dist_type: DistributionType::Diagonal,
            geom_type: GeomType::Point,
            dim: 2,
            seed: 42,
            width: 0,
            height: 0,
            maxseg: 0,
            polysize: 0,
            params: DistributionParams::Diagonal {
                percentage: 500_000_000,
                buffer: 500_000_000,
            },
        }
    }

    /// Points of the triangle attractor.
    pub fn for_trip_pickups3() -> (r: SpatialConfig)
        ensures
            r.dist_type == DistributionType::Sierpinski,
            r.geom_type == GeomType::Point,
            r.dim == 2,
            r.seed == 42,
            r.params == DistributionParams::NoParams,
    {
        SpatialConfig {
            dist_type: DistributionType::Sierpinski,
            geom_type: GeomType::Point,
            dim: 2,
            seed: 42,
            width: 0,
            height: 0,
            maxseg: 0,
            polysize: 0,
            params: DistributionParams::NoParams,
        }
    }

    /// Bit-distributed points.
    pub fn for_trip_pickups4() -> (r: SpatialConfig)
        ensures
            r.dist_type == DistributionType::Bit,
            r.geom_type == GeomType::Point,
            r.dim == 2,
            r.seed == 42,
            r.params == (DistributionParams::Bit { probability: 200_000_000, digits: 10 }),
    {
        SpatialConfig {
            dist_type: DistributionType::Bit,
            geom_type: GeomType::Point,
            dim: 2,
            seed: 42,
            width: 0,
            height: 0,
            maxseg: 0,
            polysize: 0,
            params: DistributionParams::Bit { probability: 200_000_000, digits: 10 },
        }
    }

    /// Normally distributed points.
    pub fn for_trip_pickups5() -> (r: SpatialConfig)
        ensures
            r.dist_type == DistributionType::Normal,
            r.geom_type == GeomType::Point,
            r.dim == 2,
            r.seed == 42,
            r.params == (DistributionParams::Normal { mu: 500_000_000, sigma: 100_000_000 }),
    {
        SpatialConfig {
            dist_type: DistributionType::Normal,
            geom_type: GeomType::Point,
            dim: 2,
            seed: 42,
            width: 0,
            height: 0,
            maxseg: 0,
            polysize: 0,
            params: DistributionParams::Normal { mu: 500_000_000, sigma: 100_000_000 },
        }
    }

    /// Bit-distributed small boxes for building boundaries.
    pub fn for_building_polygons() -> (r: SpatialConfig)
        ensures
            r.dist_type == DistributionType::Bit,
            r.geom_type == GeomType::Box,
            r.dim == 2,
            r.seed == 12345,
            r.width == 50_000,
            r.height == 100_000,
            r.params == (DistributionParams::Bit { probability: 500_000_000, digits: 20 }),
    {
        SpatialConfig {
            dist_type: DistributionType::Bit,
            geom_type: GeomType::Box,
            dim: 2,
            seed: 12345,
            width: 50_000,
            height: 100_000,
            maxseg: 0,
            polysize: 0,
            params: DistributionParams::Bit { probability: 500_000_000, digits: 20 },
        }
    }
}

/// The six-parameter affine maps from the unit square onto each continent's
/// bounding box, in billionths of a degree.
#[derive(Debug, Clone, Copy)]
pub struct ContinentAffines {
    /// Africa.
    pub africa: [i64; 6],
    /// Europe.
    pub europe: [i64; 6],
    /// Southern Asia.
    pub south_asia: [i64; 6],
    /// Northern Asia.
    pub north_asia: [i64; 6],
    /// Oceania.
    pub oceania: [i64; 6],
    /// South America.
    pub south_america: [i64; 6],
    /// The southern half of North America.
    pub south_north_america: [i64; 6],
    /// The northern half of North America.
    pub north_north_america: [i64; 6],
}

impl ContinentAffines {
    /// The stock continent maps.
    pub fn default() -> (r: ContinentAffines)
        ensures
            r.africa@ == seq![
                84_194_319_000i64,
                0i64,
                -20_062_752_000i64,
                0i64,
                -77_623_846_000i64,
                37_579_421_000i64,
            ],
            r.europe@ == seq![
                76_108_853_000i64,
                0i64,
                -11_964_479_000i64,
                0i64,
                33_901_968_000i64,
                37_926_872_000i64,
            ],
            r.south_asia@ == seq![
                80_942_556_000i64,
                0i64,
                64_583_540_000i64,
                0i64,
                -61_381_606_000i64,
                51_672_557_000i64,
            ],
            r.north_asia@ == seq![
                114_339_049_000i64,
                0i64,
                64_495_655_000i64,
                0i64,
                25_952_988_000i64,
                51_944_267_000i64,
            ],
            r.oceania@ == seq![
                68_287_041_000i64,
                0i64,
                112_481_901_000i64,
                0i64,
                -38_751_779_000i64,
                -10_228_433_000i64,
            ],
            r.south_america@ == seq![
                49_929_480_000i64,
                0i64,
                -83_833_822_000i64,
                0i64,
                -68_381_204_000i64,
                12_211_188_000i64,
            ],
            r.south_north_america@ == seq![
                55_379_532_000i64,
                0i64,
                -124_890_724_000i64,
                0i64,
                -30_170_149_000i64,
                42_553_080_000i64,
            ],
            r.north_north_america@ == seq![
                114_424_763_000i64,
                0i64,
                -166_478_008_000i64,
                0i64,
                -29_977_954_300i64,
                72_659_041_000i64,
            ],
    {
        ContinentAffines {
            africa: [84_194_319_000, 0, -20_062_752_000, 0, -77_623_846_000, 37_579_421_000],
            europe: [76_108_853_000, 0, -11_964_479_000, 0, 33_901_968_000, 37_926_872_000],
            south_asia: [80_942_556_000, 0, 64_583_540_000, 0, -61_381_606_000, 51_672_557_000],
            north_asia: [114_339_049_000, 0, 64_495_655_000, 0, 25_952_988_000, 51_944_267_000],
            oceania: [68_287_041_000, 0, 112_481_901_000, 0, -38_751_779_000, -10_228_433_000],
            south_america: [
                49_929_480_000,
                0,
                -83_833_822_000,
                0,
                -68_381_204_000,
                12_211_188_000,
            ],
            south_north_america: [
                55_379_532_000,
                0,
                -124_890_724_000,
                0,
                -30_170_149_000,
                42_553_080_000,
            ],
            north_north_america: [
                114_424_763_000,
                0,
                -166_478_008_000,
                0,
                -29_977_954_300,
                72_659_041_000,
            ],
        }
    }
}

} // verus!
