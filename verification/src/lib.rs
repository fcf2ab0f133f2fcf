//! Deterministic generator for a ride-hailing style benchmark dataset.
//!
//! The crate produces the rows of five related tables (vehicles, drivers,
//! customers, trips and buildings) at an arbitrary scale, split into any
//! number of partitions whose concatenation is identical to a
//! single-partition run.  Every value is a pure function of the table, the
//! row index and a fixed per-column seed, so any partition can be generated
//! independently and in parallel.
//!
//! The heart of the crate is a seekable pseudorandom engine
//! ([`random::RowRandomInt`]) built on a linear congruential generator whose
//! state for row `n` is computed in logarithmic time, never by replaying the
//! first `n` rows.  On top of it sit bounded integer draws, weighted pool
//! picks, alphanumeric strings, phone numbers and pooled text
//! ([`random`]), the calendar and partition arithmetic ([`dates`]),
//! fixed-point money ([`decimal`]), weighted reference pools
//! ([`distribution`]), scaled spatial configuration ([`spider`]), integer
//! geometry rings ([`geometry`]), the per-table row generators
//! ([`generators`]) and the zone reference-table arithmetic ([`zones`]).

pub mod dates;
pub mod decimal;
pub mod distribution;
pub mod fmt;
pub mod generators;
pub mod geometry;
pub mod random;
pub mod spider;
pub mod zones;
