//! Parcel shipping classification.
//!
//! Given one rectangular parcel (three lengths and a weight) and an ordered
//! catalog of fixed-size shipping containers, the library decides whether the
//! parcel can ship, in which container, and at what cost. All quantities are
//! exact unsigned integers; the caller picks the unit (for instance
//! micrometers for lengths, grams for weights, cents for costs) and uses it
//! consistently, since the decision rests on comparisons alone.

pub mod core_logic;
pub mod dims;
pub mod packages;
pub mod parcel;
pub mod stuff;
