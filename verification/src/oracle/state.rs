//! What the oracle contract keeps.

use vstd::prelude::*;

verus! {

#[derive(Debug, Clone, PartialEq, Eq)]
pub struct Config {
    pub oracles: Vec<String>,
    /// How many oracles must approve for a result to be valid.
    pub required_weight: u64,
    /// How many seconds lie between the creation of a job and the last result.
    pub max_waiting_period: u64,
}

#[derive(Debug, Clone, Copy, PartialEq, Eq)]
pub struct Measurement {
    /// When this measurement was taken; most measurements are of slightly
    /// different times.
    pub time: u64,
    /// The location, as its index.
    pub hex: R3,
    /// The value, in atomic units of a decimal with 18 fractional digits.
    pub val: u128,
}

#[derive(Debug, Clone, PartialEq, Eq)]
pub struct JobResult {
    pub metric: String,
    pub measurements: Vec<Measurement>,
    /// When this was tallied, in Unix seconds UTC.
    pub tally_time: u64,
}

/// The index of a cell as a number.
#[derive(Debug, Clone, Copy, PartialEq, Eq)]
pub struct R3(pub u64);

} // verus!
