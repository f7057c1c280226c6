//! Requests to the oracle contract.

use crate::oracle::state::{Measurement, R3};
use vstd::prelude::*;

verus! {

#[derive(Debug, Clone, PartialEq, Eq)]
pub struct InstantiateMsg {
    pub oracles: Vec<String>,
    /// How many oracles must approve for a result to be valid.
    pub required_weight: u64,
    /// How many seconds lie between the creation of a job and the last result.
    pub max_waiting_period: u64,
}

#[derive(Debug, Clone, PartialEq, Eq)]
pub enum ExecuteMsg {
    /// Creates a new job, whose number the response carries so that the
    /// caller can ask for it later.
    CreateJob {
        /// The approximate time that data is wanted for, in seconds.
        data_time: u64,
        /// The metric of interest.
        metric: String,
        /// The cells to provide data for.
        hexes: Vec<R3>,
        /// The level of the cells (0-15).
        resolution: u32,
    },
    /// Sent by an oracle once it has done the work.
    SubmitResult {
        job: u64,
        /// All of the one metric that was asked for.
        measurements: Vec<Measurement>,
    },
    /// Sent by anyone once enough data is there.
    TallyResult { job: u64 },
}

#[derive(Debug, Clone, PartialEq, Eq)]
pub enum QueryMsg {
    /// Information on the job, and how many votes are in.
    QueryJob { id: u64 },
    /// The jobs that need results, for the oracles to ask.
    ListPendingJobs { start_after: Option<u64>, limit: Option<u32> },
}

} // verus!
