//! The oracle contract, which is to tally the measurements that several
//! oracles send for one job. So far it consists of its messages and its state.

pub mod msg;
pub mod state;
