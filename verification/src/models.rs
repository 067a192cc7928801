//! The records of the ledger and their mathematical views.

pub mod contract;
pub mod space;
pub mod thread;
pub mod user;
