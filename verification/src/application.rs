//! The operations of the ledger.

pub mod repository;
pub mod service;
