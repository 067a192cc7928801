//! The rules of the ledger, stated over its abstract model: when an
//! operation is refused, what a successful one changes, and why it keeps
//! the ledger consistent.

pub mod paging;
pub mod spaces;
pub mod threads;
pub mod users;
