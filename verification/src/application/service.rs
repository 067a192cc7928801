//! The operations, by the kind of record they work on.

pub mod impl_space;
pub mod impl_thread;
pub mod impl_user;
