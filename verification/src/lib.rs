//! A voting ledger: users stake reputation points to open timed polls
//! ("threads") inside named spaces, and other users stake points to cast a
//! single, irrevocable vote on one of a thread's choices.
//!
//! Every operation is verified against an abstract model of the ledger
//! (`LedgerView`): a failed operation changes nothing, a successful one
//! changes exactly what its contract names.

pub mod application;
pub mod error;
pub mod laws;
pub mod models;
pub mod rules;
pub mod table;
pub mod text;

pub use application::repository::{convert_title_to_id, convert_title_to_id_no_account};
pub use error::LedgerError;
pub use models::contract::{Ledger, ThreadScoreContract};
pub use models::space::{SpaceFeatures, SpaceId, SpaceMetadata};
pub use models::thread::{
    thread_state, ThreadFeatures, ThreadId, ThreadMetadata, ThreadState, Vote,
};
pub use models::user::{UserId, UserMetadata, UserRoles};
pub use rules::paging::page_bounds;
pub use rules::threads::{cast_vote, open_thread, CastVote, OpenedThread};
