//! Registering and reading users.

use crate::models::contract::{Ledger, ThreadScoreContract};
use crate::models::user::{UserId, UserMetadata, UserRoles};
use crate::models::user::new_user;
use crate::rules::users::{after_register_user, lemma_register_user_keeps_well_formed};
use vstd::prelude::*;

verus! {

impl ThreadScoreContract {
    /// Registers `user_id` with a role and a balance, and says whether it
    /// did: a user who is registered already stays as they are.
    pub fn register_user(&mut self, user_id: UserId, role: UserRoles, total_point: u32) -> (r: bool)
        requires
            old(self).well_formed(),
        ensures
            final(self).well_formed(),
            r == !old(self)@.users.contains_key(user_id@),
            final(self)@ == if r {
                after_register_user(old(self)@, new_user(user_id@, role, total_point))
            } else {
                old(self)@
            },
    {
        if self.user_metadata_by_id.contains(&user_id) {
            return false;
        }
        let user = UserMetadata::new(user_id.clone(), role, total_point);
        proof {
            lemma_register_user_keeps_well_formed(self@, user_id@, role, total_point);
        }
        self.user_metadata_by_id.insert(user_id, user);
        true
    }

    /// The record of the user `user_id`, if there is one.
    pub fn get_user_metadata_by_user_id(&self, user_id: UserId) -> (r: Option<UserMetadata>)
        requires
            self.well_formed(),
        ensures
            match r {
                Some(u) => self@.users.contains_key(user_id@) && u@ == self@.users[user_id@],
                None => !self@.users.contains_key(user_id@),
            },
    {
        match self.user_metadata_by_id.get(&user_id) {
            Some(u) => Some(u.clone()),
            None => None,
        }
    }
}

} // verus!
