//! Users and their point balances.

use crate::error::LedgerError;
use crate::text::{clone_texts, texts};
use vstd::prelude::*;

verus! {

/// A user's account identifier.
pub type UserId = String;

/// Whether a user may open threads.
#[derive(Clone, Copy, Debug, PartialEq, Eq, Structural)]
pub enum UserRoles {
    Unverified,
    Verified,
}

/// What a user record stands for.
pub struct UserView {
    pub user_id: Seq<char>,
    pub role: UserRoles,
    pub total_point: nat,
    pub threads_owned: nat,
    pub threads_list: Seq<Seq<char>>,
}

/// A user: the role, the point balance, and the threads the user opened, in
/// the order in which they were opened.
#[derive(Debug, PartialEq, Eq)]
pub struct UserMetadata {
    pub user_id: UserId,
    pub role: UserRoles,
    pub total_point: u32,
    pub threads_owned: u64,
    pub threads_list: Vec<String>,
}

impl View for UserMetadata {
    type V = UserView;

    open spec fn view(&self) -> UserView {
        UserView {
            user_id: self.user_id@,
            role: self.role,
            total_point: self.total_point as nat,
            threads_owned: self.threads_owned as nat,
            threads_list: texts(self.threads_list@),
        }
    }
}

/// The record of a user who has opened no thread yet.
pub open spec fn new_user(user_id: Seq<char>, role: UserRoles, total_point: u32) -> UserView {
    UserView {
        user_id,
        role,
        total_point: total_point as nat,
        threads_owned: 0,
        threads_list: Seq::empty(),
    }
}

/// A user after `amount` points were taken from the balance.
pub open spec fn debited(u: UserView, amount: nat) -> UserView {
    UserView { total_point: (u.total_point - amount) as nat, ..u }
}

impl UserMetadata {
    /// The record of a user who has opened no thread yet.
    pub fn new(user_id: UserId, role: UserRoles, total_point: u32) -> (u: Self)
        ensures
            u@ == new_user(user_id@, role, total_point),
    {
        let u = UserMetadata { user_id, role, total_point, threads_owned: 0, threads_list: Vec::new() };
        assert(u@.threads_list =~= Seq::<Seq<char>>::empty());
        u
    }

    /// Takes `amount` points from the balance, which must exceed `amount`:
    /// nobody can spend their last point. Refused with
    /// `InsufficientBalance` otherwise, and then the record is unchanged.
    pub fn debit(&mut self, amount: u32) -> (r: Result<(), LedgerError>)
        ensures
            match r {
                Ok(_) => old(self).total_point > amount && final(self)@ == debited(
                    old(self)@,
                    amount as nat,
                ),
                Err(e) => {
                    &&& e == LedgerError::InsufficientBalance
                    &&& old(self).total_point <= amount
                    &&& *final(self) == *old(self)
                },
            },
    {
        if self.total_point > amount {
            self.total_point = self.total_point - amount;
            Ok(())
        } else {
            Err(LedgerError::InsufficientBalance)
        }
    }
}

impl Clone for UserMetadata {
    fn clone(&self) -> (r: Self)
        ensures
            r@ == self@,
    {
        UserMetadata {
            user_id: self.user_id.clone(),
            role: self.role,
            total_point: self.total_point,
            threads_owned: self.threads_owned,
            threads_list: clone_texts(&self.threads_list),
        }
    }
}

} // verus!
