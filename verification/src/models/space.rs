//! Spaces: named groups of threads, with followers.

use crate::application::repository::space_id_of;
use crate::error::LedgerError;
use crate::models::contract::{index_or_empty, Ledger};
use crate::models::thread::ThreadId;
use crate::models::user::UserId;
use crate::rules::paging::{page, page_limit, page_start, records_of};
use crate::application::repository::convert_title_to_id_no_account;
use crate::rules::spaces::{after_create_space, after_follow_space, followers_with, new_space};
use crate::text::holds_text;
use crate::text::{clone_texts, texts};
use vstd::prelude::*;

verus! {

/// A space's identifier.
pub type SpaceId = String;

/// What a space record stands for.
pub struct SpaceView {
    pub space_id: Seq<char>,
    pub space_name: Seq<char>,
    pub creator_id: Seq<char>,
    pub created_at: u64,
    pub followed_users: Seq<Seq<char>>,
    pub total_point: u64,
}

/// A space: its identifier and name, who created it and when, and its
/// followers in the order in which they followed, each once.
#[derive(Debug, PartialEq, Eq)]
pub struct SpaceMetadata {
    pub space_id: SpaceId,
    pub space_name: String,
    pub creator_id: UserId,
    pub created_at: u64,
    pub followed_users: Vec<UserId>,
    pub total_point: u64,
}

impl View for SpaceMetadata {
    type V = SpaceView;

    open spec fn view(&self) -> SpaceView {
        SpaceView {
            space_id: self.space_id@,
            space_name: self.space_name@,
            creator_id: self.creator_id@,
            created_at: self.created_at,
            followed_users: texts(self.followed_users@),
            total_point: self.total_point,
        }
    }
}

impl SpaceMetadata {
    /// The record of the space that `caller` creates at time `now` under
    /// `space_name`: its identifier is derived from the name, and it has no
    /// followers.
    pub fn new(caller: UserId, now: u64, space_name: String) -> (sp: Self)
        ensures
            sp@ == new_space(caller@, now, space_name@),
    {
        let sp = SpaceMetadata {
            space_id: convert_title_to_id_no_account(&space_name),
            space_name,
            creator_id: caller,
            created_at: now,
            followed_users: Vec::new(),
            total_point: 0,
        };
        assert(sp@.followed_users =~= Seq::<Seq<char>>::empty());
        sp
    }

    /// Lists `caller` as the newest follower, unless `caller` follows the
    /// space already.
    pub fn follow(&mut self, caller: UserId)
        ensures
            final(self)@ == (SpaceView {
                followed_users: followers_with(old(self)@.followed_users, caller@),
                ..old(self)@
            }),
    {
        if !holds_text(&self.followed_users, &caller) {
            let ghost before = texts(self.followed_users@);
            self.followed_users.push(caller);
            assert(texts(self.followed_users@) =~= before.push(caller@));
        }
    }
}

impl Clone for SpaceMetadata {
    fn clone(&self) -> (r: Self)
        ensures
            r@ == self@,
    {
        SpaceMetadata {
            space_id: self.space_id.clone(),
            space_name: self.space_name.clone(),
            creator_id: self.creator_id.clone(),
            created_at: self.created_at,
            followed_users: clone_texts(&self.followed_users),
            total_point: self.total_point,
        }
    }
}

/// What each space of a list stands for.
pub open spec fn space_views(v: Seq<SpaceMetadata>) -> Seq<SpaceView> {
    Seq::new(v.len(), |i: int| v[i]@)
}

/// What `follow_space` returns when the space exists.
pub open spec fn follow_marker() -> Seq<char> {
    "OK"@
}

/// The operations on spaces. The caller's identity and the current time in
/// milliseconds are arguments of the operations that depend on them.
pub trait SpaceFeatures: Ledger {
    /// Creates the space called `space_name`, with `caller` as its creator
    /// and without followers, and returns its record. Refused with
    /// `AlreadyExists` where a space has the identifier derived from the
    /// name.
    fn create_space(&mut self, caller: UserId, now: u64, space_name: String) -> (r: Result<
        SpaceMetadata,
        LedgerError,
    >)
        requires
            old(self).well_formed(),
        ensures
            final(self).well_formed(),
            match r {
                Ok(sp) => {
                    &&& !old(self)@.spaces.contains_key(space_id_of(space_name@))
                    &&& sp@ == new_space(caller@, now, space_name@)
                    &&& final(self)@ == after_create_space(old(self)@, sp@)
                },
                Err(e) => {
                    &&& e == LedgerError::AlreadyExists
                    &&& old(self)@.spaces.contains_key(space_id_of(space_name@))
                    &&& final(self)@ == old(self)@
                },
            },
    ;

    /// The record of the space `space_id`, if there is one.
    fn get_space_metadata_by_space_id(&self, space_id: SpaceId) -> (r: Option<SpaceMetadata>)
        requires
            self.well_formed(),
        ensures
            match r {
                Some(sp) => self@.spaces.contains_key(space_id@) && sp@ == self@.spaces[space_id@],
                None => !self@.spaces.contains_key(space_id@),
            },
    ;

    /// The threads of the space `space_id`, oldest first; none where no
    /// thread was opened in it.
    fn get_all_threads_of_space_by_space_id(&self, space_id: SpaceId) -> (r: Vec<ThreadId>)
        requires
            self.well_formed(),
        ensures
            texts(r@) == index_or_empty(self@.threads_per_space, space_id@),
    ;

    /// A page of the spaces in the order of their creation: it skips
    /// `from_index` spaces (none by default) and holds up to `limit` of the
    /// following ones (five by default).
    fn get_all_spaces(&self, from_index: Option<u32>, limit: Option<u32>) -> (r: Vec<
        SpaceMetadata,
    >)
        requires
            self.well_formed(),
        ensures
            space_views(r@) == records_of(
                page(self@.space_order, page_start(from_index), page_limit(limit)),
                self@.spaces,
            ),
    ;

    /// Makes `caller` a follower of the space `space_id` and returns the
    /// marker `"OK"`; a caller who follows the space already stays listed
    /// once. Returns `None`, and changes nothing, where there is no such
    /// space.
    fn follow_space(&mut self, caller: UserId, space_id: String) -> (r: Option<String>)
        requires
            old(self).well_formed(),
        ensures
            final(self).well_formed(),
            match r {
                Some(marker) => {
                    &&& marker@ == follow_marker()
                    &&& old(self)@.spaces.contains_key(space_id@)
                    &&& final(self)@ == after_follow_space(old(self)@, caller@, space_id@)
                },
                None => {
                    &&& !old(self)@.spaces.contains_key(space_id@)
                    &&& final(self)@ == old(self)@
                },
            },
    ;

    /// The followers of the space `space_id`, in the order in which they
    /// followed; none where there is no such space.
    fn get_followed_user_of_space_by_space_id(&self, space_id: SpaceId) -> (r: Vec<UserId>)
        requires
            self.well_formed(),
        ensures
            texts(r@) == if self@.spaces.contains_key(space_id@) {
                self@.spaces[space_id@].followed_users
            } else {
                Seq::empty()
            },
    ;
}

} // verus!
