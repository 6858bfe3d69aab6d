use vstd::prelude::*;
use ink_env::AccountId;
use ink_storage::Mapping;

use crate::account_index::empty_account_index;
use crate::record::{sentinel_user, Error, Error2, User, UserView};

verus! {

/// The record stored at identifier `idx` of a store holding `records`, where
/// the record at position `i` carries identifier `i`.
pub open spec fn lookup(records: Seq<UserView>, idx: u32) -> Option<UserView> {
    if (idx as int) < records.len() {
        Some(records[idx as int])
    } else {
        None
    }
}

/// What `get_user` hands out: the stored record, or the sentinel user.
pub open spec fn user_or_sentinel(records: Seq<UserView>, idx: u32) -> UserView {
    match lookup(records, idx) {
        Some(u) => u,
        None => sentinel_user(),
    }
}

/// What `get_user_by_result` hands out: the stored record, or `NotFound`.
pub open spec fn user_or_not_found(records: Seq<UserView>, idx: u32) -> Result<UserView, Error> {
    match lookup(records, idx) {
        Some(u) => Ok(u),
        None => Err(Error::NotFound),
    }
}

/// The value of an optional user.
pub open spec fn option_view(o: Option<User>) -> Option<UserView> {
    match o {
        Some(u) => Some(u@),
        None => None,
    }
}

/// The value of a fallible user lookup.
pub open spec fn result_view(r: Result<User, Error>) -> Result<UserView, Error> {
    match r {
        Ok(u) => Ok(u@),
        Err(e) => Err(e),
    }
}

/// The contract state: users keyed by a dense identifier, the counter that
/// hands out the next identifier, and an index from accounts to numbers
/// that no operation reads or writes.
pub struct AdvCases {
    users: Vec<User>,
    users_num: u32,
    users_by_account: Mapping<AccountId, u64>,
}

impl View for AdvCases {
    type V = Seq<UserView>;

    /// The stored users, in order of their identifiers.
    closed spec fn view(&self) -> Seq<UserView> {
        self.users@.map_values(|u: User| u@)
    }
}

impl AdvCases {
    /// The counter equals the number of stored users, so identifiers run
    /// densely from zero.
    pub closed spec fn wf(&self) -> bool {
        self.users@.len() == self.users_num as nat
    }

    /// An empty store whose next identifier is zero.
    pub fn default() -> (r: Self)
        ensures
            r.wf(),
            r@ == Seq::<UserView>::empty(),
    {
        let r = AdvCases { users: Vec::new(), users_num: 0, users_by_account: empty_account_index() };
        assert(r@ =~= Seq::<UserView>::empty());
        r
    }

    /// The identifier that the next `add` assigns, which is also the number
    /// of users stored so far.
    pub fn users_num(&self) -> (r: u32)
        requires
            self.wf(),
        ensures
            r as nat == self@.len(),
    {
        self.users_num
    }

    /// Stores `user` under the next identifier and advances the counter.
    pub fn add(&mut self, user: User)
        requires
            old(self).wf(),
            old(self)@.len() < u32::MAX,
        ensures
            final(self).wf(),
            final(self)@ == old(self)@.push(user@),
    {
        self.users.push(user);
        self.users_num = self.users_num + 1;
        assert(self@ =~= old(self)@.push(user@));
    }

    /// The user stored at `idx`, if there is one.
    fn get(&self, idx: u32) -> (r: Option<User>)
        requires
            self.wf(),
        ensures
            option_view(r) == lookup(self@, idx),
    {
        if (idx as usize) < self.users.len() {
            Some(self.users[idx as usize].duplicate())
        } else {
            None
        }
    }

    /// The user stored at `idx`, or the sentinel user when there is none.
    pub fn get_user(&self, idx: u32) -> (r: User)
        requires
            self.wf(),
        ensures
            r@ == user_or_sentinel(self@, idx),
    {
        match self.get(idx) {
            None => User::sentinel(),
            Some(user) => user,
        }
    }

    /// Four integers of different widths and signs, always the same.
    pub fn get_integers(&self) -> (r: (u8, u128, i8, i128))
        ensures
            r == (1u8, 2u128, -3i8, 4i128),
    {
        (1, 2, -3, 4)
    }

    /// The user stored at `idx`, or `NotFound` when there is none.
    pub fn get_user_by_result(&self, idx: u32) -> (r: Result<User, Error>)
        requires
            self.wf(),
        ensures
            result_view(r) == user_or_not_found(self@, idx),
    {
        match self.get(idx) {
            Some(user) => Ok(user),
            None => Err(Error::NotFound),
        }
    }

    /// An empty list, whatever `text` holds.
    pub fn get_array(&self, text: String) -> (r: Vec<u64>)
        ensures
            r@ == Seq::<u64>::empty(),
    {
        Vec::new()
    }

    /// The number ten paired with `text`, unchanged.
    pub fn get_tuple(&self, text: String) -> (r: (u64, String))
        ensures
            r.0 == 10,
            r.1 == text,
    {
        (10, text)
    }

    /// One, for a value that no caller can build.
    pub fn sample(&self, value: Error2) -> (r: u8)
        ensures
            r == 1,
    {
        1
    }

    /// Takes nothing, changes nothing and returns nothing.
    pub fn handle_req(&self) {
    }
}

} // verus!
