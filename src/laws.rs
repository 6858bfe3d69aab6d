use vstd::prelude::*;

use crate::record::{sentinel_user, Error, UserView};
use crate::store::{lookup, user_or_not_found, user_or_sentinel};

verus! {

/// The records of a store, starting from `start`, after one `add` of each of
/// `users` in order (each `add` appends the added record).
pub open spec fn add_all(start: Seq<UserView>, users: Seq<UserView>) -> Seq<UserView>
    decreases users.len(),
{
    if users.len() == 0 {
        start
    } else {
        add_all(start, users.drop_last()).push(users.last())
    }
}

/// A record added to a store is found, unchanged, under the identifier that
/// the addition assigned it (the number of records stored before), and every
/// record stored before stays found under its own identifier.
pub proof fn lemma_added_user_found(before: Seq<UserView>, user: UserView)
    requires
        before.len() < u32::MAX,
    ensures
        user_or_not_found(before.push(user), before.len() as u32) == Ok::<UserView, Error>(user),
        forall|idx: u32|
            (idx as int) < before.len() ==> #[trigger] lookup(before.push(user), idx) == lookup(
                before,
                idx,
            ),
{
}

/// An identifier that no addition has assigned yet finds no record:
/// `get_user_by_result` fails with `NotFound` and `get_user` hands out the
/// sentinel user.
pub proof fn lemma_unassigned_identifier(records: Seq<UserView>, idx: u32)
    requires
        idx as int >= records.len(),
    ensures
        user_or_not_found(records, idx) == Err::<UserView, Error>(Error::NotFound),
        user_or_sentinel(records, idx) == sentinel_user(),
{
}

/// Adding to an empty store yields exactly the added records, in order.
pub proof fn lemma_add_all_from_empty(users: Seq<UserView>)
    ensures
        add_all(Seq::empty(), users) == users,
    decreases users.len(),
{
    if users.len() > 0 {
        lemma_add_all_from_empty(users.drop_last());
        assert(users.drop_last().push(users.last()) =~= users);
    }
}

/// Identifiers are handed out in sequence from zero: after a run of
/// additions to an empty store, the `n`-th added record is found under
/// identifier `n - 1`.
pub proof fn lemma_sequential_identifiers(users: Seq<UserView>, n: int)
    requires
        1 <= n <= users.len(),
        users.len() <= u32::MAX,
    ensures
        user_or_not_found(add_all(Seq::empty(), users), (n - 1) as u32) == Ok::<UserView, Error>(
            users[n - 1],
        ),
{
    lemma_add_all_from_empty(users);
}

} // verus!
