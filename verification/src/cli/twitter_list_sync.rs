//! Bringing a list in line with the topics.

use vstd::prelude::*;

use crate::sets::{contains_id, insert_id};
#[allow(unused_imports)]
use crate::sets::contains_push;

verus! {

/// The code of the error that members may not be added to a list. It comes, among others, of a user
/// who is protected.
pub const YOU_ARENT_ALLOWED_TO_ADD_MEMBERS_TO_THIS_LIST: u32 = 104;

/// The code of the error that a user does not exist.
pub const CANNOT_FIND_SPECIFIED_USER: u32 = 108;

/// The members to remove from a list and those to add.
#[derive(Debug)]
pub struct ListUpdate {
    pub destroy: Vec<i64>,
    pub create: Vec<i64>,
}

/// Returns the members to remove from a list and those to add, each once, so that it has the users
/// as its members.
pub fn list_update(users: &Vec<i64>, list: &Vec<i64>) -> (r: ListUpdate)
    ensures
        r.destroy@.no_duplicates(),
        r.create@.no_duplicates(),
        forall|user: i64| #[trigger]
            r.destroy@.contains(user) <==> list@.contains(user) && !users@.contains(user),
        forall|user: i64| #[trigger]
            r.create@.contains(user) <==> users@.contains(user) && !list@.contains(user),
{
    ListUpdate { destroy: difference(list, users), create: difference(users, list) }
}

/// Returns the numbers of a list that are not in another, each once.
fn difference(a: &Vec<i64>, b: &Vec<i64>) -> (r: Vec<i64>)
    ensures
        r@.no_duplicates(),
        forall|x: i64| #[trigger] r@.contains(x) <==> a@.contains(x) && !b@.contains(x),
{
    let mut r: Vec<i64> = Vec::new();
    let mut i: usize = 0;
    while i < a.len()
        invariant
            i <= a@.len(),
            r@.no_duplicates(),
            forall|x: i64| #[trigger]
                r@.contains(x) <==> a@.take(i as int).contains(x) && !b@.contains(x),
        decreases a@.len() - i,
    {
        let ghost before = r@;
        assert(a@.take(i + 1) == a@.take(i as int).push(a@[i as int]));
        if !contains_id(b, a[i]) {
            insert_id(&mut r, a[i]);
        }
        proof {
            assert forall|x: i64| #[trigger]
                r@.contains(x) <==> a@.take(i + 1).contains(x) && !b@.contains(x) by {
                contains_push(a@.take(i as int), a@[i as int], x);
                assert(before.contains(x) <==> a@.take(i as int).contains(x) && !b@.contains(x));
            }
        }
        i += 1;
    }
    assert(a@.take(i as int) == a@);
    r
}

/// Once a list was updated, its members are exactly the users.
pub proof fn updated_list_has_the_users(
    users: Seq<i64>,
    list: Seq<i64>,
    destroy: Seq<i64>,
    create: Seq<i64>,
    user: i64,
)
    requires
        forall|user: i64| #[trigger]
            destroy.contains(user) <==> list.contains(user) && !users.contains(user),
        forall|user: i64| #[trigger]
            create.contains(user) <==> users.contains(user) && !list.contains(user),
    ensures
        (list.contains(user) && !destroy.contains(user) || create.contains(user))
            <==> users.contains(user),
{
}

/// Tells whether the failure to add a user is skipped.
pub open spec fn is_skipped(codes: Option<Seq<u32>>) -> bool {
    match codes {
        Some(codes) => codes.contains(YOU_ARENT_ALLOWED_TO_ADD_MEMBERS_TO_THIS_LIST)
            || codes.contains(CANNOT_FIND_SPECIFIED_USER),
        None => false,
    }
}

/// Tells whether the failure to add a user is skipped, given the codes of the error where it is one
/// of the API.
pub fn is_add_error_skipped(codes: &Option<Vec<u32>>) -> (r: bool)
    ensures
        r == is_skipped(crate::app::retweet_queue::opt_codes(*codes)),
{
    match codes {
        Some(list) => {
            let mut i: usize = 0;
            while i < list.len()
                invariant
                    i <= list@.len(),
                    *codes == Some(*list),
                    forall|j: int|
                        0 <= j < i ==> list@[j] != YOU_ARENT_ALLOWED_TO_ADD_MEMBERS_TO_THIS_LIST
                            && list@[j] != CANNOT_FIND_SPECIFIED_USER,
                decreases list@.len() - i,
            {
                let code: u32 = list[i];
                if code == YOU_ARENT_ALLOWED_TO_ADD_MEMBERS_TO_THIS_LIST || code
                    == CANNOT_FIND_SPECIFIED_USER {
                    assert(list@[i as int] == code);
                    return true;
                }
                i += 1;
            }
            false
        },
        None => false,
    }
}

/// Returns what to tell the user in the end.
pub fn summary(update: &ListUpdate) -> (r: &'static str)
    ensures
        r@ == (if update.destroy@.len() > 0 || update.create@.len() > 0 {
            "Successfully updated the list"@
        } else {
            "Nothing to update"@
        }),
{
    if update.destroy.len() > 0 || update.create.len() > 0 {
        "Successfully updated the list"
    } else {
        "Nothing to update"
    }
}

/// The failure to add a user is skipped exactly where one of its codes says that they may not be added
/// or do not exist. A failure without codes is not.
pub proof fn skipped_failures_have_their_codes(codes: Seq<u32>)
    ensures
        !is_skipped(None),
        codes.contains(104) ==> is_skipped(Some(codes)),
        codes.contains(108) ==> is_skipped(Some(codes)),
        !codes.contains(104) && !codes.contains(108) ==> !is_skipped(Some(codes)),
{
}

} // verus!
