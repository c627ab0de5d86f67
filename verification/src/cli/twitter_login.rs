//! Logging in to Twitter.

use vstd::prelude::*;

use crate::decimal::push_i64;
#[allow(unused_imports)]
use crate::decimal::signed_decimal;

verus! {

/// What came of verifying the credentials of a user.
#[derive(Debug)]
pub enum Verified<E> {
    Valid,
    Unauthorized,
    Failed(E),
}

/// Tells whether a user has to log in: without credentials, or with credentials that are not
/// accepted. Returns their ID if so.
pub fn check_user<E>(user: i64, verified: Option<Verified<E>>) -> (r: Result<Option<i64>, E>)
    ensures
        r == match verified {
            None => Ok(Some(user)),
            Some(Verified::Valid) => Ok(None),
            Some(Verified::Unauthorized) => Ok(Some(user)),
            Some(Verified::Failed(e)) => Err(e),
        },
{
    match verified {
        None => Ok(Some(user)),
        Some(Verified::Valid) => Ok(None),
        Some(Verified::Unauthorized) => Ok(Some(user)),
        Some(Verified::Failed(e)) => Err(e),
    }
}

/// Notes that a user has logged in, and tells whether they had to.
pub fn logged_in(users: &mut Vec<i64>, user: i64) -> (r: bool)
    requires
        old(users)@.no_duplicates(),
    ensures
        r == old(users)@.contains(user),
        final(users)@.no_duplicates(),
        r ==> final(users)@.len() == old(users)@.len() - 1,
        forall|other: i64| #[trigger]
            final(users)@.contains(other) <==> old(users)@.contains(other) && other != user,
{
    let mut i: usize = 0;
    while i < users.len()
        invariant
            i <= users@.len(),
            *users == *old(users),
            users@.no_duplicates(),
            forall|j: int| 0 <= j < i ==> users@[j] != user,
        decreases users@.len() - i,
    {
        if users[i] == user {
            let ghost before = users@;
            let _ = users.remove(i);
            proof {
                let after = users@;
                assert(before.contains(user)) by {
                    assert(before[i as int] == user);
                }
                assert forall|a: int, b: int| 0 <= a < after.len() && 0 <= b < after.len() && a
                    != b implies after[a] != after[b] by {
                    let a0 = if a < i {
                        a
                    } else {
                        a + 1
                    };
                    let b0 = if b < i {
                        b
                    } else {
                        b + 1
                    };
                    assert(after[a] == before[a0] && after[b] == before[b0]);
                }
                assert forall|other: i64| #[trigger]
                    after.contains(other) <==> before.contains(other) && other != user by {
                    if after.contains(other) {
                        let k = choose|k: int| 0 <= k < after.len() && after[k] == other;
                        let k0 = if k < i {
                            k
                        } else {
                            k + 1
                        };
                        assert(before[k0] == other);
                    }
                    if before.contains(other) && other != user {
                        let k0 = choose|k: int| 0 <= k < before.len() && before[k] == other;
                        let k = if k0 < i {
                            k0
                        } else {
                            k0 - 1
                        };
                        assert(after[k] == other);
                    }
                }
            }
            return true;
        }
        i += 1;
    }
    false
}

/// The IDs of users, each in a line of its own.
pub open spec fn user_lines(users: Seq<i64>) -> Seq<char>
    decreases users.len(),
{
    if users.len() == 0 {
        Seq::empty()
    } else {
        user_lines(users.drop_last()) + signed_decimal(users.last() as int) + "\n"@
    }
}

/// What asks a user to log in.
pub open spec fn prompt(token: Seq<char>, users: Seq<i64>) -> Seq<char> {
    "\nOpen the following URL in a Web browser:\nhttps://api.twitter.com/oauth/authorize?force_login=true&oauth_token="@
        + token + "\nLog into an account with one of the following `user_id`s:\n"@ + user_lines(
        users,
    ) + "And enter the PIN code given by Twitter:\n>"@
}

/// Returns what asks a user to log in.
pub fn input_verifier(token: &str, users: &Vec<i64>) -> (r: String)
    ensures
        r@ == prompt(token@, users@),
{
    let mut text = String::new();
    text.append(
        "\nOpen the following URL in a Web browser:\nhttps://api.twitter.com/oauth/authorize?force_login=true&oauth_token=",
    );
    text.append(token);
    text.append("\nLog into an account with one of the following `user_id`s:\n");
    let ghost head = text@;
    let mut i: usize = 0;
    assert(users@.take(0) == Seq::<i64>::empty());
    assert(text@ == head + user_lines(users@.take(0)));
    while i < users.len()
        invariant
            i <= users@.len(),
            text@ == head + user_lines(users@.take(i as int)),
        decreases users@.len() - i,
    {
        assert(users@.take(i + 1).drop_last() == users@.take(i as int));
        assert(users@.take(i + 1).last() == users@[i as int]);
        push_i64(&mut text, users[i]);
        text.append("\n");
        i += 1;
        assert(text@ == head + user_lines(users@.take(i as int)));
    }
    assert(users@.take(i as int) == users@);
    text.append("And enter the PIN code given by Twitter:\n>");
    assert(text@ == prompt(token@, users@));
    text
}

/// Every user has a line of their own, in their order.
pub proof fn users_have_lines(a: Seq<i64>, b: Seq<i64>, user: i64)
    ensures
        user_lines(a + b) == user_lines(a) + user_lines(b),
        user_lines(seq![user]) == signed_decimal(user as int) + "\n"@,
        user_lines(Seq::empty()) == Seq::<char>::empty(),
    decreases b.len(),
{
    let one = seq![user];
    let none: Seq<char> = Seq::empty();
    reveal_with_fuel(user_lines, 2);
    assert(one.drop_last() == Seq::<i64>::empty());
    assert(one.last() == user);
    assert(none + signed_decimal(user as int) + "\n"@ == signed_decimal(user as int) + "\n"@);
    if b.len() == 0 {
        assert(a + b == a);
        assert(user_lines(a) + user_lines(b) == user_lines(a));
    } else {
        let before = b.drop_last();
        users_have_lines(a, before, user);
        assert((a + b).drop_last() == a + before);
        assert((a + b).last() == b.last());
        assert(user_lines(a + b) == user_lines(a) + user_lines(b));
    }
}

/// What asks a user to log in has the token behind the URL, and further on the lines of the users.
pub proof fn prompts_hold_the_token_and_the_users(token: Seq<char>, users: Seq<i64>)
    ensures
        exists|head: Seq<char>, middle: Seq<char>, tail: Seq<char>|
            prompt(token, users) == #[trigger] (head + token + middle + user_lines(users) + tail)
                && "oauth_token="@.is_suffix_of(head),
{
    let head =
        "\nOpen the following URL in a Web browser:\nhttps://api.twitter.com/oauth/authorize?force_login=true&oauth_token="@;
    let middle = "\nLog into an account with one of the following `user_id`s:\n"@;
    let tail = "And enter the PIN code given by Twitter:\n>"@;
    reveal_strlit("oauth_token=");
    reveal_strlit(
        "\nOpen the following URL in a Web browser:\nhttps://api.twitter.com/oauth/authorize?force_login=true&oauth_token=",
    );
    assert(head.subrange(head.len() - 12, head.len() as int) == "oauth_token="@);
    assert(prompt(token, users) == head + token + middle + user_lines(users) + tail);
}

} // verus!
