//! Members of lists.

use vstd::prelude::*;

use super::super::{push_signed, push_unsigned, Call, Method};
#[allow(unused_imports)]
use super::super::{CallView, Pair};
#[allow(unused_imports)]
use crate::decimal::{
    decimal, decimal_is_read_back, signed_decimal, signed_decimal_is_read_back, signed_text_value,
    unsigned_value,
};
#[allow(unused_imports)]
use crate::encoding::{added_fields_are_found, only_value};

verus! {

/// Adds a user to a list.
#[derive(Copy, Clone, Debug)]
pub struct Create {
    pub list_id: u64,
    pub user_id: i64,
}

/// Removes a user from a list.
#[derive(Copy, Clone, Debug)]
pub struct Destroy {
    pub list_id: u64,
    pub user_id: i64,
}

/// The parameters that name a member of a list.
pub open spec fn member_params(list_id: u64, user_id: i64) -> Seq<Pair> {
    seq![
        ("list_id"@, decimal(list_id as nat)),
        ("user_id"@, signed_decimal(user_id as int)),
    ]
}

/// Returns the parameters that name a member of a list.
fn params(list_id: u64, user_id: i64) -> (r: Vec<(String, String)>)
    ensures
        crate::encoding::pairs_view(r@) == member_params(list_id, user_id),
{
    let mut params: Vec<(String, String)> = Vec::new();
    push_unsigned(&mut params, "list_id", list_id);
    push_signed(&mut params, "user_id", user_id);
    assert(crate::encoding::pairs_view(params@) == member_params(list_id, user_id));
    params
}

impl Create {
    /// Makes the request.
    pub fn new(list_id: u64, user_id: i64) -> (r: Self)
        ensures
            r == (Create { list_id, user_id }),
    {
        Create { list_id, user_id }
    }

    /// Returns where the request goes and its parameters.
    pub fn call(&self) -> (r: Call)
        ensures
            r@ == (CallView {
                method: Method::Post,
                uri: "https://api.twitter.com/1.1/lists/members/create.json"@,
                params: member_params(self.list_id, self.user_id),
            }),
    {
        Call {
            method: Method::Post,
            uri: "https://api.twitter.com/1.1/lists/members/create.json",
            params: params(self.list_id, self.user_id),
        }
    }
}

impl Destroy {
    /// Makes the request.
    pub fn new(list_id: u64, user_id: i64) -> (r: Self)
        ensures
            r == (Destroy { list_id, user_id }),
    {
        Destroy { list_id, user_id }
    }

    /// Returns where the request goes and its parameters.
    pub fn call(&self) -> (r: Call)
        ensures
            r@ == (CallView {
                method: Method::Post,
                uri: "https://api.twitter.com/1.1/lists/members/destroy.json"@,
                params: member_params(self.list_id, self.user_id),
            }),
    {
        Call {
            method: Method::Post,
            uri: "https://api.twitter.com/1.1/lists/members/destroy.json",
            params: params(self.list_id, self.user_id),
        }
    }
}

/// Whoever reads the parameters finds the list and the user.
pub proof fn members_are_named(list_id: u64, user_id: i64)
    ensures
        only_value(member_params(list_id, user_id), "list_id"@) == Some(decimal(list_id as nat)),
        only_value(member_params(list_id, user_id), "user_id"@) == Some(
            signed_decimal(user_id as int),
        ),
        unsigned_value(only_value(member_params(list_id, user_id), "list_id"@)->0) == Some(
            list_id as nat,
        ),
        signed_text_value(only_value(member_params(list_id, user_id), "user_id"@)->0) == Some(
            user_id as int,
        ),
{
    reveal_strlit("list_id");
    reveal_strlit("user_id");
    let none: Seq<Pair> = Seq::empty();
    let one = none.push(("list_id"@, decimal(list_id as nat)));
    assert("list_id"@[0] != "user_id"@[0]);
    assert(member_params(list_id, user_id) == one.push(("user_id"@, signed_decimal(user_id as int))));
    added_fields_are_found(none, "list_id"@, decimal(list_id as nat), "list_id"@);
    added_fields_are_found(none, "list_id"@, decimal(list_id as nat), "user_id"@);
    added_fields_are_found(one, "user_id"@, signed_decimal(user_id as int), "list_id"@);
    added_fields_are_found(one, "user_id"@, signed_decimal(user_id as int), "user_id"@);
    decimal_is_read_back(list_id as nat);
    signed_decimal_is_read_back(user_id as int);
}

} // verus!
