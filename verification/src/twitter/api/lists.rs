//! Lists.

pub mod members;

use vstd::prelude::*;

use super::super::User;
use super::{push_bool, push_signed, push_unsigned, Call, Method};
#[allow(unused_imports)]
use super::{bool_text, optional_parameters_are_found, with_opt, CallView, Pair};
#[allow(unused_imports)]
use crate::decimal::{
    decimal, decimal_is_read_back, signed_decimal, signed_decimal_is_read_back, signed_text_value,
    unsigned_value,
};
use crate::encoding::push_field;
#[allow(unused_imports)]
use crate::encoding::{added_fields_are_found, only_value, pairs_view, values_of};

verus! {

/// The members of a list, and where the next ones are.
#[derive(Clone, Debug)]
pub struct ListsMembers {
    pub users: Vec<User>,
    pub next_cursor: u64,
}

/// How the text of a Tweet is given.
#[derive(Copy, Clone, Debug, PartialEq, Eq, Structural)]
pub enum TweetMode {
    Extended,
}

impl TweetMode {
    /// Returns the name of the mode.
    pub fn as_str(&self) -> (r: &'static str)
        ensures
            r@ == match self {
                TweetMode::Extended => "extended"@,
            },
    {
        match self {
            TweetMode::Extended => "extended",
        }
    }
}

/// Asks for the members of a list.
#[derive(Copy, Clone, Debug)]
pub struct Members {
    pub list_id: u64,
    pub count: Option<u64>,
    pub cursor: Option<u64>,
    pub include_entities: bool,
    pub skip_status: bool,
}

/// Asks for the timeline of a list.
#[derive(Copy, Clone, Debug)]
pub struct Statuses {
    pub list_id: u64,
    pub since_id: Option<i64>,
    pub max_id: Option<i64>,
    pub count: Option<u64>,
    pub include_entities: bool,
    pub include_rts: Option<bool>,
    pub tweet_mode: Option<TweetMode>,
}

/// The text of an optional natural number.
pub open spec fn opt_decimal(n: Option<u64>) -> Option<Seq<char>> {
    match n {
        Some(n) => Some(decimal(n as nat)),
        None => None,
    }
}

/// The text of an optional integer.
pub open spec fn opt_signed(n: Option<i64>) -> Option<Seq<char>> {
    match n {
        Some(n) => Some(signed_decimal(n as int)),
        None => None,
    }
}

/// The text of an optional truth value.
pub open spec fn opt_bool(v: Option<bool>) -> Option<Seq<char>> {
    match v {
        Some(v) => Some(bool_text(v)),
        None => None,
    }
}

/// The text of an optional mode.
pub open spec fn opt_mode(mode: Option<TweetMode>) -> Option<Seq<char>> {
    match mode {
        Some(TweetMode::Extended) => Some("extended"@),
        None => None,
    }
}

/// The parameters of a request for the members of a list.
pub open spec fn members_params(request: Members) -> Seq<Pair> {
    let params = seq![("list_id"@, decimal(request.list_id as nat))];
    let params = with_opt(params, "count"@, opt_decimal(request.count));
    let params = with_opt(params, "cursor"@, opt_decimal(request.cursor));
    params.push(("include_entities"@, bool_text(request.include_entities))).push(
        ("skip_status"@, bool_text(request.skip_status)),
    )
}

/// The parameters of a request for the timeline of a list.
pub open spec fn statuses_params(request: Statuses) -> Seq<Pair> {
    let params = seq![("list_id"@, decimal(request.list_id as nat))];
    let params = with_opt(params, "since_id"@, opt_signed(request.since_id));
    let params = with_opt(params, "max_id"@, opt_signed(request.max_id));
    let params = with_opt(params, "count"@, opt_decimal(request.count));
    let params = params.push(("include_entities"@, bool_text(request.include_entities)));
    let params = with_opt(params, "include_rts"@, opt_bool(request.include_rts));
    with_opt(params, "tweet_mode"@, opt_mode(request.tweet_mode))
}

impl Members {
    /// Makes the request.
    pub fn new(list_id: u64) -> (r: Self)
        ensures
            r == (Members {
                list_id,
                count: None,
                cursor: None,
                include_entities: false,
                skip_status: true,
            }),
    {
        Members { list_id, count: None, cursor: None, include_entities: false, skip_status: true }
    }

    /// Sets how many members to return at once.
    pub fn count(&mut self, count: Option<u64>) -> (r: &mut Self)
        ensures
            *r == (Members { count, ..*old(self) }),
            *final(self) == *final(r),
    {
        self.count = count;
        self
    }

    /// Sets where to go on.
    pub fn cursor(&mut self, cursor: Option<u64>) -> (r: &mut Self)
        ensures
            *r == (Members { cursor, ..*old(self) }),
            *final(self) == *final(r),
    {
        self.cursor = cursor;
        self
    }

    /// Sets whether the entities of the members are returned too.
    pub fn include_entities(&mut self, include_entities: bool) -> (r: &mut Self)
        ensures
            *r == (Members { include_entities, ..*old(self) }),
            *final(self) == *final(r),
    {
        self.include_entities = include_entities;
        self
    }

    /// Sets whether the latest Tweets of the members are left out.
    pub fn skip_status(&mut self, skip_status: bool) -> (r: &mut Self)
        ensures
            *r == (Members { skip_status, ..*old(self) }),
            *final(self) == *final(r),
    {
        self.skip_status = skip_status;
        self
    }

    /// Returns where the request goes and its parameters.
    pub fn call(&self) -> (r: Call)
        ensures
            r@ == (CallView {
                method: Method::Get,
                uri: "https://api.twitter.com/1.1/lists/members.json"@,
                params: members_params(*self),
            }),
    {
        let mut params: Vec<(String, String)> = Vec::new();
        push_unsigned(&mut params, "list_id", self.list_id);
        assert(pairs_view(params@) == seq![("list_id"@, decimal(self.list_id as nat))]);
        if let Some(count) = self.count {
            push_unsigned(&mut params, "count", count);
        }
        if let Some(cursor) = self.cursor {
            push_unsigned(&mut params, "cursor", cursor);
        }
        push_bool(&mut params, "include_entities", self.include_entities);
        push_bool(&mut params, "skip_status", self.skip_status);
        Call { method: Method::Get, uri: "https://api.twitter.com/1.1/lists/members.json", params }
    }
}

impl Statuses {
    /// Makes the request.
    pub fn new(list_id: u64) -> (r: Self)
        ensures
            r == (Statuses {
                list_id,
                since_id: None,
                max_id: None,
                count: Some(200),
                include_entities: false,
                include_rts: None,
                tweet_mode: Some(TweetMode::Extended),
            }),
    {
        Statuses {
            list_id,
            since_id: None,
            max_id: None,
            count: Some(200),
            include_entities: false,
            include_rts: None,
            tweet_mode: Some(TweetMode::Extended),
        }
    }

    /// Sets the ID behind which Tweets are returned.
    pub fn since_id(&mut self, since_id: Option<i64>) -> (r: &mut Self)
        ensures
            *r == (Statuses { since_id, ..*old(self) }),
            *final(self) == *final(r),
    {
        self.since_id = since_id;
        self
    }

    /// Sets the ID up to which Tweets are returned.
    pub fn max_id(&mut self, max_id: Option<i64>) -> (r: &mut Self)
        ensures
            *r == (Statuses { max_id, ..*old(self) }),
            *final(self) == *final(r),
    {
        self.max_id = max_id;
        self
    }

    /// Sets how many Tweets to return.
    pub fn count(&mut self, count: Option<u64>) -> (r: &mut Self)
        ensures
            *r == (Statuses { count, ..*old(self) }),
            *final(self) == *final(r),
    {
        self.count = count;
        self
    }

    /// Sets whether the entities of the Tweets are returned too.
    pub fn include_entities(&mut self, include_entities: bool) -> (r: &mut Self)
        ensures
            *r == (Statuses { include_entities, ..*old(self) }),
            *final(self) == *final(r),
    {
        self.include_entities = include_entities;
        self
    }

    /// Sets whether Retweets are returned too.
    pub fn include_rts(&mut self, include_rts: Option<bool>) -> (r: &mut Self)
        ensures
            *r == (Statuses { include_rts, ..*old(self) }),
            *final(self) == *final(r),
    {
        self.include_rts = include_rts;
        self
    }

    /// Sets how the text of the Tweets is given.
    pub fn tweet_mode(&mut self, tweet_mode: Option<TweetMode>) -> (r: &mut Self)
        ensures
            *r == (Statuses { tweet_mode, ..*old(self) }),
            *final(self) == *final(r),
    {
        self.tweet_mode = tweet_mode;
        self
    }

    /// Returns where the request goes and its parameters.
    pub fn call(&self) -> (r: Call)
        ensures
            r@ == (CallView {
                method: Method::Get,
                uri: "https://api.twitter.com/1.1/lists/statuses.json"@,
                params: statuses_params(*self),
            }),
    {
        let mut params: Vec<(String, String)> = Vec::new();
        push_unsigned(&mut params, "list_id", self.list_id);
        assert(pairs_view(params@) == seq![("list_id"@, decimal(self.list_id as nat))]);
        if let Some(since_id) = self.since_id {
            push_signed(&mut params, "since_id", since_id);
        }
        if let Some(max_id) = self.max_id {
            push_signed(&mut params, "max_id", max_id);
        }
        if let Some(count) = self.count {
            push_unsigned(&mut params, "count", count);
        }
        push_bool(&mut params, "include_entities", self.include_entities);
        if let Some(include_rts) = self.include_rts {
            push_bool(&mut params, "include_rts", include_rts);
        }
        if let Some(mode) = &self.tweet_mode {
            push_field(&mut params, "tweet_mode", mode.as_str());
        }
        Call { method: Method::Get, uri: "https://api.twitter.com/1.1/lists/statuses.json", params }
    }
}

/// The lengths of the names of the parameters, by which they differ.
proof fn names_differ()
    ensures
        "list_id"@.len() == 7,
        "since_id"@.len() == 8,
        "max_id"@.len() == 6,
        "count"@.len() == 5,
        "include_entities"@.len() == 16,
        "include_rts"@.len() == 11,
        "tweet_mode"@.len() == 10,
        "cursor"@.len() == 6,
        "skip_status"@.len() == 11,
{
    reveal_strlit("list_id");
    reveal_strlit("since_id");
    reveal_strlit("max_id");
    reveal_strlit("count");
    reveal_strlit("include_entities");
    reveal_strlit("include_rts");
    reveal_strlit("tweet_mode");
    reveal_strlit("cursor");
    reveal_strlit("skip_status");
}

/// What the parameters of a request for the members of a list hold under a name.
proof fn members_values(request: Members, asked: Seq<char>)
    ensures
        asked == "list_id"@ ==> values_of(members_params(request), asked) == seq![
            decimal(request.list_id as nat),
        ],
        asked == "count"@ ==> values_of(members_params(request), asked) == match request.count {
            Some(n) => seq![decimal(n as nat)],
            None => Seq::empty(),
        },
        asked == "cursor"@ ==> values_of(members_params(request), asked) == match request.cursor {
            Some(n) => seq![decimal(n as nat)],
            None => Seq::empty(),
        },
        asked == "include_entities"@ ==> values_of(members_params(request), asked) == seq![
            if request.include_entities {
                "true"@
            } else {
                "false"@
            },
        ],
        asked == "skip_status"@ ==> values_of(members_params(request), asked) == seq![
            if request.skip_status {
                "true"@
            } else {
                "false"@
            },
        ],
{
    names_differ();
    let none: Seq<Pair> = Seq::empty();
    let p0 = none.push(("list_id"@, decimal(request.list_id as nat)));
    let p1 = with_opt(p0, "count"@, opt_decimal(request.count));
    let p2 = with_opt(p1, "cursor"@, opt_decimal(request.cursor));
    let p3 = p2.push(("include_entities"@, bool_text(request.include_entities)));
    assert(p0 == seq![("list_id"@, decimal(request.list_id as nat))]);
    assert(members_params(request) == p3.push(("skip_status"@, bool_text(request.skip_status))));
    added_fields_are_found(none, "list_id"@, decimal(request.list_id as nat), asked);
    optional_parameters_are_found(p0, "count"@, opt_decimal(request.count), asked);
    optional_parameters_are_found(p1, "cursor"@, opt_decimal(request.cursor), asked);
    added_fields_are_found(p2, "include_entities"@, bool_text(request.include_entities), asked);
    added_fields_are_found(p3, "skip_status"@, bool_text(request.skip_status), asked);
}

/// Whoever reads the parameters of a request for the members of a list finds what the request holds:
/// the list, how many members to return and from where on, if that is given, and the two flags.
pub proof fn members_are_asked_for(request: Members)
    ensures
        ({
            let params = members_params(request);
            &&& only_value(params, "list_id"@) == Some(decimal(request.list_id as nat))
            &&& unsigned_value(only_value(params, "list_id"@)->0) == Some(request.list_id as nat)
            &&& request.count is None ==> only_value(params, "count"@) is None
            &&& request.count matches Some(n) ==> unsigned_value(only_value(params, "count"@)->0)
                == Some(n as nat) && only_value(params, "count"@) is Some
            &&& request.cursor is None ==> only_value(params, "cursor"@) is None
            &&& request.cursor matches Some(n) ==> unsigned_value(only_value(params, "cursor"@)->0)
                == Some(n as nat) && only_value(params, "cursor"@) is Some
            &&& only_value(params, "include_entities"@) == Some(
                if request.include_entities {
                    "true"@
                } else {
                    "false"@
                },
            )
            &&& only_value(params, "skip_status"@) == Some(
                if request.skip_status {
                    "true"@
                } else {
                    "false"@
                },
            )
        }),
{
    members_values(request, "list_id"@);
    members_values(request, "count"@);
    members_values(request, "cursor"@);
    members_values(request, "include_entities"@);
    members_values(request, "skip_status"@);
    decimal_is_read_back(request.list_id as nat);
    if let Some(n) = request.count {
        decimal_is_read_back(n as nat);
    }
    if let Some(n) = request.cursor {
        decimal_is_read_back(n as nat);
    }
}

/// What the parameters of a request for the timeline of a list hold under a name.
proof fn statuses_values(request: Statuses, asked: Seq<char>)
    ensures
        asked == "list_id"@ ==> values_of(statuses_params(request), asked) == seq![
            decimal(request.list_id as nat),
        ],
        asked == "since_id"@ ==> values_of(statuses_params(request), asked)
            == match request.since_id {
            Some(n) => seq![signed_decimal(n as int)],
            None => Seq::empty(),
        },
        asked == "max_id"@ ==> values_of(statuses_params(request), asked) == match request.max_id {
            Some(n) => seq![signed_decimal(n as int)],
            None => Seq::empty(),
        },
        asked == "count"@ ==> values_of(statuses_params(request), asked) == match request.count {
            Some(n) => seq![decimal(n as nat)],
            None => Seq::empty(),
        },
        asked == "include_entities"@ ==> values_of(statuses_params(request), asked) == seq![
            if request.include_entities {
                "true"@
            } else {
                "false"@
            },
        ],
        asked == "include_rts"@ ==> values_of(statuses_params(request), asked)
            == match request.include_rts {
            Some(true) => seq!["true"@],
            Some(false) => seq!["false"@],
            None => Seq::empty(),
        },
        asked == "tweet_mode"@ ==> values_of(statuses_params(request), asked)
            == match request.tweet_mode {
            Some(TweetMode::Extended) => seq!["extended"@],
            None => Seq::empty(),
        },
{
    names_differ();
    let none: Seq<Pair> = Seq::empty();
    let p0 = none.push(("list_id"@, decimal(request.list_id as nat)));
    let p1 = with_opt(p0, "since_id"@, opt_signed(request.since_id));
    let p2 = with_opt(p1, "max_id"@, opt_signed(request.max_id));
    let p3 = with_opt(p2, "count"@, opt_decimal(request.count));
    let p4 = p3.push(("include_entities"@, bool_text(request.include_entities)));
    let p5 = with_opt(p4, "include_rts"@, opt_bool(request.include_rts));
    assert(p0 == seq![("list_id"@, decimal(request.list_id as nat))]);
    assert(statuses_params(request) == with_opt(p5, "tweet_mode"@, opt_mode(request.tweet_mode)));
    added_fields_are_found(none, "list_id"@, decimal(request.list_id as nat), asked);
    optional_parameters_are_found(p0, "since_id"@, opt_signed(request.since_id), asked);
    optional_parameters_are_found(p1, "max_id"@, opt_signed(request.max_id), asked);
    optional_parameters_are_found(p2, "count"@, opt_decimal(request.count), asked);
    added_fields_are_found(p3, "include_entities"@, bool_text(request.include_entities), asked);
    optional_parameters_are_found(p4, "include_rts"@, opt_bool(request.include_rts), asked);
    optional_parameters_are_found(p5, "tweet_mode"@, opt_mode(request.tweet_mode), asked);
}

/// Whoever reads the parameters of a request for the timeline of a list finds what the request holds:
/// the list, the IDs between which Tweets are asked for, how many, and what is to be left out. What
/// is not given is not named.
pub proof fn statuses_are_asked_for(request: Statuses)
    ensures
        ({
            let params = statuses_params(request);
            &&& only_value(params, "list_id"@) == Some(decimal(request.list_id as nat))
            &&& unsigned_value(only_value(params, "list_id"@)->0) == Some(request.list_id as nat)
            &&& request.since_id is None ==> only_value(params, "since_id"@) is None
            &&& request.since_id matches Some(n) ==> signed_text_value(
                only_value(params, "since_id"@)->0,
            ) == Some(n as int) && only_value(params, "since_id"@) is Some
            &&& request.max_id is None ==> only_value(params, "max_id"@) is None
            &&& request.max_id matches Some(n) ==> signed_text_value(
                only_value(params, "max_id"@)->0,
            ) == Some(n as int) && only_value(params, "max_id"@) is Some
            &&& request.count is None ==> only_value(params, "count"@) is None
            &&& request.count matches Some(n) ==> unsigned_value(only_value(params, "count"@)->0)
                == Some(n as nat) && only_value(params, "count"@) is Some
            &&& only_value(params, "include_entities"@) == Some(
                if request.include_entities {
                    "true"@
                } else {
                    "false"@
                },
            )
            &&& request.include_rts is None ==> only_value(params, "include_rts"@) is None
            &&& request.include_rts == Some(true) ==> only_value(params, "include_rts"@) == Some(
                "true"@,
            )
            &&& request.include_rts == Some(false) ==> only_value(params, "include_rts"@) == Some(
                "false"@,
            )
            &&& request.tweet_mode is None ==> only_value(params, "tweet_mode"@) is None
            &&& request.tweet_mode is Some ==> only_value(params, "tweet_mode"@) == Some(
                "extended"@,
            )
        }),
{
    statuses_values(request, "list_id"@);
    statuses_values(request, "since_id"@);
    statuses_values(request, "max_id"@);
    statuses_values(request, "count"@);
    statuses_values(request, "include_entities"@);
    statuses_values(request, "include_rts"@);
    statuses_values(request, "tweet_mode"@);
    decimal_is_read_back(request.list_id as nat);
    if let Some(n) = request.count {
        decimal_is_read_back(n as nat);
    }
    if let Some(n) = request.since_id {
        signed_decimal_is_read_back(n as int);
    }
    if let Some(n) = request.max_id {
        signed_decimal_is_read_back(n as int);
    }
}

} // verus!
